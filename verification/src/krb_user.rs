//! A Kerberos principal: a (name, realm) pair.

use vstd::prelude::*;

verus! {

/// A Kerberos principal. Realm comparisons are case-insensitive; the name is
/// preserved verbatim. Immutable once constructed.
#[derive(Debug, Clone)]
pub struct KrbUser {
    pub name: String,
    pub realm: String,
}

impl KrbUser {
    pub fn new(name: String, realm: String) -> (r: Self)
        ensures
            r.name == name,
            r.realm == realm,
    {
        Self { name, realm }
    }
}

} // verus!
