//! The two on-disk ticket formats and how a format is inferred from a file
//! name.

use vstd::prelude::*;
use crate::text::str_ends_with;

verus! {

/// The binary formats a credential bundle can be stored in: the DER-encoded
/// KRB-CRED (Windows) or the MIT credential cache (Linux).
#[derive(Debug, Clone, Copy, PartialEq, Eq, Structural)]
pub enum CredFormat {
    Krb,
    Ccache,
}

impl CredFormat {
    /// The other format; used when converting with no explicit target.
    pub fn contrary(&self) -> (r: Self)
        ensures
            r == match *self {
                CredFormat::Krb => CredFormat::Ccache,
                CredFormat::Ccache => CredFormat::Krb,
            },
    {
        match self {
            CredFormat::Krb => CredFormat::Ccache,
            CredFormat::Ccache => CredFormat::Krb,
        }
    }

    /// The format a file name hints at: a `.krb` or `.ccache` extension.
    pub fn from_file_extension(filename: &str) -> (r: Option<Self>)
        ensures
            r == if filename@.len() >= ".ccache"@.len() && filename@.skip(
                filename@.len() - ".ccache"@.len(),
            ) == ".ccache"@ {
                Some(CredFormat::Ccache)
            } else if filename@.len() >= ".krb"@.len() && filename@.skip(
                filename@.len() - ".krb"@.len(),
            ) == ".krb"@ {
                Some(CredFormat::Krb)
            } else {
                None::<CredFormat>
            },
    {
        if str_ends_with(filename, ".ccache") {
            Some(CredFormat::Ccache)
        } else if str_ends_with(filename, ".krb") {
            Some(CredFormat::Krb)
        } else {
            None
        }
    }
}

} // verus!
