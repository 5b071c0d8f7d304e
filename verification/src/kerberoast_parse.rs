//! Parsing of kerberoast service entries: `user`, `domain/user`, `user:spn`
//! and `domain/user:spn` (a backslash works as the domain separator too).

use vstd::prelude::*;
use crate::error::Error;
use crate::krb_types::PrincipalName;
use crate::krb_types::new_nt_enterprise;
use crate::krb_types::new_nt_srv_inst;
use crate::krb_user::KrbUser;
use crate::text::chars_of;
use crate::text::find_ch;
use crate::text::find_sep;
use crate::text::split_on;
use crate::text::split_text;
use crate::text::string_of_chars;
use crate::text::chars_range;

verus! {

/// A user to kerberoast, with the SPN to request, if one was given.
#[derive(Debug)]
pub struct KerberoastService {
    pub user: KrbUser,
    pub service: Option<String>,
}

impl KerberoastService {
    pub fn new(user: KrbUser, service: Option<String>) -> (r: Self)
        ensures
            r.user == user,
            r.service == service,
    {
        Self { user, service }
    }

    /// The principal to request: the SPN as an NT-SRV-INST name, or the
    /// user's NT-ENTERPRISE name when no SPN was given.
    pub fn service(&self) -> (r: PrincipalName)
        ensures
            match self.service {
                Some(s) => r.name_type == crate::constants::NT_SRV_INST
                    && r.name_string.deep_view() == split_on(s@, seq!['/']),
                None => r.name_type == crate::constants::NT_ENTERPRISE
                    && r.name_string.deep_view() == seq![
                    self.user.name@ + "@"@ + self.user.realm@,
                ],
            },
    {
        match &self.service {
            None => new_nt_enterprise(&self.user),
            Some(s) => new_nt_srv_inst(s.as_str()),
        }
    }
}

/// What one kerberoast line means: the user name, the realm (the given
/// domain, or the default), and the SPN after the first `:`, if any — or
/// nothing, when the line is malformed (an empty user, an empty domain, or
/// more than one domain separator).
pub open spec fn kerberoast_entry(line: Seq<char>, default_realm: Seq<char>) -> Option<
    (Seq<char>, Seq<char>, Option<Seq<char>>),
> {
    let ci = find_ch(line, seq![':']);
    let ustr = if ci < 0 {
        line
    } else {
        line.take(ci)
    };
    let spn = if ci < 0 {
        None
    } else {
        Some(line.skip(ci + 1))
    };
    if ustr.len() == 0 {
        None
    } else {
        let ps = split_on(ustr, seq!['/', '\\']);
        if ps.len() == 1 {
            Some((ps[0], default_realm, spn))
        } else if ps.len() == 2 && ps[0].len() > 0 && ps[1].len() > 0 {
            Some((ps[1], ps[0], spn))
        } else {
            None
        }
    }
}

/// Parses one service line; a malformed line is a client error.
pub fn parse_kerberoast_service(line: &str, default_realm: &str) -> (r: Result<
    KerberoastService,
    Error,
>)
    ensures
        match kerberoast_entry(line@, default_realm@) {
            Some(e) => r matches Ok(ks) && ks.user.name@ == e.0 && ks.user.realm@ == e.1
                && ks.service.deep_view() == e.2,
            None => r matches Err(err) && err is StringError,
        },
{
    let cs = chars_of(line);
    let mut colon: Vec<char> = Vec::new();
    colon.push(':');
    proof {
        assert(colon@ =~= seq![':']);
        assert(cs@.skip(0) =~= line@);
    }
    let n = cs.len();
    let (user_str, spn): (String, Option<String>) = match find_sep(&cs, 0, &colon) {
        Some(i) => {
            let u = string_of_chars(&chars_range(&cs, 0, i));
            let s = string_of_chars(&chars_range(&cs, i + 1, n));
            proof {
                assert(cs@.subrange(0, i as int) =~= line@.take(i as int));
                assert(cs@.subrange(i + 1 as int, n as int) =~= line@.skip(i + 1));
            }
            (u, Some(s))
        },
        None => {
            let u = string_of_chars(&chars_range(&cs, 0, n));
            proof {
                assert(cs@.subrange(0, n as int) =~= line@);
            }
            (u, None)
        },
    };
    if user_str.as_str().is_empty() {
        return Err(Error::StringError(String::from_str("No user")));
    }
    let mut seps: Vec<char> = Vec::new();
    seps.push('/');
    seps.push('\\');
    proof {
        assert(seps@ =~= seq!['/', '\\']);
    }
    let user_parts = split_text(user_str.as_str(), &seps);
    if user_parts.len() == 1 {
        proof {
            assert(user_parts.deep_view()[0] == user_parts@[0]@);
        }
        let user = KrbUser::new(user_parts[0].clone(), default_realm.to_owned());
        Ok(KerberoastService::new(user, spn))
    } else if user_parts.len() == 2 {
        proof {
            assert(user_parts.deep_view()[0] == user_parts@[0]@);
            assert(user_parts.deep_view()[1] == user_parts@[1]@);
        }
        if user_parts[0].as_str().is_empty() {
            return Err(Error::StringError(String::from_str("Empty domain")));
        }
        if user_parts[1].as_str().is_empty() {
            return Err(Error::StringError(String::from_str("Empty user")));
        }
        let user = KrbUser::new(user_parts[1].clone(), user_parts[0].clone());
        Ok(KerberoastService::new(user, spn))
    } else {
        Err(
            Error::StringError(
                String::from_str("Invalid user, it must be <domain>/<username>"),
            ),
        )
    }
}

/// Parses a vector of service lines; the first malformed line is a client
/// error.
pub fn parse_kerberoast(services_str: &Vec<String>, default_realm: &str) -> (r: Result<
    Vec<KerberoastService>,
    Error,
>)
    ensures
        r matches Ok(v) ==> v@.len() == services_str@.len() && forall|i: int|
            0 <= i < v@.len() ==> match kerberoast_entry(
                services_str@[i]@,
                default_realm@,
            ) {
                Some(e) => (#[trigger] v@[i]).user.name@ == e.0 && v@[i].user.realm@ == e.1
                    && v@[i].service.deep_view() == e.2,
                None => false,
            },
        r matches Err(err) ==> err is StringError && exists|i: int|
            0 <= i < services_str@.len() && kerberoast_entry(
                #[trigger] services_str@[i]@,
                default_realm@,
            ) is None,
{
    let mut services: Vec<KerberoastService> = Vec::new();
    let mut i: usize = 0;
    while i < services_str.len()
        invariant
            i <= services_str@.len(),
            services@.len() == i,
            forall|j: int|
                0 <= j < i ==> match kerberoast_entry(services_str@[j]@, default_realm@) {
                    Some(e) => (#[trigger] services@[j]).user.name@ == e.0 && services@[j].user.realm@
                        == e.1 && services@[j].service.deep_view() == e.2,
                    None => false,
                },
        decreases services_str@.len() - i,
    {
        match parse_kerberoast_service(services_str[i].as_str(), default_realm) {
            Ok(s) => {
                services.push(s);
            },
            Err(e) => {
                return Err(e);
            },
        }
        i = i + 1;
    }
    Ok(services)
}

} // verus!
