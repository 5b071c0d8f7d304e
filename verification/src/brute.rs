//! Password testing against the KDC: one TGT request, with the KDC's error
//! code classified into what it reveals about the account.

use vstd::prelude::*;
use crate::channel::KrbChannel;
use crate::cipher::Key;
use crate::constants::KDC_ERR_CLIENT_REVOKED;
use crate::constants::KDC_ERR_C_PRINCIPAL_UNKNOWN;
use crate::constants::KDC_ERR_KEY_EXPIRED;
use crate::constants::KDC_ERR_PREAUTH_FAILED;
use crate::error::Error;
use crate::krb_user::KrbUser;
use crate::requesters::request_tgt;

verus! {

/// What one authentication attempt reveals.
#[derive(Debug)]
pub enum BruteResult {
    /// The username/password pair authenticated.
    ValidPair(String, String),
    /// The username exists (pre-authentication failed).
    ValidUser(String),
    /// The KDC does not know the principal.
    InvalidUser(String),
    /// The pair is right but the password has expired.
    ExpiredPassword(String, String),
    /// The account is blocked or disabled.
    BlockedUser(String),
}

/// The classification table of KDC error codes: C-PRINCIPAL-UNKNOWN means
/// the user does not exist, PREAUTH-FAILED means the user exists,
/// KEY-EXPIRED means the pair is valid with an expired password,
/// CLIENT-REVOKED means the account is blocked; every other error
/// propagates unchanged.
pub fn classify_brute_error(username: String, password: String, e: Error) -> (r: Result<
    BruteResult,
    Error,
>)
    ensures
        match e {
            Error::KrbError(ke) => {
                if ke.error_code == KDC_ERR_C_PRINCIPAL_UNKNOWN {
                    r matches Ok(b) && b matches BruteResult::InvalidUser(u) && u@ == username@
                } else if ke.error_code == KDC_ERR_PREAUTH_FAILED {
                    r matches Ok(b) && b matches BruteResult::ValidUser(u) && u@ == username@
                } else if ke.error_code == KDC_ERR_KEY_EXPIRED {
                    r matches Ok(b) && b matches BruteResult::ExpiredPassword(u, p) && u@
                        == username@ && p@ == password@
                } else if ke.error_code == KDC_ERR_CLIENT_REVOKED {
                    r matches Ok(b) && b matches BruteResult::BlockedUser(u) && u@ == username@
                } else {
                    r matches Err(e2) && e2 matches Error::KrbError(ke2) && ke2 == ke
                }
            },
            _ => (r matches Err(e2) && e2 == e),
        },
{
    match e {
        Error::KrbError(ke) => {
            if ke.error_code == KDC_ERR_C_PRINCIPAL_UNKNOWN {
                Ok(BruteResult::InvalidUser(username))
            } else if ke.error_code == KDC_ERR_PREAUTH_FAILED {
                Ok(BruteResult::ValidUser(username))
            } else if ke.error_code == KDC_ERR_KEY_EXPIRED {
                Ok(BruteResult::ExpiredPassword(username, password))
            } else if ke.error_code == KDC_ERR_CLIENT_REVOKED {
                Ok(BruteResult::BlockedUser(username))
            } else {
                Err(Error::KrbError(ke))
            }
        },
        other => Err(other),
    }
}

/// One TGT request for the pair, classified: a success is a valid pair; a
/// KRB-ERROR maps exactly per `classify_brute_error`.
pub fn brute<C: KrbChannel>(
    realm: &str,
    username: String,
    password: String,
    channel: &C,
) -> (r: Result<BruteResult, Error>)
    ensures
        r matches Ok(b) ==> match b {
            BruteResult::ValidPair(u, p) => u@ == username@ && p@ == password@,
            BruteResult::ValidUser(u) => u@ == username@,
            BruteResult::InvalidUser(u) => u@ == username@,
            BruteResult::ExpiredPassword(u, p) => u@ == username@ && p@ == password@,
            BruteResult::BlockedUser(u) => u@ == username@,
        },
{
    let user = KrbUser::new(username.clone(), realm.to_owned());
    let user_key = Key::Secret(password.clone());
    match request_tgt(&user, &user_key, None, channel) {
        Ok(_) => Ok(BruteResult::ValidPair(username, password)),
        Err(e) => classify_brute_error(username, password, e),
    }
}

} // verus!
