//! Offline key derivation helpers: the Kerberos keys (password hashes) of a
//! user, rendered in hex.

use vstd::prelude::*;
use crate::cipher::aes_key_of;
use crate::cipher::aes_salt_of;
use crate::cipher::rc4_key_of;
use crate::cipher::Cipher;
use crate::cipher::Key;
use crate::constants::AES128_CTS_HMAC_SHA1_96;
use crate::constants::AES256_CTS_HMAC_SHA1_96;
use crate::constants::RC4_HMAC;
use crate::error::Error;
use crate::krb_user::KrbUser;
use crate::text::hex_chars;
use crate::text::hex_string;

verus! {

/// The lower-case hex rendering of a byte string.
pub fn get_hex(v: &[u8]) -> (r: String)
    ensures
        r@ == hex_chars(v@),
        r@.len() == 2 * v@.len(),
{
    proof {
        crate::text::lemma_hex_chars_len(v@);
    }
    hex_string(v)
}

/// The user's NT (RC4) hash, in hex.
pub fn hash_rc4(password: &str) -> (r: Result<String, Error>)
    ensures
        r matches Ok(s) && s@ == hex_chars(rc4_key_of(password@)) && s@.len() == 32,
{
    proof {
        crate::text::lemma_hex_chars_len(rc4_key_of(password@));
    }
    let user = KrbUser::new(String::from_str(""), String::from_str(""));
    let key = Key::Secret(password.to_owned());
    let cipher = Cipher::generate(&key, &user, Some(RC4_HMAC), None);
    Ok(hex_string(cipher.key.as_slice()))
}

/// The user's AES128 key, derived with the default realm/name salt, in hex.
pub fn hash_aes128(realm: &str, username: &str, password: &str) -> (r: Result<String, Error>)
    ensures
        r matches Ok(s) && s@ == hex_chars(
            aes_key_of(password@, aes_salt_of(realm@, username@), false),
        ) && s@.len() == 32,
{
    proof {
        crate::text::lemma_hex_chars_len(aes_key_of(password@, aes_salt_of(realm@, username@), false));
    }
    let user = KrbUser::new(username.to_owned(), realm.to_owned());
    let key = Key::Secret(password.to_owned());
    let cipher = Cipher::generate(&key, &user, Some(AES128_CTS_HMAC_SHA1_96), None);
    Ok(hex_string(cipher.key.as_slice()))
}

/// The user's AES256 key, derived with the default realm/name salt, in hex.
pub fn hash_aes256(realm: &str, username: &str, password: &str) -> (r: Result<String, Error>)
    ensures
        r matches Ok(s) && s@ == hex_chars(
            aes_key_of(password@, aes_salt_of(realm@, username@), true),
        ) && s@.len() == 64,
{
    proof {
        crate::text::lemma_hex_chars_len(aes_key_of(password@, aes_salt_of(realm@, username@), true));
    }
    let user = KrbUser::new(username.to_owned(), realm.to_owned());
    let key = Key::Secret(password.to_owned());
    let cipher = Cipher::generate(&key, &user, Some(AES256_CTS_HMAC_SHA1_96), None);
    Ok(hex_string(cipher.key.as_slice()))
}

} // verus!
