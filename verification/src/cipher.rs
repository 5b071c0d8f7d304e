//! Keys and ciphers: key derivation from passwords or raw hashes, and
//! encrypt/decrypt/checksum under a key-usage number. The cryptography
//! itself is `kerberos_crypto`'s, behind trusted wrappers; which algorithm
//! runs, with which key and salt, is verified.

use vstd::prelude::*;
use crate::constants::AES128_CTS_HMAC_SHA1_96;
use crate::constants::AES256_CTS_HMAC_SHA1_96;
use crate::constants::RC4_HMAC;
use crate::constants::HMAC_MD5;
use crate::constants::HMAC_SHA1_96_AES128;
use crate::constants::HMAC_SHA1_96_AES256;
use crate::error::Error;
use crate::krb_types::EncryptionKey;
use crate::krb_user::KrbUser;

verus! {

/// User credentials in one of four shapes: a password, an NT hash, or a raw
/// AES key.
#[derive(Debug)]
pub enum Key {
    Secret(String),
    Rc4(Vec<u8>),
    Aes128(Vec<u8>),
    Aes256(Vec<u8>),
}

/// Raw keys carry exactly the bytes their algorithm uses (the underlying
/// ciphers refuse any other length).
pub open spec fn key_wf(k: Key) -> bool {
    match k {
        Key::Secret(_) => true,
        Key::Rc4(b) => b@.len() == 16,
        Key::Aes128(b) => b@.len() == 16,
        Key::Aes256(b) => b@.len() == 32,
    }
}

/// Whether a key can produce the given encryption type.
pub open spec fn key_supports_etype(k: Key, etype: int) -> bool {
    match k {
        Key::Secret(_) => etype == AES256_CTS_HMAC_SHA1_96 as int || etype
            == AES128_CTS_HMAC_SHA1_96 as int || etype == RC4_HMAC as int,
        Key::Rc4(_) => etype == RC4_HMAC as int,
        Key::Aes128(_) => etype == AES128_CTS_HMAC_SHA1_96 as int,
        Key::Aes256(_) => etype == AES256_CTS_HMAC_SHA1_96 as int,
    }
}

impl Key {
    /// The encryption types this key can produce, strongest first.
    pub fn etypes(&self) -> (r: Vec<i32>)
        ensures
            r@ == match *self {
                Key::Secret(_) => seq![
                    AES256_CTS_HMAC_SHA1_96,
                    AES128_CTS_HMAC_SHA1_96,
                    RC4_HMAC,
                ],
                Key::Rc4(_) => seq![RC4_HMAC],
                Key::Aes128(_) => seq![AES128_CTS_HMAC_SHA1_96],
                Key::Aes256(_) => seq![AES256_CTS_HMAC_SHA1_96],
            },
    {
        let mut out: Vec<i32> = Vec::new();
        match self {
            Key::Secret(_) => {
                out.push(AES256_CTS_HMAC_SHA1_96);
                out.push(AES128_CTS_HMAC_SHA1_96);
                out.push(RC4_HMAC);
                proof {
                    assert(out@ =~= seq![
                        AES256_CTS_HMAC_SHA1_96,
                        AES128_CTS_HMAC_SHA1_96,
                        RC4_HMAC,
                    ]);
                }
            },
            Key::Rc4(_) => {
                out.push(RC4_HMAC);
                proof {
                    assert(out@ =~= seq![RC4_HMAC]);
                }
            },
            Key::Aes128(_) => {
                out.push(AES128_CTS_HMAC_SHA1_96);
                proof {
                    assert(out@ =~= seq![AES128_CTS_HMAC_SHA1_96]);
                }
            },
            Key::Aes256(_) => {
                out.push(AES256_CTS_HMAC_SHA1_96);
                proof {
                    assert(out@ =~= seq![AES256_CTS_HMAC_SHA1_96]);
                }
            },
        }
        out
    }

    /// Whether this key can produce the given encryption type.
    pub fn supports_etype(&self, etype: i32) -> (r: bool)
        ensures
            r == key_supports_etype(*self, etype as int),
    {
        match self {
            Key::Secret(_) => etype == AES256_CTS_HMAC_SHA1_96 || etype == AES128_CTS_HMAC_SHA1_96
                || etype == RC4_HMAC,
            Key::Rc4(_) => etype == RC4_HMAC,
            Key::Aes128(_) => etype == AES128_CTS_HMAC_SHA1_96,
            Key::Aes256(_) => etype == AES256_CTS_HMAC_SHA1_96,
        }
    }
}

/// The NT hash an RC4-HMAC key is: what `rc4_hmac_md5` key derivation
/// returns for a password.
pub uninterp spec fn rc4_key_of(password: Seq<char>) -> Seq<u8>;

/// Relies on `kerberos_crypto::rc4_hmac_md5::generate_key_from_string`
/// (MD4 over the UTF-16LE password): a 16-byte function of the password
/// alone.
#[verifier::external_body]
fn rc4_key_from_string(password: &str) -> (r: Vec<u8>)
    ensures
        r@ == rc4_key_of(password@),
        r@.len() == 16,
{
    kerberos_crypto::rc4_hmac_md5::generate_key_from_string(password)
}

/// The default AES salt for a principal: what `aes_hmac_sha1` salt
/// generation returns for a realm and client name.
pub uninterp spec fn aes_salt_of(realm: Seq<char>, name: Seq<char>) -> Seq<u8>;

/// Relies on `kerberos_crypto::aes_hmac_sha1::generate_salt`: a function of
/// realm and client name alone (upper-cased realm beside the name, with the
/// host form for `$`-terminated machine accounts).
#[verifier::external_body]
fn aes_salt(realm: &str, client_name: &str) -> (r: Vec<u8>)
    ensures
        r@ == aes_salt_of(realm@, client_name@),
{
    kerberos_crypto::aes_hmac_sha1::generate_salt(realm, client_name)
}

/// The AES key PBKDF2 derives from a password and salt; `big` selects
/// AES256 over AES128.
pub uninterp spec fn aes_key_of(password: Seq<char>, salt: Seq<u8>, big: bool) -> Seq<u8>;

/// Relies on `kerberos_crypto::aes_hmac_sha1::generate_key_from_string`
/// with `AesSizes::Aes128`: a 16-byte function of password and salt alone.
#[verifier::external_body]
fn aes128_key_from_string(password: &str, salt: &Vec<u8>) -> (r: Vec<u8>)
    ensures
        r@ == aes_key_of(password@, salt@, false),
        r@.len() == 16,
{
    kerberos_crypto::aes_hmac_sha1::generate_key_from_string(
        password,
        salt,
        &kerberos_crypto::AesSizes::Aes128,
    )
}

/// Relies on `kerberos_crypto::aes_hmac_sha1::generate_key_from_string`
/// with `AesSizes::Aes256`: a 32-byte function of password and salt alone.
#[verifier::external_body]
fn aes256_key_from_string(password: &str, salt: &Vec<u8>) -> (r: Vec<u8>)
    ensures
        r@ == aes_key_of(password@, salt@, true),
        r@.len() == 32,
{
    kerberos_crypto::aes_hmac_sha1::generate_key_from_string(
        password,
        salt,
        &kerberos_crypto::AesSizes::Aes256,
    )
}

/// The HMAC-MD5 Kerberos checksum of `data` under `key` and a key-usage
/// number.
pub uninterp spec fn hmac_md5_of(key: Seq<u8>, usage: int, data: Seq<u8>) -> Seq<u8>;

/// Relies on `kerberos_crypto::checksum_hmac_md5`: a 16-byte function of
/// key, key-usage and data alone.
#[verifier::external_body]
fn checksum_hmac_md5_raw(key: &Vec<u8>, key_usage: i32, data: &Vec<u8>) -> (r: Vec<u8>)
    ensures
        r@ == hmac_md5_of(key@, key_usage as int, data@),
        r@.len() == 16,
{
    kerberos_crypto::checksum_hmac_md5(key, key_usage, data)
}

/// The HMAC-SHA1-96 AES Kerberos checksum of `data` under `key` and a
/// key-usage number; `big` selects the AES256 flavour.
pub uninterp spec fn hmac_sha_aes_of(key: Seq<u8>, usage: int, data: Seq<u8>, big: bool) -> Seq<u8>;

/// Relies on `kerberos_crypto::checksum_sha_aes` with `AesSizes::Aes128`: a
/// 12-byte function of key, key-usage and data alone. The key derivation
/// inside refuses any key that is not exactly 16 bytes.
#[verifier::external_body]
fn checksum_sha_aes128(key: &Vec<u8>, key_usage: i32, data: &Vec<u8>) -> (r: Vec<u8>)
    requires
        key@.len() == 16,
    ensures
        r@ == hmac_sha_aes_of(key@, key_usage as int, data@, false),
        r@.len() == 12,
{
    kerberos_crypto::checksum_sha_aes(key, key_usage, data, &kerberos_crypto::AesSizes::Aes128)
}

/// Relies on `kerberos_crypto::checksum_sha_aes` with `AesSizes::Aes256`: a
/// 12-byte function of key, key-usage and data alone. The key derivation
/// inside refuses any key that is not exactly 32 bytes.
#[verifier::external_body]
fn checksum_sha_aes256(key: &Vec<u8>, key_usage: i32, data: &Vec<u8>) -> (r: Vec<u8>)
    requires
        key@.len() == 32,
    ensures
        r@ == hmac_sha_aes_of(key@, key_usage as int, data@, true),
        r@.len() == 12,
{
    kerberos_crypto::checksum_sha_aes(key, key_usage, data, &kerberos_crypto::AesSizes::Aes256)
}

/// Relies on `kerberos_crypto::new_kerberos_cipher` and
/// `KerberosCipher::encrypt`: Kerberos encryption under the given key and
/// key-usage. The key must be exactly the etype's size (the ciphers refuse
/// any other length). The ciphertext embeds a random confounder, so nothing
/// is promised of the bytes; decryption of them is covered by `decrypt_raw`.
#[verifier::external_body]
fn encrypt_raw(etype: i32, key: &Vec<u8>, key_usage: i32, plaintext: &Vec<u8>) -> (r: Vec<u8>)
    requires
        etype == RC4_HMAC || etype == AES128_CTS_HMAC_SHA1_96 || etype == AES256_CTS_HMAC_SHA1_96,
        etype == AES256_CTS_HMAC_SHA1_96 ==> key@.len() == 32,
        etype != AES256_CTS_HMAC_SHA1_96 ==> key@.len() == 16,
{
    kerberos_crypto::new_kerberos_cipher(etype).unwrap().encrypt(key, key_usage, plaintext)
}

/// Relies on `kerberos_crypto::new_kerberos_cipher` and
/// `KerberosCipher::decrypt`: Kerberos decryption under the given key and
/// key-usage, failing on a MAC mismatch, a wrong key or malformed
/// ciphertext. The key must be exactly the etype's size (the ciphers refuse
/// any other length).
#[verifier::external_body]
fn decrypt_raw(etype: i32, key: &Vec<u8>, key_usage: i32, ciphertext: &Vec<u8>) -> (r: Result<
    Vec<u8>,
    Error,
>)
    requires
        etype == RC4_HMAC || etype == AES128_CTS_HMAC_SHA1_96 || etype == AES256_CTS_HMAC_SHA1_96,
        etype == AES256_CTS_HMAC_SHA1_96 ==> key@.len() == 32,
        etype != AES256_CTS_HMAC_SHA1_96 ==> key@.len() == 16,
    ensures
        r is Ok || (r matches Err(e) && e is CryptoError),
{
    match kerberos_crypto::new_kerberos_cipher(etype).unwrap().decrypt(key, key_usage, ciphertext)
    {
        Ok(p) => Ok(p),
        Err(e) => Err(Error::CryptoError(format!("Decryption error: {}", e))),
    }
}

/// The encryption type a generated cipher runs under: fixed by a raw key's
/// shape; for a password, the preferred type, or AES256 by default.
pub open spec fn cipher_etype_of(key: Key, preferred_etype: Option<i32>) -> int {
    match key {
        Key::Secret(_) => match preferred_etype {
            Some(e) => e as int,
            None => AES256_CTS_HMAC_SHA1_96 as int,
        },
        Key::Rc4(_) => RC4_HMAC as int,
        Key::Aes128(_) => AES128_CTS_HMAC_SHA1_96 as int,
        Key::Aes256(_) => AES256_CTS_HMAC_SHA1_96 as int,
    }
}

/// The key bytes a generated cipher runs with: a raw key's own bytes; for a
/// password, the key derived for the etype, under the caller's salt or the
/// default realm/name salt.
pub open spec fn cipher_key_of(
    key: Key,
    realm: Seq<char>,
    name: Seq<char>,
    preferred_etype: Option<i32>,
    salt: Option<Seq<u8>>,
) -> Seq<u8> {
    match key {
        Key::Secret(pw) => {
            let etype = cipher_etype_of(key, preferred_etype);
            if etype == RC4_HMAC as int {
                rc4_key_of(pw@)
            } else {
                let s = match salt {
                    Some(s) => s,
                    None => aes_salt_of(realm, name),
                };
                aes_key_of(pw@, s, etype == AES256_CTS_HMAC_SHA1_96 as int)
            }
        },
        Key::Rc4(b) => b@,
        Key::Aes128(b) => b@,
        Key::Aes256(b) => b@,
    }
}

/// A cipher bound to a concrete encryption type and derived key bytes.
#[derive(Debug)]
pub struct Cipher {
    pub etype: i32,
    pub key: Vec<u8>,
}

/// A cipher runs under one of the three supported encryption types, with
/// key bytes of exactly that type's size (the underlying ciphers refuse any
/// other length).
pub open spec fn cipher_wf(c: Cipher) -> bool {
    &&& (c.etype == RC4_HMAC || c.etype == AES128_CTS_HMAC_SHA1_96 || c.etype
        == AES256_CTS_HMAC_SHA1_96)
    &&& (c.etype == RC4_HMAC ==> c.key@.len() == 16)
    &&& (c.etype == AES128_CTS_HMAC_SHA1_96 ==> c.key@.len() == 16)
    &&& (c.etype == AES256_CTS_HMAC_SHA1_96 ==> c.key@.len() == 32)
}

/// The checksum type an encryption type dictates: HMAC-MD5 for RC4,
/// HMAC-SHA1-96-AES128 or -AES256 for the AES flavours.
pub open spec fn checksum_kind(etype: int) -> int {
    if etype == RC4_HMAC as int {
        HMAC_MD5 as int
    } else if etype == AES128_CTS_HMAC_SHA1_96 as int {
        HMAC_SHA1_96_AES128 as int
    } else {
        HMAC_SHA1_96_AES256 as int
    }
}

/// The checksum a cipher computes, dispatched by its etype: HMAC-MD5 for
/// RC4, HMAC-SHA1-96 for the AES flavours.
pub open spec fn checksum_of(etype: int, key: Seq<u8>, usage: int, data: Seq<u8>) -> Seq<u8> {
    if etype == RC4_HMAC as int {
        hmac_md5_of(key, usage, data)
    } else {
        hmac_sha_aes_of(key, usage, data, etype == AES256_CTS_HMAC_SHA1_96 as int)
    }
}

impl Cipher {
    pub fn new(etype: i32, key: Vec<u8>) -> (r: Self)
        ensures
            r.etype == etype,
            r.key == key,
    {
        Self { etype, key }
    }

    /// A cipher from user credentials: the etype selection and key
    /// derivation rules of `cipher_etype_of` / `cipher_key_of`. A caller's
    /// salt overrides the default realm/name salt — the path that serves
    /// ETYPE-INFO2 salt recovery.
    pub fn generate(user_key: &Key, user: &KrbUser, preferred_etype: Option<i32>, salt: Option<
        Vec<u8>,
    >) -> (r: Self)
        requires
            key_wf(*user_key),
            user_key matches Key::Secret(_) ==> match preferred_etype {
                Some(e) => e == RC4_HMAC || e == AES128_CTS_HMAC_SHA1_96 || e
                    == AES256_CTS_HMAC_SHA1_96,
                None => true,
            },
        ensures
            cipher_wf(r),
            r.etype as int == cipher_etype_of(*user_key, preferred_etype),
            r.key@ == cipher_key_of(
                *user_key,
                user.realm@,
                user.name@,
                preferred_etype,
                match salt {
                    Some(s) => Some(s@),
                    None => None,
                },
            ),
    {
        match user_key {
            Key::Secret(pw) => {
                let etype = match preferred_etype {
                    Some(e) => e,
                    None => AES256_CTS_HMAC_SHA1_96,
                };
                if etype == RC4_HMAC {
                    Cipher::new(etype, rc4_key_from_string(pw.as_str()))
                } else {
                    let s: Vec<u8> = match salt {
                        Some(s) => s,
                        None => aes_salt(user.realm.as_str(), user.name.as_str()),
                    };
                    if etype == AES256_CTS_HMAC_SHA1_96 {
                        Cipher::new(etype, aes256_key_from_string(pw.as_str(), &s))
                    } else {
                        Cipher::new(etype, aes128_key_from_string(pw.as_str(), &s))
                    }
                }
            },
            Key::Rc4(b) => Cipher::new(RC4_HMAC, crate::krb_types::clone_bytes(b)),
            Key::Aes128(b) => Cipher::new(AES128_CTS_HMAC_SHA1_96, crate::krb_types::clone_bytes(b)),
            Key::Aes256(b) => Cipher::new(AES256_CTS_HMAC_SHA1_96, crate::krb_types::clone_bytes(b)),
        }
    }

    /// A cipher from a session key, validating its encryption type and that
    /// the key bytes have that type's size.
    pub fn from_enc_key(key: &EncryptionKey) -> (r: Result<Self, Error>)
        ensures
            r is Ok <==> ((key.keytype == RC4_HMAC || key.keytype == AES128_CTS_HMAC_SHA1_96)
                && key.keyvalue@.len() == 16) || (key.keytype == AES256_CTS_HMAC_SHA1_96
                && key.keyvalue@.len() == 32),
            r matches Ok(c) ==> c.etype == key.keytype && c.key@ == key.keyvalue@ && cipher_wf(c),
            r matches Err(e) ==> e is CryptoError,
    {
        let len_ok: bool = if key.keytype == AES256_CTS_HMAC_SHA1_96 {
            key.keyvalue.len() == 32
        } else {
            key.keyvalue.len() == 16
        };
        if (key.keytype == RC4_HMAC || key.keytype == AES128_CTS_HMAC_SHA1_96 || key.keytype
            == AES256_CTS_HMAC_SHA1_96) && len_ok {
            Ok(Cipher::new(key.keytype, crate::krb_types::clone_bytes(&key.keyvalue)))
        } else {
            Err(Error::CryptoError(String::from_str("Unusable session key")))
        }
    }

    pub fn etype(&self) -> (r: i32)
        ensures
            r == self.etype,
    {
        self.etype
    }

    /// The checksum type this cipher's etype dictates.
    pub fn checksum_type(&self) -> (r: i32)
        requires
            cipher_wf(*self),
        ensures
            r as int == checksum_kind(self.etype as int),
            self.etype == RC4_HMAC ==> r == HMAC_MD5,
            self.etype == AES128_CTS_HMAC_SHA1_96 ==> r == HMAC_SHA1_96_AES128,
            self.etype == AES256_CTS_HMAC_SHA1_96 ==> r == HMAC_SHA1_96_AES256,
    {
        if self.etype == RC4_HMAC {
            HMAC_MD5
        } else if self.etype == AES128_CTS_HMAC_SHA1_96 {
            HMAC_SHA1_96_AES128
        } else {
            HMAC_SHA1_96_AES256
        }
    }

    /// Encryption under this cipher's key and the given key-usage.
    pub fn encrypt(&self, key_usage: i32, plaintext: &Vec<u8>) -> (r: Vec<u8>)
        requires
            cipher_wf(*self),
    {
        encrypt_raw(self.etype, &self.key, key_usage, plaintext)
    }

    /// Decryption under this cipher's key and the given key-usage; fails
    /// with a crypto error on MAC mismatch, wrong key or malformed input.
    pub fn decrypt(&self, key_usage: i32, ciphertext: &Vec<u8>) -> (r: Result<Vec<u8>, Error>)
        requires
            cipher_wf(*self),
        ensures
            r is Ok || (r matches Err(e) && e is CryptoError),
    {
        decrypt_raw(self.etype, &self.key, key_usage, ciphertext)
    }

    /// The HMAC-MD5 checksum under this cipher's key, whatever its etype:
    /// the checksum PA-FOR-USER requires.
    pub fn checksum_hmac_md5(&self, key_usage: i32, data: &Vec<u8>) -> (r: Vec<u8>)
        ensures
            r@ == hmac_md5_of(self.key@, key_usage as int, data@),
            r@.len() == 16,
    {
        checksum_hmac_md5_raw(&self.key, key_usage, data)
    }

    /// The checksum this cipher's etype dictates: HMAC-MD5 for RC4,
    /// HMAC-SHA1-96 for AES; a pure function of etype, key, usage and data.
    pub fn checksum(&self, key_usage: i32, data: &Vec<u8>) -> (r: Vec<u8>)
        requires
            cipher_wf(*self),
        ensures
            r@ == checksum_of(self.etype as int, self.key@, key_usage as int, data@),
    {
        if self.etype == RC4_HMAC {
            checksum_hmac_md5_raw(&self.key, key_usage, data)
        } else if self.etype == AES256_CTS_HMAC_SHA1_96 {
            checksum_sha_aes256(&self.key, key_usage, data)
        } else {
            checksum_sha_aes128(&self.key, key_usage, data)
        }
    }
}

/// A cipher generated from user credentials, beside its derived key bytes.
pub fn generate_cipher_and_key(
    user_key: &Key,
    user: &KrbUser,
    preferred_etype: Option<i32>,
    salt: Option<Vec<u8>>,
) -> (r: (Cipher, Vec<u8>))
    requires
        key_wf(*user_key),
        user_key matches Key::Secret(_) ==> match preferred_etype {
            Some(e) => e == RC4_HMAC || e == AES128_CTS_HMAC_SHA1_96 || e
                == AES256_CTS_HMAC_SHA1_96,
            None => true,
        },
    ensures
        cipher_wf(r.0),
        r.0.etype as int == cipher_etype_of(*user_key, preferred_etype),
        r.0.key@ == cipher_key_of(
            *user_key,
            user.realm@,
            user.name@,
            preferred_etype,
            match salt {
                Some(s) => Some(s@),
                None => None,
            },
        ),
        r.1@ == r.0.key@,
{
    let cipher = Cipher::generate(user_key, user, preferred_etype, salt);
    let key = crate::krb_types::clone_bytes(&cipher.key);
    (cipher, key)
}

} // verus!
