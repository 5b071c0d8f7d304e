//! The encryption algorithms a caller can ask the KDC for.

use vstd::prelude::*;
use crate::constants::AES128_CTS_HMAC_SHA1_96;
use crate::constants::AES256_CTS_HMAC_SHA1_96;
use crate::constants::RC4_HMAC;

verus! {

/// Valid encryption algorithms that can be sent to the server.
#[derive(Debug, Clone, Copy, PartialEq, Eq, Structural)]
pub enum EncryptionType {
    RC4,
    AES128,
    AES256,
}

impl EncryptionType {
    /// The protocol constant of this encryption type.
    pub fn as_constant(&self) -> (r: i32)
        ensures
            r == match *self {
                EncryptionType::RC4 => RC4_HMAC,
                EncryptionType::AES128 => AES128_CTS_HMAC_SHA1_96,
                EncryptionType::AES256 => AES256_CTS_HMAC_SHA1_96,
            },
    {
        match self {
            EncryptionType::RC4 => RC4_HMAC,
            EncryptionType::AES128 => AES128_CTS_HMAC_SHA1_96,
            EncryptionType::AES256 => AES256_CTS_HMAC_SHA1_96,
        }
    }
}

} // verus!
