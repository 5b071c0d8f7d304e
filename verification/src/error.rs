//! Error kinds surfaced by the library.

use vstd::prelude::*;

verus! {

/// A KRB-ERROR message returned by the KDC: the numeric error code and the
/// optional e-data payload (used for ETYPE-INFO2 salt recovery).
#[derive(Debug, Clone)]
pub struct KrbErrorMsg {
    pub error_code: i32,
    pub e_data: Option<Vec<u8>>,
}

/// The spec-level value of a `KrbErrorMsg`.
pub struct KrbErrorMsgV {
    pub error_code: int,
    pub e_data: Option<Seq<u8>>,
}

impl View for KrbErrorMsg {
    type V = KrbErrorMsgV;

    open spec fn view(&self) -> KrbErrorMsgV {
        KrbErrorMsgV { error_code: self.error_code as int, e_data: self.e_data.deep_view() }
    }
}

/// The error behaviours of the library, one variant per kind:
/// transport failures, KRB-ERROR replies, decryption/checksum failures,
/// parse/encode failures, and domain input validation.
#[derive(Debug, Clone)]
pub enum Error {
    /// Transport failed: connect timeout, refused, reset, truncated read.
    NetworkError(String),
    /// The KDC returned a KRB-ERROR PDU.
    KrbError(KrbErrorMsg),
    /// Decryption or checksum validation failed.
    CryptoError(String),
    /// Parse or encode failure for ASN.1 structures, ccache blobs or SIDs.
    DataError(String),
    /// Domain input validation failed (malformed service line, empty user).
    StringError(String),
}

} // verus!
