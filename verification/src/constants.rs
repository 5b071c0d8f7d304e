//! Kerberos protocol constants (RFC 4120 and MS extensions) used by the
//! library: encryption types, principal-name types, key-usage numbers,
//! KDC error codes, PA-DATA types and checksum types.

use vstd::prelude::*;

verus! {

// Encryption types.
pub const NO_ENCRYPTION: i32 = 0;
pub const AES128_CTS_HMAC_SHA1_96: i32 = 17;
pub const AES256_CTS_HMAC_SHA1_96: i32 = 18;
pub const RC4_HMAC: i32 = 23;

// Principal name types.
pub const NT_PRINCIPAL: i32 = 1;
pub const NT_SRV_INST: i32 = 2;
pub const NT_ENTERPRISE: i32 = 10;

// Key-usage numbers.
pub const KEY_USAGE_AS_REQ_TIMESTAMP: i32 = 1;
pub const KEY_USAGE_AS_REP_TICKET: i32 = 2;
pub const KEY_USAGE_AS_REP_ENC_PART: i32 = 3;
pub const KEY_USAGE_TGS_REQ_AUTHEN: i32 = 7;
pub const KEY_USAGE_TGS_REP_ENC_PART_SESSION_KEY: i32 = 8;
pub const KEY_USAGE_TGS_REP_ENC_PART_AUTHEN_SUBKEY: i32 = 9;
pub const KEY_USAGE_KERB_NON_KERB_CKSUM_SALT: i32 = 17;

// KDC error codes.
pub const KDC_ERR_C_PRINCIPAL_UNKNOWN: i32 = 6;
pub const KDC_ERR_CLIENT_REVOKED: i32 = 18;
pub const KDC_ERR_KEY_EXPIRED: i32 = 23;
pub const KDC_ERR_PREAUTH_FAILED: i32 = 24;
pub const KDC_ERR_PREAUTH_REQUIRED: i32 = 25;

// PA-DATA types.
pub const PA_TGS_REQ: i32 = 1;
pub const PA_ENC_TIMESTAMP: i32 = 2;
pub const PA_ETYPE_INFO2: i32 = 19;
pub const PA_PAC_REQUEST: i32 = 128;
pub const PA_FOR_USER: i32 = 129;
pub const PA_REQ_ENC_PA_REP: i32 = 149;
pub const PA_AS_FRESHNESS: i32 = 150;
pub const PA_PAC_OPTIONS: i32 = 167;

// Checksum types.
pub const HMAC_MD5: i32 = -138;
pub const HMAC_SHA1_96_AES128: i32 = 15;
pub const HMAC_SHA1_96_AES256: i32 = 16;

// PAC time sentinels and account flags (MS-PAC / MS-SAMR).
pub const NOT_EXPIRE_TIME: u64 = 0x7fffffffffffffff;
pub const NOT_SET_TIME: u64 = 0;
pub const SE_GROUP_MANDATORY: u32 = 0x00000001;
pub const SE_GROUP_ENABLED_BY_DEFAULT: u32 = 0x00000002;
pub const SE_GROUP_ENABLED: u32 = 0x00000004;
pub const USER_NORMAL_ACCOUNT: u32 = 0x00000010;
pub const USER_DONT_EXPIRE_PASSWORD: u32 = 0x00000200;
pub const RID_DOMAIN_USERS: u32 = 513;

// PA-PAC-OPTIONS flag: the request supports resource-based constrained
// delegation (used in the S4U2Proxy prelude).
pub const RESOURCE_BASED_CONSTRAINED_DELEGATION: u32 = 0x10000000;

// KDC option flags for AS-REQ / TGS-REQ.
pub const KDC_OPT_FORWARDABLE: u32 = 0x40000000;
pub const KDC_OPT_RENEWABLE: u32 = 0x00800000;
pub const KDC_OPT_CANONICALIZE: u32 = 0x00010000;
pub const KDC_OPT_RENEWABLE_OK: u32 = 0x10;

} // verus!
