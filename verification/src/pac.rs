//! PAC synthesis for forged tickets: the LOGON_INFO is populated by
//! verified code, the MS-PAC serialization is `ms_pac`'s behind trusted
//! wrappers, and the double signature (server, then privsrv over the server
//! signature) is computed with named deterministic checksums — PAC signing
//! is a pure function of its inputs.

use vstd::prelude::*;
use crate::cipher::Cipher;
use crate::cipher::checksum_of;
use crate::cipher::cipher_wf;
use crate::constants::KEY_USAGE_KERB_NON_KERB_CKSUM_SALT;
use crate::constants::NOT_EXPIRE_TIME;
use crate::constants::NOT_SET_TIME;
use crate::constants::RID_DOMAIN_USERS;
use crate::constants::SE_GROUP_ENABLED;
use crate::constants::SE_GROUP_ENABLED_BY_DEFAULT;
use crate::constants::SE_GROUP_MANDATORY;
use crate::constants::USER_DONT_EXPIRE_PASSWORD;
use crate::constants::USER_NORMAL_ACCOUNT;
use crate::error::Error;
use crate::text::upper_chars;
use crate::text::to_fold_upper;

verus! {

#[verifier::external_type_specification]
#[verifier::external_body]
pub struct ExPacType(ms_pac::PACTYPE);

#[verifier::external_type_specification]
#[verifier::external_body]
pub struct ExKerbValidationInfo(ms_pac::KERB_VALIDATION_INFO);

/// The LOGON_INFO (KERB_VALIDATION_INFO) fields a forged PAC carries.
#[derive(Debug)]
pub struct ValidationInfo {
    pub logon_time: u64,
    pub logoff_time: u64,
    pub kickoff_time: u64,
    pub password_last_set: u64,
    pub password_can_change: u64,
    pub password_must_change: u64,
    pub effective_name: String,
    pub logon_count: u16,
    pub bad_password_count: u16,
    pub user_rid: u32,
    pub primary_group_rid: u32,
    pub logon_domain_name: String,
    pub user_account_control: u32,
    pub groups: Vec<(u32, u32)>,
}

/// The spec-level value of a `ValidationInfo`.
pub struct ValidationInfoV {
    pub logon_time: u64,
    pub logoff_time: u64,
    pub kickoff_time: u64,
    pub password_last_set: u64,
    pub password_can_change: u64,
    pub password_must_change: u64,
    pub effective_name: Seq<char>,
    pub logon_count: u16,
    pub bad_password_count: u16,
    pub user_rid: u32,
    pub primary_group_rid: u32,
    pub logon_domain_name: Seq<char>,
    pub user_account_control: u32,
    pub groups: Seq<(u32, u32)>,
}

impl View for ValidationInfo {
    type V = ValidationInfoV;

    open spec fn view(&self) -> ValidationInfoV {
        ValidationInfoV {
            logon_time: self.logon_time,
            logoff_time: self.logoff_time,
            kickoff_time: self.kickoff_time,
            password_last_set: self.password_last_set,
            password_can_change: self.password_can_change,
            password_must_change: self.password_must_change,
            effective_name: self.effective_name@,
            logon_count: self.logon_count,
            bad_password_count: self.bad_password_count,
            user_rid: self.user_rid,
            primary_group_rid: self.primary_group_rid,
            logon_domain_name: self.logon_domain_name@,
            user_account_control: self.user_account_control,
            groups: self.groups@,
        }
    }
}

/// The LOGON_INFO of a forged ticket: primary group Domain Users (513), a
/// normal never-expiring account, the domain name in upper case, every group
/// membership flagged mandatory/enabled/enabled-by-default, logon and
/// password-last-set at the supplied logon time, and the never-expires /
/// not-set time sentinels.
pub fn new_kerb_validation_info(
    username: &str,
    user_rid: u32,
    domain: &str,
    groups: &Vec<u32>,
    logon_time: u64,
) -> (r: ValidationInfo)
    ensures
        r@.logon_time == logon_time,
        r@.logoff_time == NOT_EXPIRE_TIME,
        r@.kickoff_time == NOT_EXPIRE_TIME,
        r@.password_last_set == logon_time,
        r@.password_can_change == NOT_SET_TIME,
        r@.password_must_change == NOT_EXPIRE_TIME,
        r@.effective_name == username@,
        r@.logon_count == 500,
        r@.bad_password_count == 0,
        r@.user_rid == user_rid,
        r@.primary_group_rid == RID_DOMAIN_USERS,
        r@.logon_domain_name == upper_chars(domain@),
        r@.user_account_control == USER_NORMAL_ACCOUNT | USER_DONT_EXPIRE_PASSWORD,
        r@.groups.len() == groups@.len(),
        forall|i: int|
            0 <= i < groups@.len() ==> r@.groups[i] == (
            groups@[i],
            (SE_GROUP_MANDATORY | SE_GROUP_ENABLED | SE_GROUP_ENABLED_BY_DEFAULT) as u32,
            ),
{
    let mut group_ids: Vec<(u32, u32)> = Vec::new();
    let mut i: usize = 0;
    while i < groups.len()
        invariant
            i <= groups@.len(),
            group_ids@.len() == i,
            forall|j: int|
                0 <= j < i ==> group_ids@[j] == (
                groups@[j],
                (SE_GROUP_MANDATORY | SE_GROUP_ENABLED | SE_GROUP_ENABLED_BY_DEFAULT) as u32,
                ),
        decreases groups@.len() - i,
    {
        group_ids.push((groups[i], SE_GROUP_MANDATORY | SE_GROUP_ENABLED
            | SE_GROUP_ENABLED_BY_DEFAULT));
        i = i + 1;
    }
    ValidationInfo {
        logon_time,
        logoff_time: NOT_EXPIRE_TIME,
        kickoff_time: NOT_EXPIRE_TIME,
        password_last_set: logon_time,
        password_can_change: NOT_SET_TIME,
        password_must_change: NOT_EXPIRE_TIME,
        effective_name: username.to_owned(),
        logon_count: 500,
        bad_password_count: 0,
        user_rid,
        primary_group_rid: RID_DOMAIN_USERS,
        logon_domain_name: to_fold_upper(domain),
        user_account_control: USER_NORMAL_ACCOUNT | USER_DONT_EXPIRE_PASSWORD,
        groups: group_ids,
    }
}

/// The `ms_pac` KERB_VALIDATION_INFO with this LOGON_INFO's fields, moved
/// one for one.
#[verifier::external_body]
fn kvi_new(info: &ValidationInfo) -> ms_pac::KERB_VALIDATION_INFO {
    let mut kvi = ms_pac::KERB_VALIDATION_INFO::default();
    kvi.LogonTime = info.logon_time.into();
    kvi.LogoffTime = info.logoff_time.into();
    kvi.KickOffTime = info.kickoff_time.into();
    kvi.PasswordLastSet = info.password_last_set.into();
    kvi.PasswordCanChange = info.password_can_change.into();
    kvi.PasswordMustChange = info.password_must_change.into();
    kvi.EfectiveName = info.effective_name.as_str().into();
    kvi
}

/// The remaining LOGON_INFO fields and the group memberships, moved one for
/// one.
#[verifier::external_body]
fn kvi_fill(kvi: &mut ms_pac::KERB_VALIDATION_INFO, info: &ValidationInfo) {
    kvi.LogonCount = info.logon_count;
    kvi.BadPasswordCount = info.bad_password_count;
    kvi.UserId = info.user_rid;
    kvi.PrimaryGroupId = info.primary_group_rid;
    kvi.LogonDomainName = info.logon_domain_name.as_str().into();
    kvi.UserAccountControl = info.user_account_control;
    for g in info.groups.iter() {
        kvi.GroupIds.push(ms_pac::GROUP_MEMBERSHIP::new(g.0, g.1));
    }
}

/// Builds the `ms_pac` PACTYPE holding the four buffers of a forged PAC:
/// LOGON_INFO, CLIENT_INFO, and zero-filled server and privsrv checksum
/// slots of the type's size; fails only on an unparsable domain SID.
#[verifier::external_body]
fn pactype_new(
    info: &ValidationInfo,
    domain_sid: &str,
    checksum_type: i32,
) -> Option<ms_pac::PACTYPE> {
    let mut kvi = kvi_new(info);
    kvi_fill(&mut kvi, info);
    kvi.LogonDomainId = ms_pac::PISID::try_from(domain_sid).ok()?;
    let client = ms_pac::PAC_CLIENT_INFO::new(info.logon_time.into(), info.effective_name.as_str());
    Some(ms_pac::PACTYPE::from(vec![
        ms_pac::PAC_INFO_BUFFER::LOGON_INFO(kvi),
        ms_pac::PAC_INFO_BUFFER::CLIENT_INFO(client),
        ms_pac::PAC_INFO_BUFFER::SERVER_CHECKSUM(ms_pac::PAC_SIGNATURE_DATA::new_empty(checksum_type)),
        ms_pac::PAC_INFO_BUFFER::PRIVSRV_CHECKSUM(ms_pac::PAC_SIGNATURE_DATA::new_empty(checksum_type)),
    ]))
}

/// Whether `ms_dtyp`'s SID reader accepts the string: the one failure of
/// PAC construction, a function of the string alone.
pub uninterp spec fn sid_parses(s: Seq<char>) -> bool;

/// The serialized PAC with zero-filled checksum slots.
pub uninterp spec fn unsigned_pac_bytes(
    info: ValidationInfoV,
    domain_sid: Seq<char>,
    checksum_type: int,
) -> Option<Seq<u8>>;

/// Relies on `ms_pac::PACTYPE::build` and `PISID::try_from`: the MS-PAC
/// serialization of the four buffers with placeholder checksums, a function
/// of the fields alone; it fails exactly on an unparsable domain SID.
#[verifier::external_body]
fn unsigned_pac_build(info: &ValidationInfo, domain_sid: &str, checksum_type: i32) -> (r: Option<
    Vec<u8>,
>)
    ensures
        match r {
            Some(b) => unsigned_pac_bytes(info@, domain_sid@, checksum_type as int) == Some(b@),
            None => unsigned_pac_bytes(info@, domain_sid@, checksum_type as int) is None,
        },
        r is Some <==> sid_parses(domain_sid@),
{
    Some(pactype_new(info, domain_sid, checksum_type)?.build())
}

/// The serialized PAC with the two given signatures in place.
pub uninterp spec fn signed_pac_bytes(
    info: ValidationInfoV,
    domain_sid: Seq<char>,
    checksum_type: int,
    server_sig: Seq<u8>,
    privsrv_sig: Seq<u8>,
) -> Option<Seq<u8>>;

/// Relies on `ms_pac::PACTYPE::build` and the checksum-slot accessors: the
/// same serialization with the placeholders overwritten by the given
/// signatures, a function of the fields and signatures alone.
#[verifier::external_body]
fn signed_pac_build(
    info: &ValidationInfo,
    domain_sid: &str,
    checksum_type: i32,
    server_sig: &Vec<u8>,
    privsrv_sig: &Vec<u8>,
) -> (r: Option<Vec<u8>>)
    ensures
        match r {
            Some(b) => signed_pac_bytes(
                info@,
                domain_sid@,
                checksum_type as int,
                server_sig@,
                privsrv_sig@,
            ) == Some(b@),
            None => signed_pac_bytes(
                info@,
                domain_sid@,
                checksum_type as int,
                server_sig@,
                privsrv_sig@,
            ) is None,
        },
        r is Some <==> sid_parses(domain_sid@),
{
    let mut pactype = pactype_new(info, domain_sid, checksum_type)?;
    pactype.server_checksum_mut()?.Signature = server_sig.clone();
    pactype.privsrv_checksum_mut()?.Signature = privsrv_sig.clone();
    Some(pactype.build())
}

/// A fully signed PAC. The order of operations is fixed: serialize with
/// zero-filled checksum slots, compute the server checksum over the whole
/// serialization under key-usage 17, compute the privsrv (KDC) checksum
/// over the server checksum bytes, then overwrite the placeholders. Every
/// step is a pure function of the inputs, so two invocations with identical
/// arguments produce byte-identical output; the only failure is an
/// unparsable domain SID.
pub fn new_signed_pac(info: &ValidationInfo, domain_sid: &str, cipher: &Cipher) -> (r: Result<
    Vec<u8>,
    Error,
>)
    requires
        cipher_wf(*cipher),
    ensures
        r matches Ok(b) ==> {
            let cks_type = crate::cipher::checksum_kind(cipher.etype as int);
            let unsigned = unsigned_pac_bytes(info@, domain_sid@, cks_type)->Some_0;
            let server_sig = checksum_of(
                cipher.etype as int,
                cipher.key@,
                KEY_USAGE_KERB_NON_KERB_CKSUM_SALT as int,
                unsigned,
            );
            let privsrv_sig = checksum_of(
                cipher.etype as int,
                cipher.key@,
                KEY_USAGE_KERB_NON_KERB_CKSUM_SALT as int,
                server_sig,
            );
            &&& sid_parses(domain_sid@)
            &&& unsigned_pac_bytes(info@, domain_sid@, cks_type) is Some
            &&& Some(b@) == signed_pac_bytes(
                info@,
                domain_sid@,
                cks_type,
                server_sig,
                privsrv_sig,
            )
        },
        r is Ok <==> sid_parses(domain_sid@),
        r matches Err(e) ==> e is DataError,
{
    let checksum_type = cipher.checksum_type();
    let unsigned = match unsigned_pac_build(info, domain_sid, checksum_type) {
        Some(b) => b,
        None => {
            return Err(Error::DataError(String::from_str("Unparsable domain SID")));
        },
    };
    let server_sig = cipher.checksum(KEY_USAGE_KERB_NON_KERB_CKSUM_SALT, &unsigned);
    let privsrv_sig = cipher.checksum(KEY_USAGE_KERB_NON_KERB_CKSUM_SALT, &server_sig);
    match signed_pac_build(info, domain_sid, checksum_type, &server_sig, &privsrv_sig) {
        Some(b) => Ok(b),
        None => Err(Error::DataError(String::from_str("Unparsable domain SID"))),
    }
}

} // verus!
