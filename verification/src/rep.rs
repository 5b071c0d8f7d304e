//! Decoding of KDC replies: a raw response is tried as KRB-ERROR, AS-REP,
//! then TGS-REP; the encrypted parts decrypt under the appropriate
//! key-usage, and what comes out populates a `KrbCredInfo`.

use vstd::prelude::*;
use kerberos_asn1::Asn1Object;
use kerberos_asn1::KrbError as AsnKrbError;
use kerberos_asn1::AsRep as AsnAsRep;
use kerberos_asn1::TgsRep as AsnTgsRep;
use crate::cipher::Cipher;
use crate::codec::tcv_krb_encodable;
use crate::constants::KEY_USAGE_AS_REP_ENC_PART;
use crate::constants::KEY_USAGE_TGS_REP_ENC_PART_SESSION_KEY;
use crate::constants::PA_ETYPE_INFO2;
use crate::error::Error;
use crate::error::KrbErrorMsg;
use crate::forge::PaData;
use crate::krb_types::EncryptedData;
use crate::krb_types::EncryptionKey;
use crate::krb_types::KrbCredInfo;
use crate::krb_types::PrincipalName;
use crate::krb_types::Ticket;
use crate::ticket_cred::TicketCred;

verus! {

#[verifier::external_type_specification]
#[verifier::external_body]
pub struct ExAsnEncKdcRepPart(kerberos_asn1::EncKdcRepPart);

/// What an AS-REP or TGS-REP carries in the clear: the client, the ticket
/// and the encrypted part.
#[derive(Debug)]
pub struct KdcRepData {
    pub crealm: String,
    pub cname: PrincipalName,
    pub ticket: Ticket,
    pub enc_part: EncryptedData,
}

/// The spec-level value of a `KdcRepData`.
pub struct KdcRepDataV {
    pub crealm: Seq<char>,
    pub cname: crate::krb_types::PrincipalNameV,
    pub ticket: crate::krb_types::TicketV,
    pub enc_part: crate::krb_types::EncryptedDataV,
}

impl View for KdcRepData {
    type V = KdcRepDataV;

    open spec fn view(&self) -> KdcRepDataV {
        KdcRepDataV {
            crealm: self.crealm@,
            cname: self.cname@,
            ticket: self.ticket@,
            enc_part: self.enc_part@,
        }
    }
}

/// What the decrypted part of a KDC reply yields: the new session key,
/// flags, lifetimes and the service principal.
#[derive(Debug)]
pub struct EncKdcRepPartData {
    pub key: EncryptionKey,
    pub flags: u32,
    pub authtime: i64,
    pub starttime: Option<i64>,
    pub endtime: i64,
    pub renew_till: Option<i64>,
    pub srealm: String,
    pub sname: PrincipalName,
}

/// One ETYPE-INFO2 entry of a KRB-ERROR's e-data: the etype and the salt
/// the KDC prefers for it.
#[derive(Debug)]
pub struct EtypeInfo2EntryData {
    pub etype: i32,
    pub salt: Option<String>,
}

/// A KDC reply, classified.
pub enum Rep {
    AsRep(KdcRepData),
    TgsRep(KdcRepData),
    KrbError(KrbErrorMsg),
    Raw(Vec<u8>),
}

/// What decoding bytes as a KRB-ERROR yields, if anything.
pub uninterp spec fn krb_error_parse(b: Seq<u8>) -> Option<crate::error::KrbErrorMsgV>;

/// Relies on `kerberos_asn1::KrbError::parse`: decoding a KRB-ERROR, a
/// function of the bytes alone. Its stime/ctime fields are GeneralizedTimes,
/// so the bytes must first pass the calendar-time check.
#[verifier::external_body]
fn parse_krb_error_raw(raw: &Vec<u8>) -> (r: Option<KrbErrorMsg>)
    requires
        crate::der::der_times_ok(raw@),
    ensures
        match r {
            Some(e) => krb_error_parse(raw@) == Some(e@),
            None => krb_error_parse(raw@) is None,
        },
{
    match AsnKrbError::parse(raw) {
        Ok((_, e)) => Some(KrbErrorMsg { error_code: e.error_code, e_data: e.e_data }),
        Err(_) => None,
    }
}

/// What decoding bytes as an AS-REP yields, if anything.
pub uninterp spec fn as_rep_parse(b: Seq<u8>) -> Option<KdcRepDataV>;

/// Relies on `kerberos_asn1::AsRep::parse`: decoding an AS-REP, a function
/// of the bytes alone; its schema carries no GeneralizedTime.
#[verifier::external_body]
fn parse_as_rep_raw(raw: &Vec<u8>) -> (r: Option<KdcRepData>)
    ensures
        match r {
            Some(d) => as_rep_parse(raw@) == Some(d@),
            None => as_rep_parse(raw@) is None,
        },
{
    match AsnAsRep::parse(raw) {
        Ok((_, rep)) => Some(kdc_rep_from_asn1(rep.crealm, rep.cname, rep.ticket, rep.enc_part)),
        Err(_) => None,
    }
}

/// What decoding bytes as a TGS-REP yields, if anything.
pub uninterp spec fn tgs_rep_parse(b: Seq<u8>) -> Option<KdcRepDataV>;

/// Relies on `kerberos_asn1::TgsRep::parse`: decoding a TGS-REP, a function
/// of the bytes alone; its schema carries no GeneralizedTime.
#[verifier::external_body]
fn parse_tgs_rep_raw(raw: &Vec<u8>) -> (r: Option<KdcRepData>)
    ensures
        match r {
            Some(d) => tgs_rep_parse(raw@) == Some(d@),
            None => tgs_rep_parse(raw@) is None,
        },
{
    match AsnTgsRep::parse(raw) {
        Ok((_, rep)) => Some(kdc_rep_from_asn1(rep.crealm, rep.cname, rep.ticket, rep.enc_part)),
        Err(_) => None,
    }
}

/// Classifies a raw KDC reply by attempting, in order: KRB-ERROR, AS-REP,
/// TGS-REP, then raw bytes. A reply whose GeneralizedTime fields do not
/// spell real calendar times is never decoded as a KRB-ERROR.
pub(crate) fn parse_rep(raw: &Vec<u8>) -> (r: Rep)
    ensures
        match r {
            Rep::KrbError(e) => crate::der::der_times_ok(raw@) && krb_error_parse(raw@) == Some(
                e@,
            ),
            Rep::AsRep(d) => (!crate::der::der_times_ok(raw@) || krb_error_parse(raw@) is None)
                && as_rep_parse(raw@) == Some(d@),
            Rep::TgsRep(d) => (!crate::der::der_times_ok(raw@) || krb_error_parse(raw@) is None)
                && as_rep_parse(raw@) is None && tgs_rep_parse(raw@) == Some(d@),
            Rep::Raw(b) => (!crate::der::der_times_ok(raw@) || krb_error_parse(raw@) is None)
                && as_rep_parse(raw@) is None && tgs_rep_parse(raw@) is None && b@ == raw@,
        },
{
    if crate::der::der_times_ok_check(raw.as_slice()) {
        match parse_krb_error_raw(raw) {
            Some(e) => {
                return Rep::KrbError(e);
            },
            None => {},
        }
    }
    match parse_as_rep_raw(raw) {
        Some(d) => {
            return Rep::AsRep(d);
        },
        None => {},
    }
    match parse_tgs_rep_raw(raw) {
        Some(d) => {
            return Rep::TgsRep(d);
        },
        None => {},
    }
    Rep::Raw(crate::krb_types::clone_bytes(raw))
}

/// Converts the clear fields of a KDC reply into the library's form.
#[verifier::external_body]
fn kdc_rep_from_asn1(
    crealm: String,
    cname: kerberos_asn1::PrincipalName,
    ticket: kerberos_asn1::Ticket,
    enc_part: kerberos_asn1::EncryptedData,
) -> KdcRepData {
    KdcRepData {
        crealm,
        cname: crate::codec::pn_from_asn1(cname),
        ticket: crate::codec::ticket_from_asn1(ticket),
        enc_part: EncryptedData {
            etype: enc_part.etype,
            kvno: enc_part.kvno,
            cipher: enc_part.cipher,
        },
    }
}

/// Converts a decoded `kerberos_asn1` EncKdcRepPart into the library's
/// form, field for field.
#[verifier::external_body]
fn enc_part_from_asn1(part: kerberos_asn1::EncKdcRepPart) -> EncKdcRepPartData {
    EncKdcRepPartData {
        key: EncryptionKey { keytype: part.key.keytype, keyvalue: part.key.keyvalue },
        flags: part.flags.flags,
        authtime: crate::codec::kt_from_asn1(&part.authtime),
        starttime: part.starttime.as_ref().map(crate::codec::kt_from_asn1),
        endtime: crate::codec::kt_from_asn1(&part.endtime),
        renew_till: part.renew_till.as_ref().map(crate::codec::kt_from_asn1),
        srealm: part.srealm,
        sname: crate::codec::pn_from_asn1(part.sname),
    }
}

/// Relies on `kerberos_asn1::EncAsRepPart::parse` / `EncTgsRepPart::parse`:
/// decoding the decrypted part of a KDC reply; the bytes must first pass
/// the calendar-time check, since the schema is full of GeneralizedTimes.
/// Parsed timestamps come from four-digit-year GeneralizedTimes, so they
/// lie within that range.
#[verifier::external_body]
fn parse_enc_kdc_rep_part(raw: &Vec<u8>, as_rep: bool) -> (r: Option<EncKdcRepPartData>)
    requires
        crate::der::der_times_ok(raw@),
    ensures
        r matches Some(p) ==> {
            &&& -62167219200 <= p.authtime < 253402300800
            &&& (p.starttime matches Some(x) ==> -62167219200 <= x < 253402300800)
            &&& -62167219200 <= p.endtime < 253402300800
            &&& (p.renew_till matches Some(x) ==> -62167219200 <= x < 253402300800)
        },
{
    let part: kerberos_asn1::EncKdcRepPart = if as_rep {
        kerberos_asn1::EncAsRepPart::parse(raw).ok()?.1.into()
    } else {
        kerberos_asn1::EncTgsRepPart::parse(raw).ok()?.1.into()
    };
    Some(enc_part_from_asn1(part))
}

/// Relies on `kerberos_asn1::PaData::parse`: one PA-DATA from a KRB-ERROR's
/// e-data payload.
#[verifier::external_body]
fn parse_single_padata(raw: &[u8]) -> (r: Option<PaData>) {
    match kerberos_asn1::PaData::parse(raw) {
        Ok((_, pd)) => Some(PaData { padata_type: pd.padata_type, padata_value: pd.padata_value }),
        Err(_) => None,
    }
}

/// Relies on `kerberos_asn1::EtypeInfo2::parse`: the ETYPE-INFO2 entries of
/// a PA-DATA value.
#[verifier::external_body]
fn parse_etype_info2(raw: &Vec<u8>) -> (r: Option<Vec<EtypeInfo2EntryData>>) {
    match kerberos_asn1::EtypeInfo2::parse(raw) {
        Ok((_, entries)) => Some(
            entries.into_iter().map(
                |e| EtypeInfo2EntryData { etype: e.etype, salt: e.salt },
            ).collect(),
        ),
        Err(_) => None,
    }
}

/// The ticket of a KDC reply beside the cred info its decrypted part
/// dictates: the usable session key, flags and lifetimes from the decrypted
/// body, the client from the reply's clear part, and the service principal
/// from the decrypted body.
pub fn cred_info_from_rep_part(rep: KdcRepData, part: EncKdcRepPartData) -> (r: TicketCred)
    ensures
        r.ticket == rep.ticket,
        r.cred_info.key == part.key,
        r.cred_info.prealm matches Some(p) && p@ == rep.crealm@,
        r.cred_info.pname matches Some(p) && p@ == rep.cname@,
        r.cred_info.flags == Some(part.flags),
        r.cred_info.authtime == Some(part.authtime),
        r.cred_info.starttime == part.starttime,
        r.cred_info.endtime == Some(part.endtime),
        r.cred_info.renew_till == part.renew_till,
        r.cred_info.srealm matches Some(p) && p@ == part.srealm@,
        r.cred_info.sname matches Some(p) && p@ == part.sname@,
{
    let cred_info = KrbCredInfo {
        key: part.key,
        prealm: Some(rep.crealm),
        pname: Some(rep.cname),
        flags: Some(part.flags),
        authtime: Some(part.authtime),
        starttime: part.starttime,
        endtime: Some(part.endtime),
        renew_till: part.renew_till,
        srealm: Some(part.srealm),
        sname: Some(part.sname),
    };
    TicketCred::new(rep.ticket, cred_info)
}

/// Decrypts a KDC reply's encrypted part under the given key-usage and
/// populates the credential; the decrypted bytes must decode as the
/// matching EncKdcRepPart.
pub fn extract_ticket(rep: KdcRepData, cipher: &Cipher, key_usage: i32, as_rep: bool) -> (r:
    Result<TicketCred, Error>)
    requires
        crate::cipher::cipher_wf(*cipher),
    ensures
        r matches Ok(tc) ==> {
            &&& tcv_krb_encodable(tc@)
            &&& tc.ticket@ == rep.ticket@
            &&& (tc.cred_info.prealm matches Some(p) && p@ == rep.crealm@)
            &&& (tc.cred_info.pname matches Some(p) && p@ == rep.cname@)
            &&& tc.cred_info.flags is Some
            &&& tc.cred_info.srealm is Some
            &&& tc.cred_info.sname is Some
        },
        r matches Err(e) ==> (e is CryptoError || e is DataError),
{
    let plain = cipher.decrypt(key_usage, &rep.enc_part.cipher)?;
    if !crate::der::der_times_ok_check(plain.as_slice()) {
        return Err(Error::DataError(String::from_str("Error parsing EncKdcRepPart")));
    }
    match parse_enc_kdc_rep_part(&plain, as_rep) {
        Some(part) => Ok(cred_info_from_rep_part(rep, part)),
        None => Err(Error::DataError(String::from_str("Error parsing EncKdcRepPart"))),
    }
}

/// The credential an AS-REP carries, decrypted under key-usage 3 with the
/// client's key.
pub fn extract_krb_cred_from_as_rep(rep: KdcRepData, cipher: &Cipher) -> (r: Result<
    TicketCred,
    Error,
>)
    requires
        crate::cipher::cipher_wf(*cipher),
    ensures
        r matches Ok(tc) ==> {
            &&& tcv_krb_encodable(tc@)
            &&& tc.ticket@ == rep.ticket@
            &&& (tc.cred_info.prealm matches Some(p) && p@ == rep.crealm@)
            &&& (tc.cred_info.pname matches Some(p) && p@ == rep.cname@)
            &&& tc.cred_info.flags is Some
            &&& tc.cred_info.srealm is Some
            &&& tc.cred_info.sname is Some
        },
        r matches Err(e) ==> (e is CryptoError || e is DataError),
{
    extract_ticket(rep, cipher, KEY_USAGE_AS_REP_ENC_PART, true)
}

/// The credential a TGS-REP carries, decrypted under key-usage 8 with the
/// TGS session key.
pub fn extract_ticket_from_tgs_rep(rep: KdcRepData, cipher: &Cipher) -> (r: Result<
    TicketCred,
    Error,
>)
    requires
        crate::cipher::cipher_wf(*cipher),
    ensures
        r matches Ok(tc) ==> {
            &&& tcv_krb_encodable(tc@)
            &&& tc.ticket@ == rep.ticket@
            &&& (tc.cred_info.prealm matches Some(p) && p@ == rep.crealm@)
            &&& (tc.cred_info.pname matches Some(p) && p@ == rep.cname@)
            &&& tc.cred_info.flags is Some
            &&& tc.cred_info.srealm is Some
            &&& tc.cred_info.sname is Some
        },
        r matches Err(e) ==> (e is CryptoError || e is DataError),
{
    extract_ticket(rep, cipher, KEY_USAGE_TGS_REP_ENC_PART_SESSION_KEY, false)
}

/// What a KRB-ERROR's e-data says about salts.
pub enum SaltHint {
    /// An ETYPE-INFO2 was present; the KDC's preferred salt (empty when no
    /// entry carried one).
    Salt(Vec<u8>),
    /// No e-data, or a PA-DATA of another type: nothing to recover from.
    NotPresent,
    /// e-data was present but did not decode as PA-DATA or ETYPE-INFO2.
    Malformed,
}

/// The ETYPE-INFO2 salt hint of a KRB-ERROR: its e-data, with the two-byte
/// DER wrapping skipped, decoded as a PA-DATA of type 19 whose value lists
/// ETYPE-INFO2 entries; the first salt wins. Without e-data there is
/// nothing to recover from; a hint is only ever found inside present e-data.
pub fn etype_info2_salt(e: &KrbErrorMsg) -> (r: SaltHint)
    ensures
        e.e_data is None ==> r is NotPresent,
        r is Salt ==> e.e_data is Some,
        r is Malformed ==> e.e_data is Some,
{
    let data = match &e.e_data {
        Some(d) => d,
        None => {
            return SaltHint::NotPresent;
        },
    };
    if data.len() < 2 {
        return SaltHint::Malformed;
    }
    let pd = match parse_single_padata(data.as_slice().split_at(2).1) {
        Some(pd) => pd,
        None => {
            return SaltHint::Malformed;
        },
    };
    if pd.padata_type != PA_ETYPE_INFO2 {
        return SaltHint::NotPresent;
    }
    let entries = match parse_etype_info2(&pd.padata_value) {
        Some(es) => es,
        None => {
            return SaltHint::Malformed;
        },
    };
    let mut salt: Vec<u8> = Vec::new();
    let mut i: usize = 0;
    while i < entries.len()
        invariant
            i <= entries@.len(),
            e.e_data is Some,
        decreases entries@.len() - i,
    {
        match &entries[i].salt {
            Some(s) => {
                let mut out: Vec<u8> = Vec::new();
                crate::forge::push_bytes(&mut out, s.as_str().as_bytes());
                return SaltHint::Salt(out);
            },
            None => {},
        }
        i = i + 1;
    }
    SaltHint::Salt(salt)
}

} // verus!
