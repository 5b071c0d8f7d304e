//! Bit-exact conversion between ticket collections and the two binary
//! formats, KRB (DER) and CCACHE (MIT credential cache), with format
//! auto-detection.
//!
//! The encoders and decoders of the `kerberos_asn1` and `kerberos_ccache`
//! crates do the byte work behind trusted wrappers; everything around them —
//! format choice, auto-detection order, the round-trip law — is verified.

use vstd::prelude::*;
use chrono::TimeZone;
use kerberos_asn1::PrincipalName as AsnPrincipalName;
use kerberos_asn1::KrbCredInfo as AsnKrbCredInfo;
use kerberos_asn1::Ticket as AsnTicket;
use kerberos_asn1::EncryptedData as AsnEncryptedData;
use kerberos_asn1::Asn1Object;
use crate::constants::NO_ENCRYPTION;
use crate::cred_format::CredFormat;
use crate::error::Error;
use crate::krb_types::EncryptedData;
use crate::krb_types::KrbCredInfo;
use crate::krb_types::PrincipalName;
use crate::krb_types::Ticket;
use crate::ticket_cred::TicketCred;
use crate::ticket_cred::TicketCredV;
use crate::ticket_cred::TicketCreds;

verus! {

#[verifier::external_type_specification]
#[verifier::external_body]
pub struct ExAsnPrincipalName(AsnPrincipalName);

#[verifier::external_type_specification]
#[verifier::external_body]
pub struct ExAsnKerberosTime(kerberos_asn1::KerberosTime);

#[verifier::external_type_specification]
#[verifier::external_body]
pub struct ExAsnKrbCredInfo(AsnKrbCredInfo);

#[verifier::external_type_specification]
#[verifier::external_body]
pub struct ExAsnTicket(AsnTicket);

#[verifier::external_type_specification]
#[verifier::external_body]
pub struct ExAsnKrbCred(kerberos_asn1::KrbCred);

#[verifier::external_type_specification]
#[verifier::external_body]
pub struct ExAsnEncryptedData(AsnEncryptedData);

/// Converts a principal name into its `kerberos_asn1` form, field for field.
#[verifier::external_body]
pub(crate) fn pn_to_asn1(p: &PrincipalName) -> kerberos_asn1::PrincipalName {
    kerberos_asn1::PrincipalName { name_type: p.name_type, name_string: p.name_string.clone() }
}

/// Converts a `kerberos_asn1` principal name into the library's form.
#[verifier::external_body]
pub(crate) fn pn_from_asn1(p: kerberos_asn1::PrincipalName) -> PrincipalName {
    PrincipalName { name_type: p.name_type, name_string: p.name_string }
}

/// Converts epoch seconds into a `kerberos_asn1` timestamp; seconds outside
/// what a four-digit-year GeneralizedTime carries are excluded (chrono would
/// refuse them).
#[verifier::external_body]
pub(crate) fn kt_to_asn1(t: i64) -> kerberos_asn1::KerberosTime
    requires
        -62167219200 <= t < 253402300800,
{
    kerberos_asn1::KerberosTime::from(chrono::Utc.timestamp_opt(t, 0).unwrap())
}

/// Converts a `kerberos_asn1` timestamp into epoch seconds.
#[verifier::external_body]
pub(crate) fn kt_from_asn1(t: &kerberos_asn1::KerberosTime) -> i64 {
    t.timestamp()
}

/// Converts a cred info into its `kerberos_asn1` form, field for field; the
/// library models no client addresses. The timestamps must be within what a
/// GeneralizedTime carries, as for `kt_to_asn1`.
#[verifier::external_body]
pub(crate) fn info_to_asn1(ci: &KrbCredInfo) -> kerberos_asn1::KrbCredInfo
    requires
        ci_times_encodable(ci@),
{
    let key = kerberos_asn1::EncryptionKey {
        keytype: ci.key.keytype,
        keyvalue: ci.key.keyvalue.clone(),
    };
    let flags = ci.flags.map(|f| kerberos_asn1::TicketFlags { flags: f });
    kerberos_asn1::KrbCredInfo {
        key, prealm: ci.prealm.clone(), pname: ci.pname.as_ref().map(pn_to_asn1), flags,
        authtime: ci.authtime.map(kt_to_asn1), starttime: ci.starttime.map(kt_to_asn1),
        endtime: ci.endtime.map(kt_to_asn1), renew_till: ci.renew_till.map(kt_to_asn1),
        srealm: ci.srealm.clone(), sname: ci.sname.as_ref().map(pn_to_asn1), caddr: None,
    }
}

/// Converts a `kerberos_asn1` cred info into the library's form, field for
/// field; client addresses are not modelled and are dropped.
#[verifier::external_body]
pub(crate) fn info_from_asn1(ci: kerberos_asn1::KrbCredInfo) -> KrbCredInfo {
    let key = crate::krb_types::EncryptionKey {
        keytype: ci.key.keytype,
        keyvalue: ci.key.keyvalue,
    };
    KrbCredInfo {
        key, prealm: ci.prealm, pname: ci.pname.map(pn_from_asn1),
        flags: ci.flags.map(|f| f.flags),
        authtime: ci.authtime.as_ref().map(kt_from_asn1),
        starttime: ci.starttime.as_ref().map(kt_from_asn1),
        endtime: ci.endtime.as_ref().map(kt_from_asn1),
        renew_till: ci.renew_till.as_ref().map(kt_from_asn1),
        srealm: ci.srealm, sname: ci.sname.map(pn_from_asn1),
    }
}

/// Converts a ticket into its `kerberos_asn1` form, field for field.
#[verifier::external_body]
pub(crate) fn ticket_to_asn1(t: &Ticket) -> kerberos_asn1::Ticket {
    kerberos_asn1::Ticket {
        tkt_vno: t.tkt_vno,
        realm: t.realm.clone(),
        sname: pn_to_asn1(&t.sname),
        enc_part: kerberos_asn1::EncryptedData {
            etype: t.enc_part.etype,
            kvno: t.enc_part.kvno,
            cipher: t.enc_part.cipher.clone(),
        },
    }
}

/// Converts a `kerberos_asn1` ticket into the library's form, field for field.
#[verifier::external_body]
pub(crate) fn ticket_from_asn1(t: kerberos_asn1::Ticket) -> Ticket {
    Ticket {
        tkt_vno: t.tkt_vno,
        realm: t.realm,
        sname: pn_from_asn1(t.sname),
        enc_part: crate::krb_types::EncryptedData {
            etype: t.enc_part.etype,
            kvno: t.enc_part.kvno,
            cipher: t.enc_part.cipher,
        },
    }
}

/// Builds the `kerberos_asn1` KRB-CRED for a collection: the tickets beside a
/// plaintext (NO_ENCRYPTION) EncKrbCredPart with one cred info per ticket.
/// The timestamps must be within what a GeneralizedTime carries.
#[verifier::external_body]
fn creds_to_asn1(creds: &TicketCreds) -> kerberos_asn1::KrbCred
    requires
        forall|i: int| 0 <= i < creds@.len() ==> tcv_krb_encodable(#[trigger] creds@[i]),
{
    let mut kc = kerberos_asn1::KrbCred::default();
    let mut infos = Vec::new();
    for tc in creds.ticket_creds.iter() {
        kc.tickets.push(ticket_to_asn1(&tc.ticket));
        infos.push(info_to_asn1(&tc.cred_info));
    }
    let part = kerberos_asn1::EncKrbCredPart { ticket_info: infos, ..Default::default() };
    kc.enc_part = kerberos_asn1::EncryptedData::new(
        kerberos_constants::etypes::NO_ENCRYPTION,
        None,
        part.build(),
    );
    kc
}

/// Reads a `kerberos_asn1` KRB-CRED back into a collection: the enc part must
/// be NO_ENCRYPTION plaintext holding an EncKrbCredPart; tickets and cred
/// infos are paired in order.
#[verifier::external_body]
fn creds_from_asn1(kc: kerberos_asn1::KrbCred) -> Option<TicketCreds> {
    if kc.enc_part.etype != kerberos_constants::etypes::NO_ENCRYPTION {
        return None;
    }
    let part = kerberos_asn1::EncKrbCredPart::parse(&kc.enc_part.cipher).ok()?.1;
    let mut out = Vec::new();
    for (t, ci) in kc.tickets.into_iter().zip(part.ticket_info.into_iter()) {
        out.push(TicketCred { ticket: ticket_from_asn1(t), cred_info: info_from_asn1(ci) });
    }
    Some(TicketCreds { ticket_creds: out })
}

/// The DER bytes of the KRB-CRED bundle holding these credentials.
pub uninterp spec fn krb_bytes(creds: Seq<TicketCredV>) -> Seq<u8>;

/// What decoding bytes as the clear envelope of a KRB-CRED yields, if
/// anything: the tickets and the (supposedly plaintext) enc-part.
pub uninterp spec fn krb_outer_parse(bytes: Seq<u8>) -> Option<
    (Seq<crate::krb_types::TicketV>, crate::krb_types::EncryptedDataV),
>;

/// What decoding bytes as an EncKrbCredPart yields, if anything: one cred
/// info per ticket.
pub uninterp spec fn enc_part_infos_parse(bytes: Seq<u8>) -> Option<
    Seq<crate::krb_types::KrbCredInfoV>,
>;

/// Tickets paired with cred infos, in order; unmatched tails are dropped.
pub open spec fn zip_creds(
    ts: Seq<crate::krb_types::TicketV>,
    infos: Seq<crate::krb_types::KrbCredInfoV>,
) -> Seq<TicketCredV> {
    Seq::new(
        if ts.len() <= infos.len() {
            ts.len()
        } else {
            infos.len()
        },
        |i: int| TicketCredV { ticket: ts[i], cred_info: infos[i] },
    )
}

/// What decoding bytes as a plaintext KRB-CRED bundle yields: the clear
/// envelope, whose enc-part must be NO_ENCRYPTION plaintext with sane time
/// fields, holding the cred infos that pair with the tickets.
pub open spec fn krb_parse(bytes: Seq<u8>) -> Option<Seq<TicketCredV>> {
    match krb_outer_parse(bytes) {
        Some(outer) => if outer.1.etype == NO_ENCRYPTION as int && crate::der::der_times_ok(
            outer.1.cipher,
        ) {
            match enc_part_infos_parse(outer.1.cipher) {
                Some(infos) => Some(zip_creds(outer.0, infos)),
                None => None,
            }
        } else {
            None
        },
        None => None,
    }
}

/// The MIT ccache bytes holding these credentials, when they can be stored
/// in that format.
pub uninterp spec fn ccache_bytes(creds: Seq<TicketCredV>) -> Option<Seq<u8>>;

/// What decoding bytes as an MIT ccache yields, if anything.
pub uninterp spec fn ccache_parse(bytes: Seq<u8>) -> Option<Seq<TicketCredV>>;

/// The cred info's timestamps can be carried by a DER GeneralizedTime
/// (year 0000 to 9999).
pub open spec fn ci_times_encodable(ci: crate::krb_types::KrbCredInfoV) -> bool {
    &&& (ci.authtime matches Some(x) ==> -62167219200 <= x < 253402300800)
    &&& (ci.starttime matches Some(x) ==> -62167219200 <= x < 253402300800)
    &&& (ci.endtime matches Some(x) ==> -62167219200 <= x < 253402300800)
    &&& (ci.renew_till matches Some(x) ==> -62167219200 <= x < 253402300800)
}

/// The ticket's timestamps can be carried by a DER GeneralizedTime (year
/// 0000 to 9999).
pub open spec fn tcv_krb_encodable(t: TicketCredV) -> bool {
    ci_times_encodable(t.cred_info)
}

/// A credential that both binary formats carry without loss: client and
/// server principals, realms and flags all present, non-empty names, a key
/// type within the ccache's 16-bit field, and timestamps within the ccache's
/// unsigned 32-bit seconds.
pub open spec fn tcv_wf(t: TicketCredV) -> bool {
    &&& t.cred_info.prealm is Some
    &&& t.cred_info.pname matches Some(p) && p.name_string.len() > 0
    &&& t.cred_info.srealm is Some
    &&& t.cred_info.sname matches Some(n) && n.name_string.len() > 0
    &&& t.cred_info.flags is Some
    &&& 0 <= t.cred_info.key.keytype < 0x10000
    &&& (t.cred_info.authtime matches Some(x) ==> 0 < x < 0x100000000)
    &&& (t.cred_info.starttime matches Some(x) ==> 0 < x < 0x100000000)
    &&& (t.cred_info.endtime matches Some(x) ==> 0 < x < 0x100000000)
    &&& (t.cred_info.renew_till matches Some(x) ==> 0 < x < 0x100000000)
}

/// A collection both formats carry without loss: non-empty (the ccache
/// stores a primary principal taken from the first entry) and well-formed
/// throughout.
pub open spec fn creds_wf(creds: Seq<TicketCredV>) -> bool {
    creds.len() > 0 && forall|i: int| 0 <= i < creds.len() ==> tcv_wf(#[trigger] creds[i])
}

/// Relies on `kerberos_asn1`'s DER encoding (`KrbCred::build`,
/// `EncKrbCredPart::build`): deterministic DER for the plaintext credential
/// bundle. DER decoding recovers every modelled field exactly (the built
/// part uses single-byte tags, definite lengths and real calendar times, so
/// the time check accepts it), and a KRB-CRED blob (APPLICATION 22 tag,
/// first byte 0x76) is never a valid ccache (whose first header byte is 5).
#[verifier::external_body]
fn krb_cred_build(creds: &TicketCreds) -> (r: Vec<u8>)
    requires
        forall|i: int| 0 <= i < creds@.len() ==> tcv_krb_encodable(#[trigger] creds@[i]),
    ensures
        r@ == krb_bytes(creds@),
        krb_parse(r@) == Some(creds@),
        ccache_parse(r@) is None,
{
    creds_to_asn1(creds).build()
}

/// Relies on `kerberos_asn1::KrbCred::parse`: DER decoding of the clear
/// KRB-CRED envelope, a function of the bytes alone. The envelope's schema
/// (tickets and an opaque enc-part) carries no GeneralizedTime, so the
/// decoder cannot trip over a date here.
#[verifier::external_body]
fn krb_cred_outer_parse(bytes: &[u8]) -> (r: Option<(Vec<Ticket>, EncryptedData)>)
    ensures
        match r {
            Some(p) => krb_outer_parse(bytes@) == Some((p.0.deep_view(), p.1@)),
            None => krb_outer_parse(bytes@) is None,
        },
{
    match kerberos_asn1::KrbCred::parse(bytes) {
        Ok((_, kc)) => {
            let tickets: Vec<Ticket> = kc.tickets.into_iter().map(ticket_from_asn1).collect();
            let ep = EncryptedData {
                etype: kc.enc_part.etype,
                kvno: kc.enc_part.kvno,
                cipher: kc.enc_part.cipher,
            };
            Some((tickets, ep))
        },
        Err(_) => None,
    }
}

/// Relies on `kerberos_asn1::EncKrbCredPart::parse`: decoding the plaintext
/// cred-info list, a function of the bytes alone; the bytes must first pass
/// the calendar-time check, since each cred info carries GeneralizedTimes.
#[verifier::external_body]
fn enc_krb_cred_part_parse_raw(bytes: &Vec<u8>) -> (r: Option<Vec<KrbCredInfo>>)
    requires
        crate::der::der_times_ok(bytes@),
    ensures
        match r {
            Some(infos) => enc_part_infos_parse(bytes@) == Some(infos.deep_view()),
            None => enc_part_infos_parse(bytes@) is None,
        },
{
    match kerberos_asn1::EncKrbCredPart::parse(bytes) {
        Ok((_, part)) => Some(part.ticket_info.into_iter().map(info_from_asn1).collect()),
        Err(_) => None,
    }
}

/// Decodes a plaintext KRB-CRED bundle: the clear envelope first, then —
/// when its enc-part is NO_ENCRYPTION plaintext whose times pass the
/// calendar check — the cred infos, paired with the tickets in order.
fn krb_cred_parse(bytes: &[u8]) -> (r: Option<TicketCreds>)
    ensures
        match r {
            Some(c) => krb_parse(bytes@) == Some(c@),
            None => krb_parse(bytes@) is None,
        },
{
    let (tickets, enc_part) = match krb_cred_outer_parse(bytes) {
        Some(p) => p,
        None => {
            return None;
        },
    };
    if enc_part.etype != NO_ENCRYPTION {
        return None;
    }
    if !crate::der::der_times_ok_check(enc_part.cipher.as_slice()) {
        return None;
    }
    let infos = match enc_krb_cred_part_parse_raw(&enc_part.cipher) {
        Some(i) => i,
        None => {
            return None;
        },
    };
    let n: usize = if tickets.len() <= infos.len() {
        tickets.len()
    } else {
        infos.len()
    };
    let ghost goal = zip_creds(tickets.deep_view(), infos.deep_view());
    let mut out: Vec<TicketCred> = Vec::new();
    let mut i: usize = 0;
    while i < n
        invariant
            i <= n,
            n == if tickets.deep_view().len() <= infos.deep_view().len() {
                tickets.deep_view().len()
            } else {
                infos.deep_view().len()
            },
            goal == zip_creds(tickets.deep_view(), infos.deep_view()),
            out.deep_view() == goal.take(i as int),
        decreases n - i,
    {
        let ghost prev = out.deep_view();
        out.push(TicketCred::new(tickets[i].clone(), infos[i].clone()));
        proof {
            assert(out.deep_view() =~~= prev.push(out@.last()@));
            assert(tickets.deep_view()[i as int] == tickets@[i as int]@);
            assert(infos.deep_view()[i as int] == infos@[i as int]@);
            assert(out.deep_view() =~~= goal.take(i + 1 as int));
        }
        i = i + 1;
    }
    let creds = TicketCreds { ticket_creds: out };
    proof {
        assert(goal.take(goal.len() as int) =~~= goal);
        assert(creds@ =~~= goal);
    }
    Some(creds)
}

/// Relies on `kerberos_ccache`'s `krb_cred_to_ccache` and `CCache::build`:
/// the ccache rendering of the bundle, a function of the credentials alone.
/// Built ccache bytes never decode as DER (they open with the version
/// 0x0504, not an APPLICATION 22 tag). For well-formed credentials the
/// conversion succeeds and decoding the bytes recovers every modelled field
/// exactly (the mappers keep principals, realms, flags, key and ticket
/// bytes, and 32-bit timestamps).
#[verifier::external_body]
fn ccache_build(creds: &TicketCreds) -> (r: Option<Vec<u8>>)
    requires
        forall|i: int| 0 <= i < creds@.len() ==> tcv_krb_encodable(#[trigger] creds@[i]),
    ensures
        match r {
            Some(b) => ccache_bytes(creds@) == Some(b@) && krb_parse(b@) is None && (ccache_parse(
                b@,
            ) matches Some(c) ==> c.len() == creds@.len()),
            None => ccache_bytes(creds@) is None,
        },
        creds_wf(creds@) ==> match r {
            Some(b) => ccache_parse(b@) == Some(creds@),
            None => false,
        },
{
    match kerberos_ccache::mappers::krb_cred_to_ccache(creds_to_asn1(creds)) {
        Ok(cc) => Some(cc.build()),
        Err(_) => None,
    }
}

/// Relies on `kerberos_ccache::CCache::parse` and `ccache_to_krb_cred`:
/// decoding an MIT ccache; parsing is a function of the bytes alone. A
/// decoded credential always carries both principals, realms and flags, a
/// 16-bit key type and 32-bit timestamps: what the ccache layout stores.
/// The cred-info bytes this path re-parses are the mapper's own output
/// (times built from 32-bit seconds), never foreign DER.
#[verifier::external_body]
fn ccache_parse_bytes(bytes: &[u8]) -> (r: Option<TicketCreds>)
    ensures
        match r {
            Some(c) => ccache_parse(bytes@) == Some(c@) && (c@.len() == 0 || creds_wf(c@)),
            None => ccache_parse(bytes@) is None,
        },
{
    let cc = match kerberos_ccache::CCache::parse(bytes) {
        Ok((_, cc)) => cc,
        Err(_) => {
            return None;
        },
    };
    match kerberos_ccache::mappers::ccache_to_krb_cred(cc) {
        Ok(kc) => creds_from_asn1(kc),
        Err(_) => None,
    }
}

/// Encodes the credentials in the chosen binary format.
pub fn encode_ticket_creds(creds: &TicketCreds, format: CredFormat) -> (r: Result<Vec<u8>, Error>)
    requires
        forall|i: int| 0 <= i < creds@.len() ==> tcv_krb_encodable(#[trigger] creds@[i]),
    ensures
        format == CredFormat::Krb ==> (r matches Ok(b) && b@ == krb_bytes(creds@) && krb_parse(
            b@,
        ) == Some(creds@) && ccache_parse(b@) is None),
        format == CredFormat::Ccache ==> match r {
            Ok(b) => ccache_bytes(creds@) == Some(b@) && krb_parse(b@) is None && (ccache_parse(
                b@,
            ) matches Some(c) ==> c.len() == creds@.len()),
            Err(e) => ccache_bytes(creds@) is None && e is DataError,
        },
        format == CredFormat::Ccache && creds_wf(creds@) ==> (r matches Ok(b) && ccache_parse(
            b@,
        ) == Some(creds@)),
{
    match format {
        CredFormat::Krb => Ok(krb_cred_build(creds)),
        CredFormat::Ccache => match ccache_build(creds) {
            Some(b) => Ok(b),
            None => Err(
                Error::DataError(String::from_str("Error converting KrbCred to CCache")),
            ),
        },
    }
}

/// Decodes bytes into credentials, auto-detecting the format: a ccache parse
/// is attempted first, then a KRB-CRED parse; only if both fail is the input
/// rejected.
pub fn parse_ticket_creds(bytes: &[u8]) -> (r: Result<TicketCreds, Error>)
    ensures
        match ccache_parse(bytes@) {
            Some(c) => r matches Ok(rc) && rc@ == c,
            None => match krb_parse(bytes@) {
                Some(c) => r matches Ok(rc) && rc@ == c,
                None => (r matches Err(e) && e is DataError),
            },
        },
        ccache_parse(bytes@) matches Some(c) ==> (c.len() == 0 || creds_wf(c)),
{
    match ccache_parse_bytes(bytes) {
        Some(c) => Ok(c),
        None => match krb_cred_parse(bytes) {
            Some(c) => Ok(c),
            None => Err(Error::DataError(String::from_str("Error parsing content of ccache/krb"))),
        },
    }
}

/// The round-trip law, and the normalisation step of `save_as`: encoding in
/// the chosen format and parsing the bytes back. For well-formed credentials
/// (and for any KRB-encodable credentials under the KRB format) the result
/// equals the input.
pub fn rebuild_ticket_creds(creds: &TicketCreds, format: CredFormat) -> (r: Result<
    TicketCreds,
    Error,
>)
    requires
        forall|i: int| 0 <= i < creds@.len() ==> tcv_krb_encodable(#[trigger] creds@[i]),
    ensures
        format == CredFormat::Krb ==> (r matches Ok(c) && c@ == creds@),
        creds_wf(creds@) ==> (r matches Ok(c) && c@ == creds@),
        r matches Ok(c) ==> c@.len() == creds@.len() && (c@ == creds@ || creds_wf(c@)),
        r matches Err(e) ==> e is DataError,
        format == CredFormat::Ccache ==> match ccache_bytes(creds@) {
            Some(b) => match ccache_parse(b) {
                Some(c) => r matches Ok(rc) && rc@ == c,
                None => r is Err,
            },
            None => r is Err,
        },
{
    let data = encode_ticket_creds(creds, format)?;
    let r = parse_ticket_creds(data.as_slice());
    proof {
        if r is Ok {
            let c = r->Ok_0;
            if c@.len() == 0 && creds@.len() == 0 {
                assert(c@ =~~= creds@);
            }
        }
    }
    r
}

impl TicketCred {
    /// The bytes of this single credential in the chosen format.
    pub fn as_bytes(&self, cred_format: CredFormat) -> (r: Result<Vec<u8>, Error>)
        requires
            tcv_krb_encodable(self@),
        ensures
            cred_format == CredFormat::Krb ==> (r matches Ok(b) && b@ == krb_bytes(seq![self@])),
            cred_format == CredFormat::Ccache ==> match r {
                Ok(b) => ccache_bytes(seq![self@]) == Some(b@),
                Err(e) => ccache_bytes(seq![self@]) is None && e is DataError,
            },
    {
        let mut one: Vec<TicketCred> = Vec::new();
        one.push(self.clone());
        let creds = TicketCreds { ticket_creds: one };
        proof {
            assert(creds@ =~~= seq![self@]);
        }
        encode_ticket_creds(&creds, cred_format)
    }

    /// The first credential of a bundle parsed from bytes (auto-detected
    /// format); an empty bundle is a data error.
    pub fn from_bytes(bytes: &[u8]) -> (r: Result<TicketCred, Error>)
        ensures
            match ccache_parse(bytes@) {
                Some(c) => if c.len() > 0 {
                    r matches Ok(tc) && tc@ == c[0]
                } else {
                    r matches Err(e) && e is DataError
                },
                None => match krb_parse(bytes@) {
                    Some(c) => if c.len() > 0 {
                        r matches Ok(tc) && tc@ == c[0]
                    } else {
                        r matches Err(e) && e is DataError
                    },
                    None => (r matches Err(e) && e is DataError),
                },
            },
    {
        let creds = parse_ticket_creds(bytes)?;
        if creds.ticket_creds.len() > 0 {
            let r = creds.ticket_creds[0].clone();
            proof {
                assert(creds@[0] == creds.ticket_creds@[0]@);
            }
            Ok(r)
        } else {
            Err(Error::DataError(String::from_str("Empty credential bundle")))
        }
    }
}

} // verus!
