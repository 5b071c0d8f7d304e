//! Construction of Kerberos requests: PA-DATA entries (encrypted timestamp,
//! PA-FOR-USER, PA-PAC-OPTIONS, the AP-REQ of a TGS exchange) and the
//! AS-REQ / TGS-REQ skeletons. The DER rendering is `kerberos_asn1`'s,
//! behind trusted wrappers; which fields and checksums go in is verified.

use vstd::prelude::*;
use kerberos_asn1::Asn1Object;
use kerberos_asn1::KdcReqBody as AsnKdcReqBody;
use crate::cipher::Cipher;
use crate::cipher::hmac_md5_of;
use crate::constants::HMAC_MD5;
use crate::constants::KDC_OPT_CANONICALIZE;
use crate::constants::KDC_OPT_FORWARDABLE;
use crate::constants::KDC_OPT_RENEWABLE;
use crate::constants::KDC_OPT_RENEWABLE_OK;
use crate::constants::KEY_USAGE_AS_REQ_TIMESTAMP;
use crate::constants::KEY_USAGE_KERB_NON_KERB_CKSUM_SALT;
use crate::constants::KEY_USAGE_TGS_REQ_AUTHEN;
use crate::constants::PA_AS_FRESHNESS;
use crate::constants::PA_ENC_TIMESTAMP;
use crate::constants::PA_FOR_USER;
use crate::constants::PA_PAC_OPTIONS;
use crate::constants::PA_REQ_ENC_PA_REP;
use crate::constants::PA_TGS_REQ;
use crate::krb_types::PrincipalName;
use crate::krb_types::PrincipalNameV;
use crate::krb_types::Ticket;
use crate::krb_types::TicketV;
use crate::krb_types::nt_principal_v;
use crate::krb_types::new_nt_principal;
use crate::krb_user::KrbUser;

verus! {

#[verifier::external_type_specification]
#[verifier::external_body]
pub struct ExAsnKdcReqBody(AsnKdcReqBody);

/// (*PA-DATA*) One pre-authentication entry: its type number and its
/// DER-encoded value.
#[derive(Debug)]
pub struct PaData {
    pub padata_type: i32,
    pub padata_value: Vec<u8>,
}

impl PaData {
    pub fn new(padata_type: i32, padata_value: Vec<u8>) -> (r: Self)
        ensures
            r.padata_type == padata_type,
            r.padata_value == padata_value,
    {
        Self { padata_type, padata_value }
    }
}

/// The S4U selector that parameterises TGS-REQ construction: a plain
/// request, S4U2Self towards an impersonated user, or S4U2Proxy with an
/// evidence ticket.
pub enum S4u {
    Regular(PrincipalName),
    S4u2self(KrbUser, Option<String>),
    S4u2proxy(Ticket, String),
}

/// Appends all of `b`.
pub fn push_bytes(out: &mut Vec<u8>, b: &[u8])
    ensures
        final(out)@ == old(out)@ + b@,
{
    let mut i: usize = 0;
    while i < b.len()
        invariant
            i <= b@.len(),
            out@ == old(out)@ + b@.take(i as int),
        decreases b@.len() - i,
    {
        out.push(b[i]);
        proof {
            assert(old(out)@ + b@.take(i + 1 as int) =~= (old(out)@ + b@.take(i as int)).push(
                b@[i as int],
            ));
        }
        i = i + 1;
    }
    proof {
        assert(b@.take(b@.len() as int) =~= b@);
        assert(out@ =~= old(out)@ + b@);
    }
}

/// A PA-DATA that asks for an encrypted PA reply.
pub fn new_pa_req_enc_pa_rep() -> (r: PaData)
    ensures
        r.padata_type == PA_REQ_ENC_PA_REP,
        r.padata_value@ == Seq::<u8>::empty(),
{
    let r = PaData::new(PA_REQ_ENC_PA_REP, Vec::new());
    proof {
        assert(r.padata_value@ =~= Seq::<u8>::empty());
    }
    r
}

/// A PA-DATA that signals AS freshness support.
pub fn new_pa_as_freshness() -> (r: PaData)
    ensures
        r.padata_type == PA_AS_FRESHNESS,
        r.padata_value@ == Seq::<u8>::empty(),
{
    let r = PaData::new(PA_AS_FRESHNESS, Vec::new());
    proof {
        assert(r.padata_value@ =~= Seq::<u8>::empty());
    }
    r
}

/// Relies on `chrono::Utc::now` and `kerberos_asn1::PaEncTsEnc::build`: the
/// DER of the current UTC time. The value depends on the clock, so nothing
/// is promised of the bytes.
#[verifier::external_body]
fn now_timestamp_bytes() -> (r: Vec<u8>) {
    kerberos_asn1::PaEncTsEnc::from(chrono::Utc::now()).build()
}

/// The DER of an *EncryptedData* with these fields.
pub uninterp spec fn enc_data_der(etype: int, kvno: Option<u32>, cipher: Seq<u8>) -> Seq<u8>;

/// Relies on `kerberos_asn1::EncryptedData::build`: deterministic DER of
/// the given fields.
#[verifier::external_body]
fn encrypted_data_build(etype: i32, kvno: Option<u32>, cipher: &Vec<u8>) -> (r: Vec<u8>)
    ensures
        r@ == enc_data_der(etype as int, kvno, cipher@),
{
    kerberos_asn1::EncryptedData::new(etype, kvno, cipher.clone()).build()
}

/// PA-ENC-TIMESTAMP: the current UTC time encrypted under key-usage 1
/// (AS-REQ pre-authentication) with the client's cipher.
pub fn new_pa_data_encrypted_timestamp(cipher: &Cipher) -> (r: PaData)
    requires
        crate::cipher::cipher_wf(*cipher),
    ensures
        r.padata_type == PA_ENC_TIMESTAMP,
        exists|ct: Seq<u8>| r.padata_value@ == enc_data_der(cipher.etype as int, None, ct),
{
    let ts = now_timestamp_bytes();
    let encrypted = cipher.encrypt(KEY_USAGE_AS_REQ_TIMESTAMP, &ts);
    let value = encrypted_data_build(cipher.etype(), None, &encrypted);
    proof {
        assert(value@ == enc_data_der(cipher.etype as int, None, encrypted@));
    }
    PaData::new(PA_ENC_TIMESTAMP, value)
}

/// The checksum input of PA-FOR-USER: the little-endian NT-PRINCIPAL name
/// type (1), then the UTF-8 bytes of the name, the realm and the auth
/// package string.
pub open spec fn pa_for_user_ck_input(name: Seq<char>, realm: Seq<char>) -> Seq<u8> {
    seq![1u8, 0u8, 0u8, 0u8] + vstd::utf8::encode_utf8(name) + vstd::utf8::encode_utf8(realm)
        + vstd::utf8::encode_utf8("Kerberos"@)
}

/// The DER of a *PA-FOR-USER* with these fields.
pub uninterp spec fn pa_for_user_der(
    username: PrincipalNameV,
    userrealm: Seq<char>,
    cksumtype: int,
    cksum: Seq<u8>,
    auth_package: Seq<char>,
) -> Seq<u8>;

/// Relies on `kerberos_asn1::PaForUser::build`: deterministic DER of the
/// given fields.
#[verifier::external_body]
fn pa_for_user_build(
    username: &PrincipalName,
    userrealm: &String,
    cksumtype: i32,
    cksum: &Vec<u8>,
    auth_package: &str,
) -> (r: Vec<u8>)
    ensures
        r@ == pa_for_user_der(username@, userrealm@, cksumtype as int, cksum@, auth_package@),
{
    let pfu = kerberos_asn1::PaForUser {
        username: crate::codec::pn_to_asn1(username),
        userrealm: userrealm.clone(),
        cksum: kerberos_asn1::Checksum { cksumtype, checksum: cksum.clone() },
        auth_package: auth_package.to_string(),
    };
    pfu.build()
}

/// PA-FOR-USER (S4U2Self): the impersonated principal's NT name, realm and
/// the literal auth package `Kerberos`. Its checksum is HMAC-MD5 under
/// key-usage 17 whatever the session key's etype — the security-critical
/// detail of the extension.
pub fn new_pa_data_pa_for_user(impersonate_user: &KrbUser, cipher: &Cipher) -> (r: PaData)
    ensures
        r.padata_type == PA_FOR_USER,
        r.padata_value@ == pa_for_user_der(
            nt_principal_v(impersonate_user.name@),
            impersonate_user.realm@,
            HMAC_MD5 as int,
            hmac_md5_of(
                cipher.key@,
                KEY_USAGE_KERB_NON_KERB_CKSUM_SALT as int,
                pa_for_user_ck_input(impersonate_user.name@, impersonate_user.realm@),
            ),
            "Kerberos"@,
        ),
{
    let username = new_nt_principal(impersonate_user.name.as_str());
    let mut ck: Vec<u8> = Vec::new();
    ck.push(1);
    ck.push(0);
    ck.push(0);
    ck.push(0);
    push_bytes(&mut ck, impersonate_user.name.as_str().as_bytes());
    push_bytes(&mut ck, impersonate_user.realm.as_str().as_bytes());
    push_bytes(&mut ck, "Kerberos".as_bytes());
    proof {
        assert(ck@ =~= pa_for_user_ck_input(impersonate_user.name@, impersonate_user.realm@));
        assert(username@.name_string =~~= nt_principal_v(impersonate_user.name@).name_string);
        assert(username@ == nt_principal_v(impersonate_user.name@));
    }
    let cksum = cipher.checksum_hmac_md5(KEY_USAGE_KERB_NON_KERB_CKSUM_SALT, &ck);
    let value = pa_for_user_build(&username, &impersonate_user.realm, HMAC_MD5, &cksum, "Kerberos");
    PaData::new(PA_FOR_USER, value)
}

/// The DER of a *PA-PAC-OPTIONS* with these flag bits.
pub uninterp spec fn pa_pac_options_der(flags: u32) -> Seq<u8>;

/// Relies on `kerberos_asn1::PaPacOptions::build`: deterministic DER of the
/// given flag bits.
#[verifier::external_body]
fn pa_pac_options_build(flags: u32) -> (r: Vec<u8>)
    ensures
        r@ == pa_pac_options_der(flags),
{
    kerberos_asn1::PaPacOptions { kerberos_flags: kerberos_asn1::KerberosFlags { flags } }.build()
}

/// PA-PAC-OPTIONS: a 32-bit flags field passed through as kerberos flags.
pub fn new_pa_data_pac_options(pac_options: u32) -> (r: PaData)
    ensures
        r.padata_type == PA_PAC_OPTIONS,
        r.padata_value@ == pa_pac_options_der(pac_options),
{
    PaData::new(PA_PAC_OPTIONS, pa_pac_options_build(pac_options))
}

/// Relies on `kerberos_asn1::Authenticator::build`: the DER of an
/// authenticator for this client. Its default fields embed the current
/// time, so nothing is promised of the bytes.
#[verifier::external_body]
fn authenticator_build(crealm: &String, cname: &PrincipalName) -> (r: Vec<u8>)
    ensures
        r@.len() >= 0,
{
    let authenticator = kerberos_asn1::Authenticator {
        crealm: crealm.clone(),
        cname: crate::codec::pn_to_asn1(cname),
        ..Default::default()
    };
    authenticator.build()
}

/// The DER of an *AP-REQ* carrying this ticket and encrypted authenticator.
pub uninterp spec fn ap_req_der(ticket: TicketV, etype: int, enc_authenticator: Seq<u8>) -> Seq<u8>;

/// Relies on `kerberos_asn1::ApReq::build`: deterministic DER of the given
/// ticket and encrypted authenticator.
#[verifier::external_body]
fn ap_req_build(ticket: &Ticket, etype: i32, enc_authenticator: &Vec<u8>) -> (r: Vec<u8>)
    ensures
        r@ == ap_req_der(ticket@, etype as int, enc_authenticator@),
{
    let ap_req = kerberos_asn1::ApReq {
        ticket: crate::codec::ticket_to_asn1(ticket),
        authenticator: kerberos_asn1::EncryptedData {
            etype,
            kvno: None,
            cipher: enc_authenticator.clone(),
        },
        ..Default::default()
    };
    ap_req.build()
}

/// PA-TGS-REQ: an AP-REQ whose authenticator is encrypted under key-usage 7
/// with the TGT's session key.
pub fn new_pa_data_ap_req(user: &KrbUser, ticket: &Ticket, cipher: &Cipher) -> (r: PaData)
    requires
        crate::cipher::cipher_wf(*cipher),
    ensures
        r.padata_type == PA_TGS_REQ,
        exists|auth: Seq<u8>| r.padata_value@ == ap_req_der(ticket@, cipher.etype as int, auth),
{
    let cname = new_nt_principal(user.name.as_str());
    let authenticator = authenticator_build(&user.realm, &cname);
    let encrypted = cipher.encrypt(KEY_USAGE_TGS_REQ_AUTHEN, &authenticator);
    let value = ap_req_build(ticket, cipher.etype(), &encrypted);
    proof {
        assert(value@ == ap_req_der(ticket@, cipher.etype as int, encrypted@));
    }
    PaData::new(PA_TGS_REQ, value)
}

/// The fields of an AS-REQ or TGS-REQ the library chooses.
pub struct KdcReqData {
    pub kdc_options: u32,
    pub cname: Option<PrincipalName>,
    pub realm: String,
    pub sname: Option<PrincipalName>,
    pub till: i64,
    pub nonce: u32,
    pub etypes: Vec<i32>,
    pub padatas: Vec<PaData>,
    pub additional_tickets: Vec<Ticket>,
}

/// The `kerberos_asn1` KdcReqBody with these fields, moved one for one; the
/// till timestamp must be within what a GeneralizedTime carries, as for
/// `kt_to_asn1`.
#[verifier::external_body]
fn kdc_req_body_new(req: &KdcReqData) -> kerberos_asn1::KdcReqBody
    requires
        -62167219200 <= req.till < 253402300800,
{
    let mut body = kerberos_asn1::KdcReqBody::default();
    body.kdc_options = kerberos_asn1::KerberosFlags { flags: req.kdc_options };
    body.cname = req.cname.as_ref().map(crate::codec::pn_to_asn1);
    body.realm = req.realm.clone();
    body.sname = req.sname.as_ref().map(crate::codec::pn_to_asn1);
    body.till = crate::codec::kt_to_asn1(req.till);
    body.nonce = req.nonce;
    body.etypes = req.etypes.clone();
    if !req.additional_tickets.is_empty() {
        body.additional_tickets =
            Some(req.additional_tickets.iter().map(crate::codec::ticket_to_asn1).collect());
    }
    body
}

/// Relies on `kerberos_asn1`'s `AsReq::build` / `TgsReq::build`: the DER of
/// the request with exactly the given fields (message type 10 or 12). The
/// bytes go to the KDC; no later proof depends on them.
#[verifier::external_body]
fn kdc_req_build(req: &KdcReqData, tgs: bool) -> (r: Vec<u8>)
    requires
        -62167219200 <= req.till < 253402300800,
{
    let body = kdc_req_body_new(req);
    let padata: Vec<kerberos_asn1::PaData> = req.padatas.iter().map(
        |p| kerberos_asn1::PaData::new(p.padata_type, p.padata_value.clone()),
    ).collect();
    let padata = if padata.is_empty() { None } else { Some(padata) };
    if tgs {
        kerberos_asn1::TgsReq { pvno: 5, msg_type: 12, padata, req_body: body }.build()
    } else {
        kerberos_asn1::AsReq { pvno: 5, msg_type: 10, padata, req_body: body }.build()
    }
}

/// Relies on `chrono::Utc::now`: the current time as epoch seconds, always
/// within chrono's representable range.
#[verifier::external_body]
pub(crate) fn now_epoch() -> (r: i64)
    ensures
        -8334601228800 <= r <= 8210266876799,
{
    chrono::Utc::now().timestamp()
}

/// The AS-REQ for a user: forwardable/renewable/canonicalize options, the
/// user as NT-PRINCIPAL client name, `krbtgt/<realm>` as service, a
/// two-week lifetime, and PA-ENC-TIMESTAMP pre-authentication when a cipher
/// is given. With no explicit etypes, the cipher's etype (or the default
/// set) is offered.
pub fn build_as_req(user: &KrbUser, cipher: Option<&Cipher>, etypes: Option<Vec<i32>>) -> (r: Vec<
    u8,
>)
    requires
        match cipher {
            Some(c) => crate::cipher::cipher_wf(*c),
            None => true,
        },
{
    let mut service: String = String::new();
    service.append("krbtgt/");
    service.append(user.realm.as_str());
    let sname = crate::krb_types::new_nt_srv_inst(service.as_str());
    let mut req_etypes: Vec<i32> = Vec::new();
    match (&etypes, &cipher) {
        (Some(es), _) => {
            let mut i: usize = 0;
            while i < es.len()
                invariant
                    i <= es@.len(),
                decreases es@.len() - i,
            {
                req_etypes.push(es[i]);
                i = i + 1;
            }
        },
        (None, Some(c)) => {
            req_etypes.push(c.etype());
        },
        (None, None) => {
            req_etypes.push(crate::constants::AES256_CTS_HMAC_SHA1_96);
            req_etypes.push(crate::constants::AES128_CTS_HMAC_SHA1_96);
            req_etypes.push(crate::constants::RC4_HMAC);
        },
    }
    let mut padatas: Vec<PaData> = Vec::new();
    match cipher {
        Some(c) => {
            padatas.push(new_pa_data_encrypted_timestamp(c));
        },
        None => {},
    }
    let now = now_epoch();
    let nn: i64 = if now < 0 {
        0
    } else {
        now
    };
    let till: i64 = if nn < 253402300800 - 1209600 {
        nn + 1209600
    } else {
        253402300799
    };
    let req = KdcReqData {
        kdc_options: KDC_OPT_FORWARDABLE | KDC_OPT_RENEWABLE | KDC_OPT_CANONICALIZE
            | KDC_OPT_RENEWABLE_OK,
        cname: Some(new_nt_principal(user.name.as_str())),
        realm: user.realm.clone(),
        sname: Some(sname),
        till,
        nonce: (nn % 0x7fffffff) as u32,
        etypes: req_etypes,
        padatas,
        additional_tickets: Vec::new(),
    };
    kdc_req_build(&req, false)
}

/// The TGS-REQ for a service: the AP-REQ of the TGT under key-usage 7, plus
/// the S4U extension's PA-DATA when one is selected (PA-FOR-USER for
/// S4U2Self; the evidence ticket and resource-based-delegation PAC options
/// for S4U2Proxy).
pub fn build_tgs_req(
    user: &KrbUser,
    realm: &str,
    tgt_ticket: &Ticket,
    session_cipher: &Cipher,
    s4u: &S4u,
    etypes: Option<Vec<i32>>,
) -> (r: Vec<u8>)
    requires
        crate::cipher::cipher_wf(*session_cipher),
{
    let mut padatas: Vec<PaData> = Vec::new();
    let mut additional_tickets: Vec<Ticket> = Vec::new();
    let mut sname: Option<PrincipalName> = None;
    match s4u {
        S4u::Regular(service) => {
            sname = Some(service.clone());
        },
        S4u::S4u2self(impersonate_user, user_service) => {
            padatas.push(new_pa_data_pa_for_user(impersonate_user, session_cipher));
            match user_service {
                Some(s) => {
                    sname = Some(crate::krb_types::new_nt_srv_inst(s.as_str()));
                },
                None => {
                    sname = Some(crate::krb_types::new_nt_enterprise(user));
                },
            }
        },
        S4u::S4u2proxy(evidence, service) => {
            padatas.push(
                new_pa_data_pac_options(crate::constants::RESOURCE_BASED_CONSTRAINED_DELEGATION),
            );
            additional_tickets.push(evidence.clone());
            sname = Some(crate::krb_types::new_nt_srv_inst(service.as_str()));
        },
    }
    padatas.push(new_pa_data_ap_req(user, tgt_ticket, session_cipher));
    let mut req_etypes: Vec<i32> = Vec::new();
    match &etypes {
        Some(es) => {
            let mut i: usize = 0;
            while i < es.len()
                invariant
                    i <= es@.len(),
                decreases es@.len() - i,
            {
                req_etypes.push(es[i]);
                i = i + 1;
            }
        },
        None => {
            req_etypes.push(crate::constants::AES256_CTS_HMAC_SHA1_96);
            req_etypes.push(crate::constants::AES128_CTS_HMAC_SHA1_96);
            req_etypes.push(crate::constants::RC4_HMAC);
        },
    }
    let now = now_epoch();
    let nn: i64 = if now < 0 {
        0
    } else {
        now
    };
    let till: i64 = if nn < 253402300800 - 1209600 {
        nn + 1209600
    } else {
        253402300799
    };
    let req = KdcReqData {
        kdc_options: KDC_OPT_FORWARDABLE | KDC_OPT_RENEWABLE | KDC_OPT_CANONICALIZE
            | KDC_OPT_RENEWABLE_OK,
        cname: None,
        realm: realm.to_owned(),
        sname,
        till,
        nonce: (nn % 0x7fffffff) as u32,
        etypes: req_etypes,
        padatas,
        additional_tickets,
    };
    kdc_req_build(&req, true)
}

} // verus!
