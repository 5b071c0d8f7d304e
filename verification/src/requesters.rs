//! Single-shot request primitives: build a request, exchange it over a
//! channel, classify the reply, and extract the credential.

use vstd::prelude::*;
use crate::channel::KdcComm;
use crate::channel::KrbChannel;
use crate::cipher::Cipher;
use crate::cipher::Key;
use crate::cipher::cipher_wf;
use crate::codec::tcv_krb_encodable;
use crate::constants::AES128_CTS_HMAC_SHA1_96;
use crate::constants::AES256_CTS_HMAC_SHA1_96;
use crate::constants::RC4_HMAC;
use crate::error::Error;
use crate::forge::S4u;
use crate::forge::build_as_req;
use crate::forge::build_tgs_req;
use crate::krb_types::PrincipalName;
use crate::krb_user::KrbUser;
use crate::rep::KdcRepData;
use crate::rep::Rep;
use crate::rep::SaltHint;
use crate::rep::etype_info2_salt;
use crate::rep::extract_krb_cred_from_as_rep;
use crate::rep::extract_ticket_from_tgs_rep;
use crate::rep::parse_rep;
use crate::ticket_cred::TicketCred;

verus! {

/// The guarantees every successfully requested credential gives its caller.
pub open spec fn requested_cred_ok(tc: crate::ticket_cred::TicketCredV) -> bool {
    &&& tcv_krb_encodable(tc)
    &&& tc.cred_info.prealm is Some
    &&& tc.cred_info.pname is Some
    &&& tc.cred_info.flags is Some
    &&& tc.cred_info.srealm is Some
    &&& tc.cred_info.sname is Some
}

/// Sends raw request bytes and classifies whatever comes back.
pub fn send_recv<C: KrbChannel>(channel: &C, raw: &Vec<u8>) -> (r: Result<Rep, Error>) {
    let bytes = channel.send_recv(raw)?;
    Ok(parse_rep(&bytes))
}

/// What each reply shape means to an AS exchange: an AS-REP is the answer,
/// a KRB-ERROR is surfaced as such, anything else is a data error.
pub fn classify_as_rep(rep: Rep) -> (r: Result<KdcRepData, Error>)
    ensures
        match rep {
            Rep::AsRep(d) => r matches Ok(x) && x == d,
            Rep::KrbError(e) => r matches Err(err) && err matches Error::KrbError(e2) && e2 == e,
            Rep::TgsRep(_) => (r matches Err(e) && e is DataError),
            Rep::Raw(_) => (r matches Err(e) && e is DataError),
        },
{
    match rep {
        Rep::AsRep(d) => Ok(d),
        Rep::KrbError(e) => Err(Error::KrbError(e)),
        Rep::TgsRep(_) => Err(
            Error::DataError(
                String::from_str("Unexpected: server responded with TGS-REP to AS-REQ"),
            ),
        ),
        Rep::Raw(_) => Err(Error::DataError(String::from_str("Error parsing response"))),
    }
}

/// What each reply shape means to a TGS exchange.
pub fn classify_tgs_rep(rep: Rep) -> (r: Result<KdcRepData, Error>)
    ensures
        match rep {
            Rep::TgsRep(d) => r matches Ok(x) && x == d,
            Rep::KrbError(e) => r matches Err(err) && err matches Error::KrbError(e2) && e2 == e,
            Rep::AsRep(_) => (r matches Err(e) && e is DataError),
            Rep::Raw(_) => (r matches Err(e) && e is DataError),
        },
{
    match rep {
        Rep::TgsRep(d) => Ok(d),
        Rep::KrbError(e) => Err(Error::KrbError(e)),
        Rep::AsRep(_) => Err(
            Error::DataError(
                String::from_str("Unexpected: server responded with AS-REP to TGS-REQ"),
            ),
        ),
        Rep::Raw(_) => Err(Error::DataError(String::from_str("Error parsing response"))),
    }
}

/// Sends an AS-REQ and expects an AS-REP.
pub fn send_recv_as<C: KrbChannel>(channel: &C, raw: &Vec<u8>) -> (r: Result<KdcRepData, Error>) {
    let rep = send_recv(channel, raw)?;
    classify_as_rep(rep)
}

/// Sends a TGS-REQ and expects a TGS-REP.
pub fn send_recv_tgs<C: KrbChannel>(channel: &C, raw: &Vec<u8>) -> (r: Result<KdcRepData, Error>) {
    let rep = send_recv(channel, raw)?;
    classify_tgs_rep(rep)
}

/// Builds an AS-REQ (with PA-ENC-TIMESTAMP when a cipher is given), sends
/// it, and returns the parsed AS-REP or the KDC's error.
pub fn request_as_rep<C: KrbChannel>(
    user: &KrbUser,
    cipher: Option<&Cipher>,
    etypes: Option<Vec<i32>>,
    channel: &C,
) -> (r: Result<KdcRepData, Error>)
    requires
        match cipher {
            Some(c) => cipher_wf(*c),
            None => true,
        },
{
    let raw = build_as_req(user, cipher, etypes);
    send_recv_as(channel, &raw)
}

/// Requests a TGT with the user's credentials. The first attempt derives
/// the key with the default salt; if the KDC answers with a KRB-ERROR whose
/// e-data carries an ETYPE-INFO2 (type 19), the server's preferred salt is
/// extracted and the exchange is retried exactly once with a cipher rebuilt
/// on that salt. Any other error is surfaced.
pub fn request_tgt<C: KrbChannel>(
    user: &KrbUser,
    user_key: &Key,
    etype: Option<i32>,
    channel: &C,
) -> (r: Result<TicketCred, Error>)
    requires
        crate::cipher::key_wf(*user_key),
        user_key matches Key::Secret(_) ==> match etype {
            Some(e) => e == RC4_HMAC || e == AES128_CTS_HMAC_SHA1_96 || e
                == AES256_CTS_HMAC_SHA1_96,
            None => true,
        },
    ensures
        r matches Ok(tc) ==> requested_cred_ok(tc@),
{
    let cipher = Cipher::generate(user_key, user, etype, None);
    proof {
        assert(cipher_wf(cipher));
    }
    match request_as_rep(user, Some(&cipher), None, channel) {
        Ok(rep) => extract_krb_cred_from_as_rep(rep, &cipher),
        Err(e) => match e {
            Error::KrbError(krb_error) => match etype_info2_salt(&krb_error) {
                SaltHint::Salt(salt) => {
                    let cipher = Cipher::generate(user_key, user, None, Some(salt));
                    proof {
                        assert(cipher_wf(cipher));
                    }
                    let rep = request_as_rep(user, Some(&cipher), None, channel)?;
                    extract_krb_cred_from_as_rep(rep, &cipher)
                },
                SaltHint::NotPresent => Err(Error::KrbError(krb_error)),
                SaltHint::Malformed => Err(
                    Error::StringError(String::from_str("Error parsing ETYPE-INFO2 of e-data")),
                ),
            },
            other => Err(other),
        },
    }
}

/// Requests a TGS against `dst_realm` with a PA-TGS-REQ wrapping the TGT,
/// plus the S4U extension's PA-DATA when one is selected. The TGT's session
/// key must run one of the supported encryption types.
pub fn request_tgs<C: KrbChannel>(
    user: &KrbUser,
    dst_realm: &str,
    tgt: &TicketCred,
    s4u: &S4u,
    etypes: Option<Vec<i32>>,
    channel: &C,
) -> (r: Result<TicketCred, Error>)
    ensures
        r matches Ok(tc) ==> requested_cred_ok(tc@),
{
    let cipher = Cipher::from_enc_key(&tgt.cred_info.key)?;
    let raw = build_tgs_req(user, dst_realm, &tgt.ticket, &cipher, s4u, etypes);
    let rep = send_recv_tgs(channel, &raw)?;
    extract_ticket_from_tgs_rep(rep, &cipher)
}

/// A TGS for a plain service, over a channel to the user's own realm.
pub fn request_regular_tgs<K: KdcComm>(
    user: &KrbUser,
    service: PrincipalName,
    tgt: &TicketCred,
    etypes: Option<Vec<i32>>,
    kdccomm: &mut K,
) -> (r: Result<TicketCred, Error>)
    ensures
        r matches Ok(tc) ==> requested_cred_ok(tc@),
{
    let channel = kdccomm.create_channel(user.realm.as_str())?;
    request_tgs(user, user.realm.as_str(), tgt, &S4u::Regular(service), etypes, &channel)
}

/// An S4U2Self TGS: a ticket to the user's own service in the name of the
/// impersonated principal (PA-FOR-USER).
pub fn request_s4u2self_tgs<K: KdcComm>(
    user: &KrbUser,
    impersonate_user: KrbUser,
    user_service: Option<String>,
    tgt: &TicketCred,
    kdccomm: &mut K,
) -> (r: Result<TicketCred, Error>)
    ensures
        r matches Ok(tc) ==> requested_cred_ok(tc@),
{
    let channel = kdccomm.create_channel(user.realm.as_str())?;
    request_tgs(
        user,
        user.realm.as_str(),
        tgt,
        &S4u::S4u2self(impersonate_user, user_service),
        None,
        &channel,
    )
}

} // verus!
