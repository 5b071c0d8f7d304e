use std::cell::RefCell;
use std::rc::Rc;

use cerbero_lib::BruteResult;
use cerbero_lib::BufVault;
use cerbero_lib::CredFormat;
use cerbero_lib::EncryptedData;
use cerbero_lib::EncryptionKey;
use cerbero_lib::Error;
use cerbero_lib::KdcComm;
use cerbero_lib::Key;
use cerbero_lib::KrbChannel;
use cerbero_lib::KrbCredInfo;
use cerbero_lib::KrbUser;
use cerbero_lib::PrincipalName;
use cerbero_lib::Ticket;
use cerbero_lib::TicketCred;
use cerbero_lib::Vault;
use cerbero_lib::ask_tgt;
use cerbero_lib::ask_s4u2proxy;
use cerbero_lib::brute;

use kerberos_asn1::Asn1Object;

type Replies = Rc<RefCell<Vec<Vec<u8>>>>;

struct FakeChannel {
    replies: Replies,
}

impl KrbChannel for FakeChannel {
    fn send_recv(&self, _raw: &Vec<u8>) -> Result<Vec<u8>, Error> {
        let mut q = self.replies.borrow_mut();
        if q.is_empty() {
            return Err(Error::NetworkError("no more scripted replies".to_string()));
        }
        Ok(q.remove(0))
    }
}

struct FakeComm {
    replies: Replies,
}

impl KdcComm for FakeComm {
    type Channel = FakeChannel;

    fn create_channel(&mut self, _realm: &str) -> Result<FakeChannel, Error> {
        Ok(FakeChannel { replies: Rc::clone(&self.replies) })
    }
}

fn scripted(replies: Vec<Vec<u8>>) -> (FakeComm, Replies) {
    let shared: Replies = Rc::new(RefCell::new(replies));
    (FakeComm { replies: Rc::clone(&shared) }, shared)
}

fn asn1_krbtgt_sname(realm: &str) -> kerberos_asn1::PrincipalName {
    let mut sname = kerberos_asn1::PrincipalName::new(2, "krbtgt".to_string());
    sname.push(realm.to_string());
    sname
}

fn build_as_rep_bytes(
    realm: &str,
    cname: &str,
    client_key: &[u8],
    session_key: &[u8],
) -> Vec<u8> {
    let enc_part = kerberos_asn1::EncAsRepPart {
        key: kerberos_asn1::EncryptionKey::new(18, session_key.to_vec()),
        last_req: Vec::new(),
        nonce: 1,
        key_expiration: None,
        flags: kerberos_asn1::KerberosFlags { flags: 0x40e10000 },
        authtime: kerberos_asn1::KerberosTime::from(epoch(1500000000)),
        starttime: None,
        endtime: kerberos_asn1::KerberosTime::from(epoch(1500036000)),
        renew_till: None,
        srealm: realm.to_string(),
        sname: asn1_krbtgt_sname(realm),
        caddr: None,
        encrypted_pa_data: None,
    };
    let cipher = kerberos_crypto::new_kerberos_cipher(18).unwrap();
    let encrypted = cipher.encrypt(client_key, 3, &enc_part.build());
    let as_rep = kerberos_asn1::AsRep {
        pvno: 5,
        msg_type: 11,
        padata: None,
        crealm: realm.to_string(),
        cname: kerberos_asn1::PrincipalName::new(1, cname.to_string()),
        ticket: kerberos_asn1::Ticket::new(
            realm.to_string(),
            asn1_krbtgt_sname(realm),
            kerberos_asn1::EncryptedData::new(18, Some(2), vec![0xde, 0xad]),
        ),
        enc_part: kerberos_asn1::EncryptedData::new(18, None, encrypted),
    };
    as_rep.build()
}

fn build_tgs_rep_bytes(
    crealm: &str,
    cname: &str,
    session_key: &[u8],
    new_session_key: &[u8],
    srealm: &str,
    sname: kerberos_asn1::PrincipalName,
    ticket_realm: &str,
    ticket_sname: kerberos_asn1::PrincipalName,
) -> Vec<u8> {
    let enc_part = kerberos_asn1::EncTgsRepPart {
        key: kerberos_asn1::EncryptionKey::new(18, new_session_key.to_vec()),
        last_req: Vec::new(),
        nonce: 1,
        key_expiration: None,
        flags: kerberos_asn1::KerberosFlags { flags: 0x40a10000 },
        authtime: kerberos_asn1::KerberosTime::from(epoch(1500000000)),
        starttime: None,
        endtime: kerberos_asn1::KerberosTime::from(epoch(1500036000)),
        renew_till: None,
        srealm: srealm.to_string(),
        sname,
        caddr: None,
        encrypted_pa_data: None,
    };
    let cipher = kerberos_crypto::new_kerberos_cipher(18).unwrap();
    let encrypted = cipher.encrypt(session_key, 8, &enc_part.build());
    let tgs_rep = kerberos_asn1::TgsRep {
        pvno: 5,
        msg_type: 13,
        padata: None,
        crealm: crealm.to_string(),
        cname: kerberos_asn1::PrincipalName::new(1, cname.to_string()),
        ticket: kerberos_asn1::Ticket::new(
            ticket_realm.to_string(),
            ticket_sname,
            kerberos_asn1::EncryptedData::new(18, Some(2), vec![0xbe, 0xef]),
        ),
        enc_part: kerberos_asn1::EncryptedData::new(18, None, encrypted),
    };
    tgs_rep.build()
}

fn epoch(secs: i64) -> chrono::DateTime<chrono::Utc> {
    chrono::TimeZone::timestamp_opt(&chrono::Utc, secs, 0).unwrap()
}

fn build_krb_error_bytes(error_code: i32, e_data: Option<Vec<u8>>) -> Vec<u8> {
    let err = kerberos_asn1::KrbError {
        pvno: 5,
        msg_type: 30,
        ctime: None,
        cusec: None,
        stime: kerberos_asn1::KerberosTime::from(epoch(1500000000)),
        susec: 0,
        error_code,
        crealm: None,
        cname: None,
        realm: "DOMAIN.COM".to_string(),
        sname: kerberos_asn1::PrincipalName::new(2, "krbtgt".to_string()),
        e_text: None,
        e_data,
    };
    err.build()
}

fn aes256_key(realm: &str, name: &str, password: &str) -> Vec<u8> {
    let salt = kerberos_crypto::aes_hmac_sha1::generate_salt(realm, name);
    kerberos_crypto::aes_hmac_sha1::generate_key_from_string(
        password,
        &salt,
        &kerberos_crypto::AesSizes::Aes256,
    )
}

#[test]
fn test_ask_tgt_success() {
    let client_key = aes256_key("DOMAIN.COM", "Alice", "Password");
    let session_key = vec![7u8; 32];
    let rep = build_as_rep_bytes("DOMAIN.COM", "Alice", &client_key, &session_key);
    let (mut comm, _shared) = scripted(vec![rep]);
    let user = KrbUser::new("Alice".to_string(), "DOMAIN.COM".to_string());
    let key = Key::Secret("Password".to_string());
    let mut vault = Vault::Buf(BufVault::new(CredFormat::Krb));
    ask_tgt(&user, &key, CredFormat::Krb, &mut vault, &mut comm).unwrap();
    let creds = vault.dump();
    assert_eq!(creds.ticket_creds.len(), 1);
    let tgt = &creds.ticket_creds[0];
    assert!(tgt.is_tgt());
    assert_eq!(
        tgt.cred_info.sname.as_ref().unwrap().name_string,
        vec!["krbtgt", "DOMAIN.COM"]
    );
    assert_eq!(tgt.cred_info.key.keytype, 18);
    assert_eq!(tgt.cred_info.key.keyvalue, session_key);
}

#[test]
fn test_ask_tgt_salt_hint_recovery() {
    // First reply: KRB-ERROR carrying an ETYPE-INFO2 salt hint; the client
    // must retry once with a key derived from that salt.
    let hinted_salt = "DOMAIN.COMALICE";
    let entry = kerberos_asn1::EtypeInfo2Entry::new(18, Some(hinted_salt.to_string()), None);
    let info2: kerberos_asn1::EtypeInfo2 = vec![entry];
    let padata = kerberos_asn1::PaData::new(19, info2.build());
    let mut e_data = vec![0u8, 0u8];
    e_data.extend(padata.build());
    let err = build_krb_error_bytes(25, Some(e_data));

    let hinted_key = kerberos_crypto::aes_hmac_sha1::generate_key_from_string(
        "Password",
        hinted_salt.as_bytes(),
        &kerberos_crypto::AesSizes::Aes256,
    );
    let session_key = vec![9u8; 32];
    let rep = build_as_rep_bytes("DOMAIN.COM", "Alice", &hinted_key, &session_key);

    let (mut comm, _shared) = scripted(vec![err, rep]);
    let user = KrbUser::new("Alice".to_string(), "DOMAIN.COM".to_string());
    let key = Key::Secret("Password".to_string());
    let mut vault = Vault::Buf(BufVault::new(CredFormat::Krb));
    ask_tgt(&user, &key, CredFormat::Krb, &mut vault, &mut comm).unwrap();
    let creds = vault.dump();
    assert_eq!(creds.ticket_creds.len(), 1);
    assert!(creds.ticket_creds[0].is_tgt());
    assert_eq!(creds.ticket_creds[0].cred_info.key.keyvalue, session_key);
}

#[test]
fn test_ask_tgs_with_fresh_tgt_and_rename() {
    // An empty vault: the flow first requests the TGT with the key, then the
    // TGS, renames its service, and stores both.
    let client_key = aes256_key("DOMAIN.COM", "Alice", "Password");
    let tgt_session = vec![6u8; 32];
    let as_rep = build_as_rep_bytes("DOMAIN.COM", "Alice", &client_key, &tgt_session);
    let mut cifs = kerberos_asn1::PrincipalName::new(2, "cifs".to_string());
    cifs.push("host.domain.com".to_string());
    let tgs_rep = build_tgs_rep_bytes(
        "DOMAIN.COM",
        "Alice",
        &tgt_session,
        &vec![8u8; 32],
        "DOMAIN.COM",
        cifs.clone(),
        "DOMAIN.COM",
        cifs,
    );
    let (mut comm, _shared) = scripted(vec![as_rep, tgs_rep]);
    let user = KrbUser::new("Alice".to_string(), "DOMAIN.COM".to_string());
    let key = Key::Secret("Password".to_string());
    let mut vault = Vault::Buf(BufVault::new(CredFormat::Krb));
    cerbero_lib::ask_tgs(
        &user,
        "cifs/host.domain.com",
        Some("restored/host.domain.com"),
        Some(&key),
        CredFormat::Krb,
        &mut vault,
        &mut comm,
    )
    .unwrap();
    let creds = vault.dump();
    assert_eq!(creds.ticket_creds.len(), 2);
    let tgs = &creds.ticket_creds[1];
    assert_eq!(tgs.ticket.sname.name_string, vec!["restored", "host.domain.com"]);
    assert_eq!(
        tgs.cred_info.sname.as_ref().unwrap().name_string,
        vec!["restored", "host.domain.com"]
    );
}

#[test]
fn test_brute_classification() {
    // Four attempts; the KDC answers PREAUTH-FAILED, C-PRINCIPAL-UNKNOWN,
    // KEY-EXPIRED and CLIENT-REVOKED in that order.
    let codes = [24, 6, 23, 18];
    let mut replies: Vec<Vec<u8>> = Vec::new();
    for c in codes.iter() {
        replies.push(build_krb_error_bytes(*c, None));
    }
    let (mut comm, _shared) = scripted(replies);
    let channel = comm.create_channel("DOMAIN.COM").unwrap();

    let r1 = brute("DOMAIN.COM", "U".to_string(), "pw".to_string(), &channel).unwrap();
    assert!(matches!(r1, BruteResult::ValidUser(ref u) if u == "U"));
    let r2 = brute("DOMAIN.COM", "U".to_string(), "pw".to_string(), &channel).unwrap();
    assert!(matches!(r2, BruteResult::InvalidUser(ref u) if u == "U"));
    let r3 = brute("DOMAIN.COM", "U".to_string(), "pw".to_string(), &channel).unwrap();
    assert!(matches!(r3, BruteResult::ExpiredPassword(ref u, ref p) if u == "U" && p == "pw"));
    let r4 = brute("DOMAIN.COM", "U".to_string(), "pw".to_string(), &channel).unwrap();
    assert!(matches!(r4, BruteResult::BlockedUser(ref u) if u == "U"));
}

#[test]
fn test_brute_surfaces_other_errors() {
    // An unclassified KDC error code propagates as a KRB error; an exhausted
    // channel surfaces the transport failure.
    let (mut comm, _shared) = scripted(vec![build_krb_error_bytes(99, None)]);
    let channel = comm.create_channel("DOMAIN.COM").unwrap();
    let e = brute("DOMAIN.COM", "U".to_string(), "pw".to_string(), &channel).unwrap_err();
    assert!(matches!(e, Error::KrbError(ref k) if k.error_code == 99));
    let e2 = brute("DOMAIN.COM", "U".to_string(), "pw".to_string(), &channel).unwrap_err();
    assert!(matches!(e2, Error::NetworkError(_)));
}

#[test]
fn test_ask_without_credentials_is_a_client_error() {
    let (mut comm, _shared) = scripted(vec![]);
    let user = KrbUser::new("Alice".to_string(), "DOMAIN.COM".to_string());
    let mut vault = Vault::Buf(BufVault::new(CredFormat::Krb));
    let e = cerbero_lib::ask(&user, None, None, None, None, None, &mut vault, CredFormat::Krb, &mut comm)
        .unwrap_err();
    assert!(matches!(e, Error::StringError(_)));
}

fn lib_tgt(user: &str, realm: &str, session_key: &[u8]) -> TicketCred {
    let sname = PrincipalName {
        name_type: 2,
        name_string: vec!["krbtgt".to_string(), realm.to_string()],
    };
    let ticket = Ticket::new(
        realm.to_string(),
        sname.clone(),
        EncryptedData { etype: 18, kvno: Some(2), cipher: vec![0xde, 0xad] },
    );
    let cred_info = KrbCredInfo {
        key: EncryptionKey { keytype: 18, keyvalue: session_key.to_vec() },
        prealm: Some(realm.to_string()),
        pname: Some(PrincipalName { name_type: 1, name_string: vec![user.to_string()] }),
        flags: Some(0x40e10000),
        authtime: Some(1500000000),
        starttime: Some(1500000000),
        endtime: Some(1500036000),
        renew_till: Some(1500604800),
        srealm: Some(realm.to_string()),
        sname: Some(sname),
    };
    TicketCred::new(ticket, cred_info)
}

fn lib_s4u2self_tgs(user: &KrbUser, imp: &str, session_key: &[u8]) -> TicketCred {
    // An S4U2Self TGS: client is the impersonated user, service is the
    // user's NT-ENTERPRISE name, within the user's realm.
    let sname = cerbero_lib::new_nt_enterprise(user);
    let ticket = Ticket::new(
        user.realm.clone(),
        sname.clone(),
        EncryptedData { etype: 18, kvno: Some(2), cipher: vec![0xca, 0xfe] },
    );
    let cred_info = KrbCredInfo {
        key: EncryptionKey { keytype: 18, keyvalue: session_key.to_vec() },
        prealm: Some(user.realm.clone()),
        pname: Some(PrincipalName { name_type: 1, name_string: vec![imp.to_string()] }),
        flags: Some(0x40a10000),
        authtime: Some(1500000000),
        starttime: Some(1500000000),
        endtime: Some(1500036000),
        renew_till: Some(1500604800),
        srealm: Some(user.realm.clone()),
        sname: Some(sname),
    };
    TicketCred::new(ticket, cred_info)
}

#[test]
fn test_ask_s4u2self_uses_cached_tgt() {
    // The vault holds the TGT; one S4U2Self exchange follows and its TGS is
    // stored.
    let user = KrbUser::new("svc".to_string(), "DOMAIN.COM".to_string());
    let tgt_session = vec![1u8; 32];
    let mut enterprise = kerberos_asn1::PrincipalName::new(10, "svc@DOMAIN.COM".to_string());
    enterprise.name_type = 10;
    let tgs = build_tgs_rep_bytes(
        "DOMAIN.COM",
        "bob",
        &tgt_session,
        &vec![2u8; 32],
        "DOMAIN.COM",
        enterprise.clone(),
        "DOMAIN.COM",
        enterprise,
    );
    let (mut comm, _shared) = scripted(vec![tgs]);
    let mut vault = Vault::Buf(BufVault::new(CredFormat::Krb));
    vault.add(lib_tgt("svc", "DOMAIN.COM", &tgt_session));
    cerbero_lib::ask_s4u2self(
        &user,
        KrbUser::new("bob".to_string(), "DOMAIN.COM".to_string()),
        None,
        &mut vault,
        None,
        CredFormat::Krb,
        &mut comm,
    )
    .unwrap();
    let creds = vault.dump();
    assert_eq!(creds.ticket_creds.len(), 2);
    let s4u = &creds.ticket_creds[1];
    assert_eq!(s4u.cred_info.pname.as_ref().unwrap().name_string, vec!["bob"]);
    assert_eq!(
        s4u.cred_info.sname.as_ref().unwrap().name_string,
        vec!["svc@DOMAIN.COM"]
    );
}

#[test]
fn test_get_user_tgt_prefers_the_cached_ticket() {
    // With a matching TGT in the vault no credentials are needed, nothing is
    // sent, and the vault is left as it was.
    let (mut comm, _shared) = scripted(vec![]);
    let channel = comm.create_channel("A.COM").unwrap();
    let user = KrbUser::new("svc".to_string(), "A.COM".to_string());
    let mut vault = Vault::Buf(BufVault::new(CredFormat::Krb));
    vault.add(lib_tgt("svc", "A.COM", &vec![1u8; 32]));
    let tgt = cerbero_lib::get_user_tgt(&user, None, None, &mut vault, &channel).unwrap();
    assert_eq!(tgt.cred_info.key.keyvalue, vec![1u8; 32]);
    assert_eq!(vault.dump().ticket_creds.len(), 1);
    // Asking for an etype the cached ticket does not run falls through to a
    // fresh request, which without credentials is a client error.
    let e = cerbero_lib::get_user_tgt(&user, None, Some(23), &mut vault, &channel).unwrap_err();
    assert!(matches!(e, Error::StringError(_)));
}

#[test]
fn test_get_user_tgt_rejects_incompatible_etype() {
    // An RC4 key cannot produce an AES256 TGT: a client error before
    // anything is sent.
    let (mut comm, _shared) = scripted(vec![]);
    let channel = comm.create_channel("DOMAIN.COM").unwrap();
    let user = KrbUser::new("Alice".to_string(), "DOMAIN.COM".to_string());
    let key = Key::Rc4(vec![0u8; 16]);
    let mut vault = Vault::Buf(BufVault::new(CredFormat::Krb));
    let e = cerbero_lib::get_user_tgt(&user, Some(&key), Some(18), &mut vault, &channel)
        .unwrap_err();
    assert!(matches!(e, Error::StringError(_)));
    assert_eq!(vault.dump().ticket_creds.len(), 0);
}

#[test]
fn test_s4u2proxy_referral() {
    // Local realm A.COM; the first S4U2Proxy reply is a TGT for realm B.COM:
    // a referral. The client must request krbtgt/B.COM, open a channel to
    // B.COM's KDC and re-issue the S4U2Proxy request there.
    let user = KrbUser::new("svc".to_string(), "A.COM".to_string());
    let tgt_session = vec![1u8; 32];
    let inter_session = vec![2u8; 32];

    // Reply 1: the S4U2Proxy answer, itself a TGT for B.COM (under the TGT
    // session key).
    let referral = build_tgs_rep_bytes(
        "A.COM",
        "svc",
        &tgt_session,
        &vec![3u8; 32],
        "A.COM",
        asn1_krbtgt_sname("B.COM"),
        "A.COM",
        asn1_krbtgt_sname("B.COM"),
    );
    // Reply 2: the inter-realm TGT for B.COM (under the TGT session key).
    let inter = build_tgs_rep_bytes(
        "A.COM",
        "svc",
        &tgt_session,
        &inter_session,
        "A.COM",
        asn1_krbtgt_sname("B.COM"),
        "A.COM",
        asn1_krbtgt_sname("B.COM"),
    );
    // Reply 3: the final service ticket from B.COM's KDC (under the
    // inter-realm session key), with srealm B.COM.
    let mut cifs = kerberos_asn1::PrincipalName::new(2, "cifs".to_string());
    cifs.push("host.B.COM".to_string());
    let final_tgs = build_tgs_rep_bytes(
        "A.COM",
        "svc",
        &inter_session,
        &vec![4u8; 32],
        "B.COM",
        cifs.clone(),
        "B.COM",
        cifs,
    );

    let (mut comm, _shared) = scripted(vec![referral, inter, final_tgs]);
    let mut vault = Vault::Buf(BufVault::new(CredFormat::Krb));
    // The vault already holds the caller's TGT and the S4U2Self TGS, so the
    // flow goes straight to the S4U2Proxy exchanges.
    vault.add(lib_tgt("svc", "A.COM", &tgt_session));
    vault.add(lib_s4u2self_tgs(&user, "bob", &vec![5u8; 32]));

    ask_s4u2proxy(
        &user,
        KrbUser::new("bob".to_string(), "A.COM".to_string()),
        "cifs/host.B.COM",
        None,
        None,
        &mut vault,
        None,
        CredFormat::Krb,
        &mut comm,
    )
    .unwrap();

    let creds = vault.dump();
    let last = &creds.ticket_creds[creds.ticket_creds.len() - 1];
    assert_eq!(last.cred_info.srealm.as_deref(), Some("B.COM"));
    assert_eq!(
        last.cred_info.sname.as_ref().unwrap().name_string,
        vec!["cifs", "host.B.COM"]
    );
}
