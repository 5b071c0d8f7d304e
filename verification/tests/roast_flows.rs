use std::cell::RefCell;
use std::rc::Rc;

use cerbero_lib::BufVault;
use cerbero_lib::CrackFormat;
use cerbero_lib::CredFormat;
use cerbero_lib::EncryptedData;
use cerbero_lib::EncryptionKey;
use cerbero_lib::Error;
use cerbero_lib::KdcComm;
use cerbero_lib::KrbChannel;
use cerbero_lib::KrbCredInfo;
use cerbero_lib::KrbUser;
use cerbero_lib::PrincipalName;
use cerbero_lib::Ticket;
use cerbero_lib::TicketCred;
use cerbero_lib::Vault;
use cerbero_lib::asreproast;
use cerbero_lib::get_hex;
use cerbero_lib::kerberoast;

use kerberos_asn1::Asn1Object;

type Replies = Rc<RefCell<Vec<Vec<u8>>>>;

struct FakeChannel {
    replies: Replies,
}

impl KrbChannel for FakeChannel {
    fn send_recv(&self, _raw: &Vec<u8>) -> Result<Vec<u8>, Error> {
        let mut q = self.replies.borrow_mut();
        if q.is_empty() {
            return Err(Error::NetworkError("no more scripted replies".to_string()));
        }
        Ok(q.remove(0))
    }
}

struct FakeComm {
    replies: Replies,
}

impl KdcComm for FakeComm {
    type Channel = FakeChannel;

    fn create_channel(&mut self, _realm: &str) -> Result<FakeChannel, Error> {
        Ok(FakeChannel { replies: Rc::clone(&self.replies) })
    }
}

fn epoch(secs: i64) -> chrono::DateTime<chrono::Utc> {
    chrono::TimeZone::timestamp_opt(&chrono::Utc, secs, 0).unwrap()
}

fn asn1_sname(labels: &[&str]) -> kerberos_asn1::PrincipalName {
    let mut pn = kerberos_asn1::PrincipalName::new(2, labels[0].to_string());
    for l in labels.iter().skip(1) {
        pn.push(l.to_string());
    }
    pn
}

#[test]
fn test_asreproast_formats_the_encrypted_part() {
    // An AS-REP whose encrypted part the client cannot decrypt: the roast
    // string carries the cipher bytes split after the first 16.
    let mut cipher_bytes: Vec<u8> = Vec::new();
    for i in 0..24u8 {
        cipher_bytes.push(i);
    }
    let as_rep = kerberos_asn1::AsRep {
        pvno: 5,
        msg_type: 11,
        padata: None,
        crealm: "DOMAIN.COM".to_string(),
        cname: kerberos_asn1::PrincipalName::new(1, "victim".to_string()),
        ticket: kerberos_asn1::Ticket::new(
            "DOMAIN.COM".to_string(),
            asn1_sname(&["krbtgt", "DOMAIN.COM"]),
            kerberos_asn1::EncryptedData::new(23, Some(2), vec![0xaa]),
        ),
        enc_part: kerberos_asn1::EncryptedData::new(23, None, cipher_bytes.clone()),
    };
    let shared: Replies = Rc::new(RefCell::new(vec![as_rep.build()]));
    let channel = FakeChannel { replies: Rc::clone(&shared) };
    let s = asreproast(
        "DOMAIN.COM",
        "victim".to_string(),
        CrackFormat::Hashcat,
        &channel,
        Some(cerbero_lib::EncryptionType::RC4),
    )
    .unwrap();
    let head = get_hex(&cipher_bytes[0..16]);
    let tail = get_hex(&cipher_bytes[16..]);
    assert_eq!(s, format!("$krb5asrep$23$victim@DOMAIN.COM:{}${}", head, tail));
}

fn lib_tgt(user: &str, realm: &str, session_key: &[u8]) -> TicketCred {
    let sname = PrincipalName {
        name_type: 2,
        name_string: vec!["krbtgt".to_string(), realm.to_string()],
    };
    let ticket = Ticket::new(
        realm.to_string(),
        sname.clone(),
        EncryptedData { etype: 18, kvno: Some(2), cipher: vec![0xde, 0xad] },
    );
    let cred_info = KrbCredInfo {
        key: EncryptionKey { keytype: 18, keyvalue: session_key.to_vec() },
        prealm: Some(realm.to_string()),
        pname: Some(PrincipalName { name_type: 1, name_string: vec![user.to_string()] }),
        flags: Some(0x40e10000),
        authtime: Some(1500000000),
        starttime: Some(1500000000),
        endtime: Some(1500036000),
        renew_till: Some(1500604800),
        srealm: Some(realm.to_string()),
        sname: Some(sname),
    };
    TicketCred::new(ticket, cred_info)
}

#[test]
fn test_kerberoast_one_service() {
    let user = KrbUser::new("pentest".to_string(), "DOMAIN.COM".to_string());
    let tgt_session = vec![1u8; 32];

    // One TGS-REP for HTTP/web01 whose ticket's encrypted part is the
    // crackable material.
    let mut tgs_cipher: Vec<u8> = Vec::new();
    for i in 0..20u8 {
        tgs_cipher.push(0x40 + i);
    }
    let enc_part = kerberos_asn1::EncTgsRepPart {
        key: kerberos_asn1::EncryptionKey::new(18, vec![2u8; 32]),
        last_req: Vec::new(),
        nonce: 1,
        key_expiration: None,
        flags: kerberos_asn1::KerberosFlags { flags: 0x40a10000 },
        authtime: kerberos_asn1::KerberosTime::from(epoch(1500000000)),
        starttime: None,
        endtime: kerberos_asn1::KerberosTime::from(epoch(1500036000)),
        renew_till: None,
        srealm: "DOMAIN.COM".to_string(),
        sname: asn1_sname(&["HTTP", "web01"]),
        caddr: None,
        encrypted_pa_data: None,
    };
    let crypto = kerberos_crypto::new_kerberos_cipher(18).unwrap();
    let encrypted = crypto.encrypt(&tgt_session, 8, &enc_part.build());
    let tgs_rep = kerberos_asn1::TgsRep {
        pvno: 5,
        msg_type: 13,
        padata: None,
        crealm: "DOMAIN.COM".to_string(),
        cname: kerberos_asn1::PrincipalName::new(1, "pentest".to_string()),
        ticket: kerberos_asn1::Ticket::new(
            "DOMAIN.COM".to_string(),
            asn1_sname(&["HTTP", "web01"]),
            kerberos_asn1::EncryptedData::new(23, Some(2), tgs_cipher.clone()),
        ),
        enc_part: kerberos_asn1::EncryptedData::new(18, None, encrypted),
    };

    let shared: Replies = Rc::new(RefCell::new(vec![tgs_rep.build()]));
    let mut comm = FakeComm { replies: Rc::clone(&shared) };
    let mut in_vault = Vault::Buf(BufVault::new(CredFormat::Krb));
    in_vault.add(lib_tgt("pentest", "DOMAIN.COM", &tgt_session));

    let hashes = kerberoast(
        &user,
        &vec!["svcaccount:HTTP/web01".to_string()],
        &mut in_vault,
        None,
        None,
        CredFormat::Krb,
        CrackFormat::Hashcat,
        None,
        &mut comm,
    )
    .unwrap();
    assert_eq!(hashes.len(), 1);
    let head = get_hex(&tgs_cipher[0..16]);
    let tail = get_hex(&tgs_cipher[16..]);
    assert_eq!(
        hashes[0],
        format!("$krb5tgs$23$*svcaccount$DOMAIN.COM$HTTP/web01*${}${}", head, tail)
    );
}
