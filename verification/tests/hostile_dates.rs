use std::cell::RefCell;
use std::rc::Rc;

use cerbero_lib::CredFormat;
use cerbero_lib::EncryptedData;
use cerbero_lib::EncryptionKey;
use cerbero_lib::Error;
use cerbero_lib::KrbChannel;
use cerbero_lib::KrbCredInfo;
use cerbero_lib::KrbUser;
use cerbero_lib::Key;
use cerbero_lib::PrincipalName;
use cerbero_lib::Ticket;
use cerbero_lib::TicketCred;
use cerbero_lib::brute;

use kerberos_asn1::Asn1Object;

struct OneShot {
    replies: Rc<RefCell<Vec<Vec<u8>>>>,
}

impl KrbChannel for OneShot {
    fn send_recv(&self, _raw: &Vec<u8>) -> Result<Vec<u8>, Error> {
        let mut q = self.replies.borrow_mut();
        if q.is_empty() {
            return Err(Error::NetworkError("no more scripted replies".to_string()));
        }
        Ok(q.remove(0))
    }
}

fn epoch(secs: i64) -> chrono::DateTime<chrono::Utc> {
    chrono::TimeZone::timestamp_opt(&chrono::Utc, secs, 0).unwrap()
}

/// Replaces the first occurrence of `needle` with `with` (same length).
fn corrupt(bytes: &mut Vec<u8>, needle: &[u8], with: &[u8]) {
    assert_eq!(needle.len(), with.len());
    for i in 0..=(bytes.len() - needle.len()) {
        if &bytes[i..i + needle.len()] == needle {
            bytes[i..i + needle.len()].copy_from_slice(with);
            return;
        }
    }
    panic!("needle not found");
}

#[test]
fn test_krb_error_with_impossible_date_is_not_decoded() {
    // A KRB-ERROR whose stime spells month 99: the reply is treated as
    // unparsable instead of being decoded (the date reader would abort).
    let err = kerberos_asn1::KrbError {
        pvno: 5,
        msg_type: 30,
        ctime: None,
        cusec: None,
        stime: kerberos_asn1::KerberosTime::from(epoch(1500000000)),
        susec: 0,
        error_code: 24,
        crealm: None,
        cname: None,
        realm: "DOMAIN.COM".to_string(),
        sname: kerberos_asn1::PrincipalName::new(2, "krbtgt".to_string()),
        e_text: None,
        e_data: None,
    };
    let mut bytes = err.build();
    // 1500000000 seconds is 2017-07-14; make the month impossible.
    corrupt(&mut bytes, b"201707", b"201799");
    let channel = OneShot { replies: Rc::new(RefCell::new(vec![bytes])) };
    let e = brute("DOMAIN.COM", "U".to_string(), "pw".to_string(), &channel).unwrap_err();
    assert!(matches!(e, Error::DataError(_)));
}

#[test]
fn test_krb_bundle_with_impossible_date_is_rejected() {
    // A stored KRB file whose cred-info authtime spells day zero parses to
    // an error instead of aborting in the date reader.
    let sname = PrincipalName {
        name_type: 2,
        name_string: vec!["krbtgt".to_string(), "DOMAIN.COM".to_string()],
    };
    let cred = TicketCred::new(
        Ticket::new(
            "DOMAIN.COM".to_string(),
            sname.clone(),
            EncryptedData { etype: 18, kvno: Some(2), cipher: vec![1, 2, 3] },
        ),
        KrbCredInfo {
            key: EncryptionKey { keytype: 18, keyvalue: vec![7; 32] },
            prealm: Some("DOMAIN.COM".to_string()),
            pname: Some(PrincipalName { name_type: 1, name_string: vec!["Alice".to_string()] }),
            flags: Some(0x40e10000),
            authtime: Some(1500000000),
            starttime: Some(1500000000),
            endtime: Some(1500036000),
            renew_till: Some(1500604800),
            srealm: Some("DOMAIN.COM".to_string()),
            sname: Some(sname),
        },
    );
    let mut bytes = cred.as_bytes(CredFormat::Krb).unwrap();
    corrupt(&mut bytes, b"20170714", b"20170700");
    let e = TicketCred::from_bytes(&bytes).unwrap_err();
    assert!(matches!(e, Error::DataError(_)));
}

#[test]
fn test_as_rep_with_impossible_date_inside_encrypted_part() {
    // A malicious KDC that knows the client key can still not abort the
    // client: an impossible hour inside the decrypted part is a data error.
    let salt = kerberos_crypto::aes_hmac_sha1::generate_salt("DOMAIN.COM", "Alice");
    let client_key = kerberos_crypto::aes_hmac_sha1::generate_key_from_string(
        "Password",
        &salt,
        &kerberos_crypto::AesSizes::Aes256,
    );
    let enc_part = kerberos_asn1::EncAsRepPart {
        key: kerberos_asn1::EncryptionKey::new(18, vec![7u8; 32]),
        last_req: Vec::new(),
        nonce: 1,
        key_expiration: None,
        flags: kerberos_asn1::KerberosFlags { flags: 0x40e10000 },
        authtime: kerberos_asn1::KerberosTime::from(epoch(1500000000)),
        starttime: None,
        endtime: kerberos_asn1::KerberosTime::from(epoch(1500036000)),
        renew_till: None,
        srealm: "DOMAIN.COM".to_string(),
        sname: kerberos_asn1::PrincipalName::new(2, "krbtgt".to_string()),
        caddr: None,
        encrypted_pa_data: None,
    };
    let mut plain = enc_part.build();
    // 1500036000 seconds is 2017-07-14T12:40; make the hour impossible.
    corrupt(&mut plain, b"20170714124000Z", b"20170714994000Z");
    let cipher = kerberos_crypto::new_kerberos_cipher(18).unwrap();
    let encrypted = cipher.encrypt(&client_key, 3, &plain);
    let as_rep = kerberos_asn1::AsRep {
        pvno: 5,
        msg_type: 11,
        padata: None,
        crealm: "DOMAIN.COM".to_string(),
        cname: kerberos_asn1::PrincipalName::new(1, "Alice".to_string()),
        ticket: kerberos_asn1::Ticket::new(
            "DOMAIN.COM".to_string(),
            kerberos_asn1::PrincipalName::new(2, "krbtgt".to_string()),
            kerberos_asn1::EncryptedData::new(18, Some(2), vec![0xde, 0xad]),
        ),
        enc_part: kerberos_asn1::EncryptedData::new(18, None, encrypted),
    };
    let channel = OneShot { replies: Rc::new(RefCell::new(vec![as_rep.build()])) };
    let user = KrbUser::new("Alice".to_string(), "DOMAIN.COM".to_string());
    let key = Key::Secret("Password".to_string());
    let e = cerbero_lib::request_tgt(&user, &key, None, &channel).unwrap_err();
    assert!(matches!(e, Error::DataError(_)));
    // And a session key of the wrong size for its type is refused, not fed
    // to the ciphers.
    let bad_key = EncryptionKey { keytype: 18, keyvalue: vec![1u8; 5] };
    assert!(cerbero_lib::Cipher::from_enc_key(&bad_key).is_err());
}
