use cerbero_lib::CrackFormat;
use cerbero_lib::CredFormat;
use cerbero_lib::EncryptedData;
use cerbero_lib::as_rep_to_crack_string;
use cerbero_lib::get_hex;
use cerbero_lib::hash_aes128;
use cerbero_lib::hash_aes256;
use cerbero_lib::hash_rc4;
use cerbero_lib::parse_kerberoast_service;
use cerbero_lib::parse_kerberoast;
use cerbero_lib::set_size_header_to_request;
use cerbero_lib::tgs_to_crack_string;
use cerbero_lib::Kdcs;

#[test]
fn test_get_hex() {
    assert_eq!(get_hex(&[]), "");
    assert_eq!(get_hex(&[0x00, 0x0f, 0xa5, 0xff]), "000fa5ff");
}

#[test]
fn test_hash_rc4_known_value() {
    // The well-known NT hash of "password".
    assert_eq!(
        hash_rc4("password").unwrap(),
        "8846f7eaee8fb117ad06bdd830b7586c"
    );
}

#[test]
fn test_hash_aes_matches_direct_derivation() {
    let salt = kerberos_crypto::aes_hmac_sha1::generate_salt("KINGdom.HEARTS", "MicKey");
    assert_eq!(salt, "KINGDOM.HEARTSmickey".as_bytes().to_vec());
    let key128 = kerberos_crypto::aes_hmac_sha1::generate_key_from_string(
        "secret",
        &salt,
        &kerberos_crypto::AesSizes::Aes128,
    );
    assert_eq!(
        hash_aes128("KINGdom.HEARTS", "MicKey", "secret").unwrap(),
        get_hex(&key128)
    );
    let key256 = kerberos_crypto::aes_hmac_sha1::generate_key_from_string(
        "secret",
        &salt,
        &kerberos_crypto::AesSizes::Aes256,
    );
    assert_eq!(
        hash_aes256("KINGdom.HEARTS", "MicKey", "secret").unwrap(),
        get_hex(&key256)
    );
}

#[test]
fn test_asrep_crack_string_hashcat() {
    let mut cipher_bytes: Vec<u8> = Vec::new();
    for i in 0..20u8 {
        cipher_bytes.push(i);
    }
    let enc = EncryptedData { etype: 23, kvno: None, cipher: cipher_bytes };
    let s = as_rep_to_crack_string("Alice", "DOMAIN.COM", &enc, CrackFormat::Hashcat);
    assert_eq!(
        s,
        "$krb5asrep$23$Alice@DOMAIN.COM:000102030405060708090a0b0c0d0e0f$10111213"
    );
    let j = as_rep_to_crack_string("Alice", "DOMAIN.COM", &enc, CrackFormat::John);
    assert_eq!(
        j,
        "$krb5asrep$Alice@DOMAIN.COM:000102030405060708090a0b0c0d0e0f$10111213"
    );
}

#[test]
fn test_tgs_crack_string_hashcat() {
    let mut cipher_bytes: Vec<u8> = Vec::new();
    for i in 0..18u8 {
        cipher_bytes.push(0xa0 + i);
    }
    let enc = EncryptedData { etype: 18, kvno: None, cipher: cipher_bytes };
    let s = tgs_to_crack_string("svc", "cifs/host", "DOMAIN.COM", &enc, CrackFormat::Hashcat);
    assert_eq!(
        s,
        "$krb5tgs$18$*svc$DOMAIN.COM$cifs/host*$a0a1a2a3a4a5a6a7a8a9aaabacadaeaf$b0b1"
    );
}

#[test]
fn test_parse_kerberoast_service_forms() {
    let s1 = parse_kerberoast_service("user1", "DEFAULT.COM").unwrap();
    assert_eq!(s1.user.name, "user1");
    assert_eq!(s1.user.realm, "DEFAULT.COM");
    assert!(s1.service.is_none());

    let s2 = parse_kerberoast_service("dom.com/user2", "DEFAULT.COM").unwrap();
    assert_eq!(s2.user.name, "user2");
    assert_eq!(s2.user.realm, "dom.com");
    assert!(s2.service.is_none());

    let s3 = parse_kerberoast_service("user3:HTTP/web01", "DEFAULT.COM").unwrap();
    assert_eq!(s3.user.name, "user3");
    assert_eq!(s3.service.as_deref(), Some("HTTP/web01"));

    let s4 = parse_kerberoast_service("dom.com\\user4:MSSQLSvc/db:1433", "DEFAULT.COM").unwrap();
    assert_eq!(s4.user.name, "user4");
    assert_eq!(s4.user.realm, "dom.com");
    assert_eq!(s4.service.as_deref(), Some("MSSQLSvc/db:1433"));

    assert!(matches!(
        parse_kerberoast_service("", "DEFAULT.COM").unwrap_err(),
        cerbero_lib::Error::StringError(_)
    ));
    assert!(parse_kerberoast_service(":spn", "DEFAULT.COM").is_err());
    assert!(parse_kerberoast_service("/user", "DEFAULT.COM").is_err());
    assert!(parse_kerberoast_service("dom/", "DEFAULT.COM").is_err());
    assert!(parse_kerberoast_service("a/b/c", "DEFAULT.COM").is_err());
}

#[test]
fn test_parse_kerberoast_list() {
    let lines = vec!["user1".to_string(), "dom/user2:spn".to_string()];
    let parsed = parse_kerberoast(&lines, "DEFAULT.COM").unwrap();
    assert_eq!(parsed.len(), 2);
    assert_eq!(parsed[1].user.realm, "dom");
    let bad = vec!["user1".to_string(), "a/b/c".to_string()];
    assert!(parse_kerberoast(&bad, "DEFAULT.COM").is_err());
}

#[test]
fn test_kerberoast_service_principal() {
    let s = parse_kerberoast_service("dom/user:HTTP/web01", "DEFAULT.COM").unwrap();
    let pn = s.service();
    assert_eq!(pn.name_type, 2);
    assert_eq!(pn.name_string, vec!["HTTP", "web01"]);
    let s2 = parse_kerberoast_service("user", "DEFAULT.COM").unwrap();
    let pn2 = s2.service();
    assert_eq!(pn2.name_type, 10);
    assert_eq!(pn2.name_string, vec!["user@DEFAULT.COM"]);
}

#[test]
fn test_tcp_length_framing() {
    let framed = set_size_header_to_request(&[0xaa, 0xbb, 0xcc]);
    assert_eq!(framed, vec![0, 0, 0, 3, 0xaa, 0xbb, 0xcc]);
    let empty = set_size_header_to_request(&[]);
    assert_eq!(empty, vec![0, 0, 0, 0]);
}

#[test]
fn test_cred_format_from_extension() {
    assert_eq!(CredFormat::from_file_extension("x.krb"), Some(CredFormat::Krb));
    assert_eq!(CredFormat::from_file_extension("x.ccache"), Some(CredFormat::Ccache));
    assert_eq!(CredFormat::from_file_extension("x.txt"), None);
    assert_eq!(CredFormat::Krb.contrary(), CredFormat::Ccache);
    assert_eq!(CredFormat::Ccache.contrary(), CredFormat::Krb);
}

#[test]
fn test_kdcs_lookup_case_insensitive() {
    let mut kdcs = Kdcs::new();
    kdcs.insert("DOMAIN.COM".to_string(), "127.0.0.1".to_string());
    assert_eq!(kdcs.get("domain.com").unwrap(), "127.0.0.1");
    assert_eq!(kdcs.get("DoMaIn.CoM").unwrap(), "127.0.0.1");
    assert!(kdcs.get("other.com").is_none());
    kdcs.insert("domain.com".to_string(), "10.0.0.1".to_string());
    assert_eq!(kdcs.get_clone("DOMAIN.COM").unwrap(), "10.0.0.1");
    assert_eq!(kdcs.ips().len(), 2);
}
