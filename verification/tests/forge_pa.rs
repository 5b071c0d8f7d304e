use cerbero_lib::Cipher;
use cerbero_lib::KrbUser;
use cerbero_lib::new_pa_as_freshness;
use cerbero_lib::new_pa_data_pa_for_user;
use cerbero_lib::new_pa_data_pac_options;
use cerbero_lib::new_pa_req_enc_pa_rep;

use kerberos_asn1::Asn1Object;

fn pa_for_user_checksum_for(cipher: &Cipher, user: &KrbUser) -> (i32, Vec<u8>, Vec<u8>) {
    let pa = new_pa_data_pa_for_user(user, cipher);
    assert_eq!(pa.padata_type, 129);
    let (_, pfu) = kerberos_asn1::PaForUser::parse(&pa.padata_value).unwrap();
    assert_eq!(pfu.username.name_type, 1);
    assert_eq!(pfu.username.name_string, vec![user.name.clone()]);
    assert_eq!(pfu.userrealm, user.realm);
    assert_eq!(pfu.auth_package, "Kerberos");
    (pfu.cksum.cksumtype, pfu.cksum.checksum, cipher.key.clone())
}

#[test]
fn test_pa_for_user_checksum_is_hmac_md5_whatever_the_etype() {
    let user = KrbUser::new("administrador".to_string(), "kingdom.hearts".to_string());
    // Once with an RC4 session key, once with an AES256 one: the checksum
    // type and algorithm must be HMAC-MD5 under key-usage 17 in both cases.
    let mut expected_input: Vec<u8> = vec![1, 0, 0, 0];
    expected_input.extend("administrador".as_bytes());
    expected_input.extend("kingdom.hearts".as_bytes());
    expected_input.extend("Kerberos".as_bytes());

    let rc4 = Cipher::new(23, vec![0x11; 16]);
    let (t1, c1, k1) = pa_for_user_checksum_for(&rc4, &user);
    assert_eq!(t1, -138);
    assert_eq!(c1, kerberos_crypto::checksum_hmac_md5(&k1, 17, &expected_input));

    let aes = Cipher::new(18, vec![0x22; 32]);
    let (t2, c2, k2) = pa_for_user_checksum_for(&aes, &user);
    assert_eq!(t2, -138);
    assert_eq!(c2, kerberos_crypto::checksum_hmac_md5(&k2, 17, &expected_input));
}

#[test]
fn test_pa_pac_options_round_trip() {
    let pa = new_pa_data_pac_options(0x10000000);
    assert_eq!(pa.padata_type, 167);
    let (_, opts) = kerberos_asn1::PaPacOptions::parse(&pa.padata_value).unwrap();
    assert_eq!(opts.kerberos_flags.flags, 0x10000000);
}

#[test]
fn test_marker_pa_data_entries() {
    let a = new_pa_req_enc_pa_rep();
    assert_eq!(a.padata_type, 149);
    assert!(a.padata_value.is_empty());
    let b = new_pa_as_freshness();
    assert_eq!(b.padata_type, 150);
    assert!(b.padata_value.is_empty());
}

#[test]
fn test_cipher_checksum_dispatch() {
    let data = vec![1u8, 2, 3, 4];
    let rc4 = Cipher::new(23, vec![9; 16]);
    assert_eq!(rc4.checksum_type(), -138);
    assert_eq!(
        rc4.checksum(17, &data),
        kerberos_crypto::checksum_hmac_md5(&vec![9; 16], 17, &data)
    );
    let aes128 = Cipher::new(17, vec![8; 16]);
    assert_eq!(aes128.checksum_type(), 15);
    assert_eq!(
        aes128.checksum(17, &data),
        kerberos_crypto::checksum_sha_aes(&vec![8; 16], 17, &data, &kerberos_crypto::AesSizes::Aes128)
    );
    let aes256 = Cipher::new(18, vec![7; 32]);
    assert_eq!(aes256.checksum_type(), 16);
    assert_eq!(
        aes256.checksum(17, &data),
        kerberos_crypto::checksum_sha_aes(&vec![7; 32], 17, &data, &kerberos_crypto::AesSizes::Aes256)
    );
}

#[test]
fn test_cipher_encrypt_decrypt_round_trip() {
    let key = vec![3u8; 32];
    let cipher = Cipher::new(18, key);
    let plain = vec![10u8, 20, 30, 40, 50];
    let ct = cipher.encrypt(3, &plain);
    assert_ne!(ct, plain);
    assert_eq!(cipher.decrypt(3, &ct).unwrap(), plain);
    // A wrong key usage must fail the integrity check, as a crypto error.
    assert!(matches!(
        cipher.decrypt(8, &ct).unwrap_err(),
        cerbero_lib::Error::CryptoError(_)
    ));
}

#[test]
fn test_cipher_generate_salt_override() {
    let user = KrbUser::new("Alice".to_string(), "DOMAIN.COM".to_string());
    let key = cerbero_lib::Key::Secret("Password".to_string());
    let default_cipher = Cipher::generate(&key, &user, None, None);
    assert_eq!(default_cipher.etype, 18);
    let expected_default = kerberos_crypto::aes_hmac_sha1::generate_key_from_string(
        "Password",
        &kerberos_crypto::aes_hmac_sha1::generate_salt("DOMAIN.COM", "Alice"),
        &kerberos_crypto::AesSizes::Aes256,
    );
    assert_eq!(default_cipher.key, expected_default);

    let hinted = Cipher::generate(&key, &user, None, Some("OTHERSALT".as_bytes().to_vec()));
    let expected_hinted = kerberos_crypto::aes_hmac_sha1::generate_key_from_string(
        "Password",
        "OTHERSALT".as_bytes(),
        &kerberos_crypto::AesSizes::Aes256,
    );
    assert_eq!(hinted.key, expected_hinted);
    assert_ne!(hinted.key, default_cipher.key);

    let rc4_cipher = Cipher::generate(&key, &user, Some(23), None);
    assert_eq!(rc4_cipher.etype, 23);
    assert_eq!(
        rc4_cipher.key,
        kerberos_crypto::rc4_hmac_md5::generate_key_from_string("Password")
    );

    let raw = cerbero_lib::Key::Aes256(vec![6u8; 32]);
    let raw_cipher = Cipher::generate(&raw, &user, Some(23), None);
    // A raw key fixes the etype; the preference is ignored.
    assert_eq!(raw_cipher.etype, 18);
    assert_eq!(raw_cipher.key, vec![6u8; 32]);
}

#[test]
fn test_key_etypes() {
    assert_eq!(cerbero_lib::Key::Secret("x".to_string()).etypes(), vec![18, 17, 23]);
    assert_eq!(cerbero_lib::Key::Rc4(vec![0; 16]).etypes(), vec![23]);
    assert_eq!(cerbero_lib::Key::Aes128(vec![0; 16]).etypes(), vec![17]);
    assert_eq!(cerbero_lib::Key::Aes256(vec![0; 32]).etypes(), vec![18]);
    assert_eq!(cerbero_lib::EncryptionType::RC4.as_constant(), 23);
    assert_eq!(cerbero_lib::EncryptionType::AES128.as_constant(), 17);
    assert_eq!(cerbero_lib::EncryptionType::AES256.as_constant(), 18);
}
