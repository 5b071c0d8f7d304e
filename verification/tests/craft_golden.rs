use cerbero_lib::BufVault;
use cerbero_lib::CredFormat;
use cerbero_lib::EncryptionType;
use cerbero_lib::Key;
use cerbero_lib::Vault;
use cerbero_lib::craft;

use kerberos_asn1::Asn1Object;

fn le_u32(b: &[u8], off: usize) -> u32 {
    u32::from_le_bytes([b[off], b[off + 1], b[off + 2], b[off + 3]])
}

fn le_u64(b: &[u8], off: usize) -> u64 {
    let mut a = [0u8; 8];
    a.copy_from_slice(&b[off..off + 8]);
    u64::from_le_bytes(a)
}

/// The PACTYPE layout: cBuffers, Version, then one (ulType, cbBufferSize,
/// Offset) descriptor per buffer.
fn pac_buffer(pac: &[u8], wanted_type: u32) -> (usize, usize) {
    let count = le_u32(pac, 0) as usize;
    for i in 0..count {
        let d = 8 + i * 16;
        let ultype = le_u32(pac, d);
        let size = le_u32(pac, d + 4) as usize;
        let offset = le_u64(pac, d + 8) as usize;
        if ultype == wanted_type {
            return (offset, size);
        }
    }
    panic!("PAC buffer type not found");
}

fn contains_subslice(hay: &[u8], needle: &[u8]) -> bool {
    if needle.is_empty() || hay.len() < needle.len() {
        return false;
    }
    for i in 0..=(hay.len() - needle.len()) {
        if &hay[i..i + needle.len()] == needle {
            return true;
        }
    }
    false
}

#[test]
fn test_craft_golden_ticket() {
    let krbtgt_key: Vec<u8> = (0u8..16u8).collect();
    let key = Key::Rc4(krbtgt_key.clone());
    let mut vault = Vault::Buf(BufVault::new(CredFormat::Krb));
    craft(
        "DOMAIN.COM",
        "Administrator",
        None,
        &key,
        500,
        "S-1-5-21-1004336348-1177238915-682003330",
        &vec![512],
        Some(EncryptionType::RC4),
        CredFormat::Ccache,
        &mut vault,
    )
    .unwrap();

    let creds = vault.dump();
    assert_eq!(creds.ticket_creds.len(), 1);
    let tc = &creds.ticket_creds[0];
    assert!(tc.is_tgt());
    assert_eq!(
        tc.cred_info.sname.as_ref().unwrap().name_string,
        vec!["krbtgt", "DOMAIN.COM"]
    );

    // The ticket's encrypted part decrypts under the same key (usage 2).
    let cipher = kerberos_crypto::new_kerberos_cipher(23).unwrap();
    let plain = cipher.decrypt(&krbtgt_key, 2, &tc.ticket.enc_part.cipher).unwrap();
    let (_, etp) = kerberos_asn1::EncTicketPart::parse(&plain).unwrap();
    assert_eq!(etp.crealm, "DOMAIN.COM");
    assert_eq!(etp.cname.name_string, vec!["Administrator"]);

    // The PAC sits inside an AD-IF-RELEVANT wrapping an AD-WIN2K-PAC entry.
    let auth_data = etp.authorization_data.unwrap();
    assert_eq!(auth_data[0].ad_type, 1);
    let (_, inner): (_, kerberos_asn1::AuthorizationData) =
        Vec::<kerberos_asn1::AuthorizationDataEntry>::parse(&auth_data[0].ad_data).unwrap();
    assert_eq!(inner[0].ad_type, 128);
    let pac = &inner[0].ad_data;

    // LOGON_INFO (type 1) carries UserId 500 directly followed by
    // PrimaryGroupId 513, and the group 512 with attributes 7
    // (mandatory | enabled-by-default | enabled).
    let (lo, ls) = pac_buffer(pac, 1);
    let logon_info = &pac[lo..lo + ls];
    let mut rid_pair: Vec<u8> = Vec::new();
    rid_pair.extend(500u32.to_le_bytes());
    rid_pair.extend(513u32.to_le_bytes());
    assert!(contains_subslice(logon_info, &rid_pair));
    let mut group_pair: Vec<u8> = Vec::new();
    group_pair.extend(512u32.to_le_bytes());
    group_pair.extend(7u32.to_le_bytes());
    assert!(contains_subslice(logon_info, &group_pair));

    // Both checksums verify: the server checksum is the HMAC-MD5 (usage 17)
    // of the PAC with both signature slots zeroed, and the privsrv checksum
    // is the HMAC-MD5 of the server signature.
    let (so, _) = pac_buffer(pac, 6);
    let (po, _) = pac_buffer(pac, 7);
    let server_sig = pac[so + 4..so + 20].to_vec();
    let privsrv_sig = pac[po + 4..po + 20].to_vec();
    let mut zeroed = pac.to_vec();
    for i in 0..16 {
        zeroed[so + 4 + i] = 0;
        zeroed[po + 4 + i] = 0;
    }
    let expected_server = kerberos_crypto::checksum_hmac_md5(&krbtgt_key, 17, &zeroed);
    assert_eq!(server_sig, expected_server);
    let expected_privsrv = kerberos_crypto::checksum_hmac_md5(&krbtgt_key, 17, &server_sig);
    assert_eq!(privsrv_sig, expected_privsrv);
}

#[test]
fn test_craft_is_deterministic_modulo_fresh_values() {
    // Crafting twice with the same arguments yields tickets for the same
    // principal and service; the PAC signing itself is a pure function of
    // its inputs (the session key and timestamps are fresh per call).
    let key = Key::Rc4(vec![5u8; 16]);
    let mut v1 = Vault::Buf(BufVault::new(CredFormat::Krb));
    let mut v2 = Vault::Buf(BufVault::new(CredFormat::Krb));
    for v in [&mut v1, &mut v2] {
        craft(
            "DOMAIN.COM",
            "Administrator",
            Some(&"cifs/host.domain.com".to_string()),
            &key,
            500,
            "S-1-5-21-1-2-3",
            &vec![512, 520],
            Some(EncryptionType::RC4),
            CredFormat::Krb,
            v,
        )
        .unwrap();
    }
    let a = v1.dump();
    let b = v2.dump();
    assert_eq!(
        a.ticket_creds[0].cred_info.sname.as_ref().unwrap().name_string,
        b.ticket_creds[0].cred_info.sname.as_ref().unwrap().name_string
    );
    assert_eq!(
        a.ticket_creds[0].ticket.sname.name_string,
        vec!["cifs", "host.domain.com"]
    );
}

#[test]
fn test_craft_rejects_bad_sid() {
    let key = Key::Rc4(vec![5u8; 16]);
    let mut vault = Vault::Buf(BufVault::new(CredFormat::Krb));
    let r = craft(
        "DOMAIN.COM",
        "Administrator",
        None,
        &key,
        500,
        "not a sid",
        &vec![512],
        Some(EncryptionType::RC4),
        CredFormat::Krb,
        &mut vault,
    );
    assert!(r.is_err());
}
