use cerbero_lib::BufVault;
use cerbero_lib::CredFormat;
use cerbero_lib::EmptyVault;
use cerbero_lib::EncryptedData;
use cerbero_lib::EncryptionKey;
use cerbero_lib::KrbCredInfo;
use cerbero_lib::PrincipalName;
use cerbero_lib::Ticket;
use cerbero_lib::TicketCred;
use cerbero_lib::TicketCreds;
use cerbero_lib::Vault;
use cerbero_lib::codec::encode_ticket_creds;
use cerbero_lib::codec::parse_ticket_creds;
use cerbero_lib::convert;

fn wf_cred(pname: &str, srv_host: &str, keyval: u8) -> TicketCred {
    let sname = PrincipalName {
        name_type: 2,
        name_string: vec!["krbtgt".to_string(), srv_host.to_string()],
    };
    let ticket = Ticket::new(
        "DOMAIN.COM".to_string(),
        sname.clone(),
        EncryptedData { etype: 18, kvno: Some(2), cipher: vec![keyval, 1, 2, 3, 4] },
    );
    let cred_info = KrbCredInfo {
        key: EncryptionKey { keytype: 18, keyvalue: vec![keyval; 32] },
        prealm: Some("DOMAIN.COM".to_string()),
        pname: Some(PrincipalName { name_type: 1, name_string: vec![pname.to_string()] }),
        flags: Some(0x40e10000),
        authtime: Some(1500000000),
        starttime: Some(1500000000),
        endtime: Some(1500036000),
        renew_till: Some(1500604800),
        srealm: Some("DOMAIN.COM".to_string()),
        sname: Some(sname),
    };
    TicketCred::new(ticket, cred_info)
}

fn creds_equal(a: &TicketCred, b: &TicketCred) -> bool {
    a.ticket.realm == b.ticket.realm
        && a.ticket.sname.name_string == b.ticket.sname.name_string
        && a.ticket.enc_part.cipher == b.ticket.enc_part.cipher
        && a.cred_info.key.keyvalue == b.cred_info.key.keyvalue
        && a.cred_info.prealm == b.cred_info.prealm
        && a.cred_info.pname.as_ref().unwrap().name_string
            == b.cred_info.pname.as_ref().unwrap().name_string
        && a.cred_info.srealm == b.cred_info.srealm
        && a.cred_info.sname.as_ref().unwrap().name_string
            == b.cred_info.sname.as_ref().unwrap().name_string
        && a.cred_info.authtime == b.cred_info.authtime
        && a.cred_info.endtime == b.cred_info.endtime
        && a.cred_info.flags == b.cred_info.flags
}

#[test]
fn test_round_trip_krb() {
    let creds = TicketCreds::new(vec![wf_cred("Alice", "DOMAIN.COM", 7), wf_cred("Bob", "B.COM", 9)]);
    let bytes = encode_ticket_creds(&creds, CredFormat::Krb).unwrap();
    let back = parse_ticket_creds(&bytes).unwrap();
    assert_eq!(back.ticket_creds.len(), 2);
    assert!(creds_equal(&back.ticket_creds[0], &creds.ticket_creds[0]));
    assert!(creds_equal(&back.ticket_creds[1], &creds.ticket_creds[1]));
}

#[test]
fn test_round_trip_ccache() {
    let creds = TicketCreds::new(vec![wf_cred("Alice", "DOMAIN.COM", 7), wf_cred("Bob", "B.COM", 9)]);
    let bytes = encode_ticket_creds(&creds, CredFormat::Ccache).unwrap();
    let back = parse_ticket_creds(&bytes).unwrap();
    assert_eq!(back.ticket_creds.len(), 2);
    assert!(creds_equal(&back.ticket_creds[0], &creds.ticket_creds[0]));
    assert!(creds_equal(&back.ticket_creds[1], &creds.ticket_creds[1]));
}

#[test]
fn test_auto_detect_rejects_garbage() {
    let e = parse_ticket_creds(&[1, 2, 3, 4, 5]).unwrap_err();
    assert!(matches!(e, cerbero_lib::Error::DataError(_)));
}

#[test]
fn test_ticket_cred_as_bytes_from_bytes() {
    let cred = wf_cred("Alice", "DOMAIN.COM", 7);
    let krb = cred.as_bytes(CredFormat::Krb).unwrap();
    let back = TicketCred::from_bytes(&krb).unwrap();
    assert!(creds_equal(&back, &cred));
    let cc = cred.as_bytes(CredFormat::Ccache).unwrap();
    let back2 = TicketCred::from_bytes(&cc).unwrap();
    assert!(creds_equal(&back2, &cred));
    // The two formats start differently: a ccache opens with version 5.
    assert_eq!(cc[0], 0x05);
    assert_ne!(krb[0], 0x05);
}

#[test]
fn test_change_format_idempotent() {
    let mut vault = Vault::Buf(BufVault::new(CredFormat::Krb));
    vault.add(wf_cred("Alice", "DOMAIN.COM", 7));
    vault.add(wf_cred("Bob", "B.COM", 9));
    vault.change_format(CredFormat::Ccache).unwrap();
    let once = vault.dump();
    vault.change_format(CredFormat::Ccache).unwrap();
    let twice = vault.dump();
    assert_eq!(once.ticket_creds.len(), twice.ticket_creds.len());
    for i in 0..once.ticket_creds.len() {
        assert!(creds_equal(&once.ticket_creds[i], &twice.ticket_creds[i]));
    }
    assert_eq!(vault.support_cred_format(), Some(CredFormat::Ccache));
    // Byte-identical too: the ccache encodings of the two states are equal.
    let b1 = encode_ticket_creds(&once, CredFormat::Ccache).unwrap();
    let b2 = encode_ticket_creds(&twice, CredFormat::Ccache).unwrap();
    assert_eq!(b1, b2);
    // And the same under the KRB format.
    vault.change_format(CredFormat::Krb).unwrap();
    let k1 = vault.dump();
    vault.change_format(CredFormat::Krb).unwrap();
    let k2 = vault.dump();
    for i in 0..k1.ticket_creds.len() {
        assert!(creds_equal(&k1.ticket_creds[i], &k2.ticket_creds[i]));
    }
}

#[test]
fn test_convert_krb_to_ccache() {
    let mut in_vault = Vault::Buf(BufVault::new(CredFormat::Krb));
    in_vault.add(wf_cred("Alice", "DOMAIN.COM", 7));
    in_vault.add(wf_cred("Bob", "B.COM", 9));
    let mut out_vault = Vault::Buf(BufVault::new(CredFormat::Krb));
    convert(&in_vault, &mut out_vault, Some(CredFormat::Ccache)).unwrap();
    assert_eq!(out_vault.support_cred_format(), Some(CredFormat::Ccache));
    let outc = out_vault.dump();
    let inc = in_vault.dump();
    assert_eq!(outc.ticket_creds.len(), 2);
    for i in 0..2 {
        assert!(creds_equal(&outc.ticket_creds[i], &inc.ticket_creds[i]));
    }
}

#[test]
fn test_convert_without_format_takes_contrary() {
    let mut in_vault = Vault::Buf(BufVault::new(CredFormat::Krb));
    in_vault.add(wf_cred("Alice", "DOMAIN.COM", 7));
    let mut out_vault = Vault::Buf(BufVault::new(CredFormat::Krb));
    convert(&in_vault, &mut out_vault, None).unwrap();
    // The memory store's identifier carries no extension hint, so the
    // contrary of the input's format wins.
    assert_eq!(out_vault.support_cred_format(), Some(CredFormat::Ccache));
}

#[test]
fn test_convert_from_empty_vault_fails() {
    let in_vault = Vault::Empty(EmptyVault::new());
    let mut out_vault = Vault::Buf(BufVault::new(CredFormat::Krb));
    assert!(convert(&in_vault, &mut out_vault, Some(CredFormat::Krb)).is_err());
}

#[test]
fn test_empty_vault_discards_saves() {
    let mut vault = Vault::Empty(EmptyVault::new());
    vault.add(wf_cred("Alice", "DOMAIN.COM", 7));
    assert_eq!(vault.dump().ticket_creds.len(), 1);
    vault.save_as(TicketCreds::new(vec![]), CredFormat::Krb).unwrap();
    assert_eq!(vault.dump().ticket_creds.len(), 1);
    assert_eq!(vault.support_cred_format(), None);
    assert_eq!(vault.id(), "Nowhere");
    let buf = Vault::Buf(BufVault::new(CredFormat::Krb));
    assert_eq!(buf.id(), "Memory");
}

#[test]
fn test_save_as_rejects_incomplete_cred_for_ccache() {
    // A credential without a client principal cannot be carried by a ccache.
    let mut bad = wf_cred("Alice", "DOMAIN.COM", 7);
    bad.cred_info.pname = None;
    let mut vault = Vault::Buf(BufVault::new(CredFormat::Krb));
    let r = vault.save_as(TicketCreds::new(vec![bad]), CredFormat::Ccache);
    assert!(r.is_err());
    assert_eq!(vault.support_cred_format(), Some(CredFormat::Krb));
}
