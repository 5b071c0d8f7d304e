use cerbero_lib::EncryptedData;
use cerbero_lib::EncryptionKey;
use cerbero_lib::KrbCredInfo;
use cerbero_lib::KrbUser;
use cerbero_lib::PrincipalName;
use cerbero_lib::Ticket;
use cerbero_lib::TicketCred;
use cerbero_lib::TicketCreds;
use cerbero_lib::new_nt_enterprise;
use cerbero_lib::new_nt_principal;
use cerbero_lib::new_nt_srv_inst;
use cerbero_lib::new_principal_or_srv_inst;

fn sample_cred(pname: &str, prealm: &str, sname: Vec<&str>, srealm: &str, etype: i32) -> TicketCred {
    let sname_pn = PrincipalName {
        name_type: 2,
        name_string: sname.iter().map(|s| s.to_string()).collect(),
    };
    let ticket = Ticket::new(
        srealm.to_string(),
        sname_pn.clone(),
        EncryptedData { etype, kvno: Some(2), cipher: vec![1, 2, 3] },
    );
    let cred_info = KrbCredInfo {
        key: EncryptionKey { keytype: etype, keyvalue: vec![9; 16] },
        prealm: Some(prealm.to_string()),
        pname: Some(PrincipalName { name_type: 1, name_string: vec![pname.to_string()] }),
        flags: Some(0x40e10000),
        authtime: Some(1000),
        starttime: Some(1000),
        endtime: Some(2000),
        renew_till: Some(3000),
        srealm: Some(srealm.to_string()),
        sname: Some(sname_pn),
    };
    TicketCred::new(ticket, cred_info)
}

#[test]
fn test_is_tgt_predicate() {
    let tgt = sample_cred("Alice", "DOMAIN.COM", vec!["krbtgt", "DOMAIN.COM"], "DOMAIN.COM", 18);
    assert!(tgt.is_tgt());
    // The predicate is case-sensitive: krbtgt is always lowercase on the wire.
    let upper = sample_cred("Alice", "DOMAIN.COM", vec!["KRBTGT", "DOMAIN.COM"], "DOMAIN.COM", 18);
    assert!(!upper.is_tgt());
    let cifs = sample_cred("Alice", "DOMAIN.COM", vec!["cifs", "host.domain.com"], "DOMAIN.COM", 18);
    assert!(!cifs.is_tgt());
}

#[test]
fn test_is_tgt_for_realm_case_insensitive() {
    let tgt = sample_cred("Alice", "DOMAIN.COM", vec!["krbtgt", "DOMAIN.COM"], "DOMAIN.COM", 18);
    assert!(tgt.is_tgt_for_realm("domain.com"));
    assert!(tgt.is_tgt_for_realm("DOMAIN.COM"));
    assert!(!tgt.is_tgt_for_realm("OTHER.COM"));
}

#[test]
fn test_service_host() {
    let tgt = sample_cred("Alice", "DOMAIN.COM", vec!["krbtgt", "DOMAIN.COM"], "DOMAIN.COM", 18);
    assert_eq!(tgt.service_host().unwrap().as_str(), "DOMAIN.COM");
    let single = sample_cred("Alice", "DOMAIN.COM", vec!["onlyone"], "DOMAIN.COM", 18);
    assert!(single.service_host().is_none());
}

#[test]
fn test_change_sname_updates_both() {
    let mut t = sample_cred("Alice", "DOMAIN.COM", vec!["krbtgt", "DOMAIN.COM"], "DOMAIN.COM", 18);
    let new_name = new_nt_srv_inst("cifs/host.domain.com");
    t.change_sname(new_name);
    assert_eq!(t.ticket.sname.name_string, vec!["cifs", "host.domain.com"]);
    assert_eq!(
        t.cred_info.sname.as_ref().unwrap().name_string,
        vec!["cifs", "host.domain.com"]
    );
}

#[test]
fn test_realm_filter_case_insensitivity() {
    let creds = TicketCreds::new(vec![
        sample_cred("Alice", "DOMAIN.COM", vec!["krbtgt", "DOMAIN.COM"], "DOMAIN.COM", 18),
        sample_cred("Bob", "OTHER.COM", vec!["krbtgt", "OTHER.COM"], "OTHER.COM", 18),
    ]);
    let a = creds.prealm("domain.com");
    let b = creds.prealm("DOMAIN.COM");
    let c = creds.prealm("DoMaIn.CoM");
    assert_eq!(a.ticket_creds.len(), 1);
    assert_eq!(b.ticket_creds.len(), 1);
    assert_eq!(c.ticket_creds.len(), 1);
    assert_eq!(
        a.ticket_creds[0].cred_info.pname.as_ref().unwrap().name_string[0],
        "Alice"
    );
    let s = creds.srealm("other.com");
    assert_eq!(s.ticket_creds.len(), 1);
    assert_eq!(
        s.ticket_creds[0].cred_info.pname.as_ref().unwrap().name_string[0],
        "Bob"
    );
}

#[test]
fn test_etype_and_user_filters() {
    let creds = TicketCreds::new(vec![
        sample_cred("Alice", "DOMAIN.COM", vec!["krbtgt", "DOMAIN.COM"], "DOMAIN.COM", 18),
        sample_cred("Alice", "DOMAIN.COM", vec!["krbtgt", "DOMAIN.COM"], "DOMAIN.COM", 23),
    ]);
    assert_eq!(creds.etype(23).ticket_creds.len(), 1);
    assert_eq!(creds.etype(17).ticket_creds.len(), 0);
    let user = KrbUser::new("alice".to_string(), "domain.com".to_string());
    // user filtering is case-insensitive on name and realm
    assert_eq!(creds.user(&user).ticket_creds.len(), 2);
    let tgts = creds.user_tgt_realm(&user, "domain.com");
    assert_eq!(tgts.ticket_creds.len(), 2);
}

#[test]
fn test_tgt_and_service_name_filters() {
    let creds = TicketCreds::new(vec![
        sample_cred("Alice", "DOMAIN.COM", vec!["krbtgt", "DOMAIN.COM"], "DOMAIN.COM", 18),
        sample_cred("Alice", "DOMAIN.COM", vec!["cifs", "host.domain.com"], "DOMAIN.COM", 18),
    ]);
    assert_eq!(creds.tgt().ticket_creds.len(), 1);
    assert_eq!(creds.service_name("CIFS").ticket_creds.len(), 1);
    assert_eq!(creds.service_name("host.domain.com").ticket_creds.len(), 1);
    assert_eq!(creds.service_name("http").ticket_creds.len(), 0);
}

#[test]
fn test_tgt_filter_first_label_case_sensitive() {
    // A TGT is recognised by its first service label, case-sensitively: a
    // service whose second label is krbtgt, or an upper-cased KRBTGT, is not
    // a TGT.
    let creds = TicketCreds::new(vec![
        sample_cred("Alice", "DOMAIN.COM", vec!["cifs", "krbtgt"], "DOMAIN.COM", 18),
        sample_cred("Alice", "DOMAIN.COM", vec!["KRBTGT", "DOMAIN.COM"], "DOMAIN.COM", 18),
        sample_cred("Alice", "DOMAIN.COM", vec!["krbtgt", "DOMAIN.COM"], "DOMAIN.COM", 18),
    ]);
    let tgts = creds.tgt();
    assert_eq!(tgts.ticket_creds.len(), 1);
    assert_eq!(
        tgts.ticket_creds[0].cred_info.sname.as_ref().unwrap().name_string[0],
        "krbtgt"
    );
    // The per-realm filter keeps the realm comparison case-insensitive but
    // the krbtgt label case-sensitive.
    assert_eq!(creds.tgt_realm("domain.com").ticket_creds.len(), 1);
    assert_eq!(creds.tgt_realm("OTHER.COM").ticket_creds.len(), 0);
}

#[test]
fn test_s4u2self_tgss_filter() {
    let user = KrbUser::new("svc".to_string(), "DOMAIN.COM".to_string());
    let imp = KrbUser::new("Administrator".to_string(), "DOMAIN.COM".to_string());
    let enterprise = new_nt_enterprise(&user);
    let mut tgs = sample_cred("Administrator", "DOMAIN.COM", vec![], "DOMAIN.COM", 18);
    tgs.cred_info.sname = Some(enterprise);
    let creds = TicketCreds::new(vec![tgs]);
    let hits = creds.s4u2self_tgss(&user, &imp, None);
    assert_eq!(hits.ticket_creds.len(), 1);
    let misses = creds.s4u2self_tgss(&user, &imp, Some(&"cifs/host".to_string()));
    assert_eq!(misses.ticket_creds.len(), 0);
}

#[test]
fn test_principal_name_constructors() {
    let p = new_nt_principal("Alice");
    assert_eq!(p.name_type, 1);
    assert_eq!(p.name_string, vec!["Alice"]);
    let s = new_nt_srv_inst("cifs/host.domain.com");
    assert_eq!(s.name_type, 2);
    assert_eq!(s.name_string, vec!["cifs", "host.domain.com"]);
    let u = KrbUser::new("Alice".to_string(), "DOMAIN.COM".to_string());
    let e = new_nt_enterprise(&u);
    assert_eq!(e.name_type, 10);
    assert_eq!(e.name_string, vec!["Alice@DOMAIN.COM"]);
    let either = new_principal_or_srv_inst("plain");
    assert_eq!(either.name_type, 1);
    let either2 = new_principal_or_srv_inst("a/b");
    assert_eq!(either2.name_type, 2);
    assert_eq!(s.flat_name(), "cifs/host.domain.com");
}

#[test]
fn test_eq_insensitive() {
    let a = new_nt_srv_inst("cifs/HOST.domain.com");
    let b = new_nt_srv_inst("CIFS/host.DOMAIN.com");
    assert!(a.eq_insensitive(&b));
    let c = new_nt_srv_inst("http/host.domain.com");
    assert!(!a.eq_insensitive(&c));
    let d = new_nt_principal("cifs");
    assert!(!a.eq_insensitive(&d));
}
