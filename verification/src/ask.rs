//! The high-level ticket flows: ask-TGT, ask-TGS, S4U2Self, and S4U2Proxy
//! with one-hop referral chasing, each ending with the credential stored in
//! the vault under the chosen format.

use vstd::prelude::*;
use crate::channel::KdcComm;
use crate::cipher::Key;
use crate::cred_format::CredFormat;
use crate::error::Error;
use crate::forge::S4u;
use crate::krb_types::new_nt_srv_inst;
use crate::krb_user::KrbUser;
use crate::provider::get_impersonation_ticket;
use crate::provider::get_user_tgt;
use crate::requesters::request_regular_tgs;
use crate::requesters::requested_cred_ok;
use crate::requesters::request_tgs;
use crate::requesters::request_tgt;
use crate::vault::Vault;
use crate::vault::vault_creds;
use crate::vault::vault_format;
use crate::vault::vault_wf;

verus! {

/// Asks the KDC for a TGT with the user's key and stores it in the vault
/// under the chosen format.
pub fn ask_tgt<K: KdcComm>(
    user: &KrbUser,
    user_key: &Key,
    cred_format: CredFormat,
    vault: &mut Vault,
    kdccomm: &mut K,
) -> (r: Result<(), Error>)
    requires
        crate::cipher::key_wf(*user_key),
        vault_wf(*old(vault)),
    ensures
        vault_wf(*final(vault)),
        *old(vault) is Buf && r is Ok ==> vault_format(*final(vault)) == Some(cred_format),
        *old(vault) is Buf && r is Ok ==> vault_creds(*final(vault)).len() == vault_creds(
            *old(vault),
        ).len() + 1,
        *old(vault) is Buf && r is Ok && cred_format == CredFormat::Krb ==> vault_creds(
            *final(vault),
        ).drop_last() == vault_creds(*old(vault)) && requested_cred_ok(
            vault_creds(*final(vault)).last(),
        ),
{
    let channel = kdccomm.create_channel(user.realm.as_str())?;
    let tgt = request_tgt(user, user_key, None, &channel)?;
    let ghost before = vault_creds(*vault);
    vault.add(tgt);
    vault.change_format(cred_format)?;
    proof {
        assert(before.push(vault_creds(*vault).last()).drop_last() =~~= before);
    }
    Ok(())
}

/// Asks for a TGS for the chosen service (from a cached or fresh TGT),
/// optionally renames the stored service, and stores it in the vault.
pub fn ask_tgs<K: KdcComm>(
    user: &KrbUser,
    service: &str,
    rename_service: Option<&str>,
    user_key: Option<&Key>,
    cred_format: CredFormat,
    vault: &mut Vault,
    kdccomm: &mut K,
) -> (r: Result<(), Error>)
    requires
        match user_key {
            Some(k) => crate::cipher::key_wf(*k),
            None => true,
        },
        vault_wf(*old(vault)),
    ensures
        vault_wf(*final(vault)),
        *old(vault) is Buf && r is Ok ==> vault_format(*final(vault)) == Some(cred_format),
        *old(vault) is Buf && r is Ok ==> vault_creds(*old(vault)).len() + 1 <= vault_creds(
            *final(vault),
        ).len() <= vault_creds(*old(vault)).len() + 2,
        *old(vault) is Buf && r is Ok && cred_format == CredFormat::Krb ==> {
            &&& vault_creds(*old(vault)).is_prefix_of(vault_creds(*final(vault)))
            &&& requested_cred_ok(vault_creds(*final(vault)).last())
            &&& (rename_service matches Some(rn) ==> vault_creds(
                *final(vault),
            ).last().cred_info.sname == Some(crate::krb_types::nt_srv_inst_v(rn@)) && vault_creds(
                *final(vault),
            ).last().ticket.sname == crate::krb_types::nt_srv_inst_v(rn@))
        },
{
    let ghost oldc = vault_creds(*vault);
    let channel = kdccomm.create_channel(user.realm.as_str())?;
    let tgt = get_user_tgt(user, user_key, None, vault, &channel)?;
    let ghost midc = vault_creds(*vault);
    let mut tgs = request_regular_tgs(user, new_nt_srv_inst(service), &tgt, None, kdccomm)?;
    match rename_service {
        Some(rename) => {
            let pn = new_nt_srv_inst(rename);
            proof {
                assert(pn@.name_string =~~= crate::krb_types::nt_srv_inst_v(rename@).name_string);
                assert(pn@ == crate::krb_types::nt_srv_inst_v(rename@));
            }
            tgs.change_sname(pn);
        },
        None => {},
    }
    let ghost t = tgs@;
    vault.add(tgs);
    vault.change_format(cred_format)?;
    proof {
        lemma_pushes_prefix3(oldc, midc, midc, t, vault_creds(*vault), cred_format);
    }
    Ok(())
}

/// Asks for an S4U2Self TGS: a ticket to the user's own service in the name
/// of the impersonated principal, stored in the vault.
pub fn ask_s4u2self<K: KdcComm>(
    user: &KrbUser,
    impersonate_user: KrbUser,
    user_service: Option<String>,
    vault: &mut Vault,
    user_key: Option<&Key>,
    cred_format: CredFormat,
    kdccomm: &mut K,
) -> (r: Result<(), Error>)
    requires
        match user_key {
            Some(k) => crate::cipher::key_wf(*k),
            None => true,
        },
        vault_wf(*old(vault)),
    ensures
        vault_wf(*final(vault)),
        *old(vault) is Buf && r is Ok ==> vault_format(*final(vault)) == Some(cred_format),
        *old(vault) is Buf && r is Ok ==> vault_creds(*old(vault)).len() + 1 <= vault_creds(
            *final(vault),
        ).len() <= vault_creds(*old(vault)).len() + 2,
        *old(vault) is Buf && r is Ok && cred_format == CredFormat::Krb ==> vault_creds(
            *old(vault),
        ).is_prefix_of(vault_creds(*final(vault))) && requested_cred_ok(
            vault_creds(*final(vault)).last(),
        ),
{
    let ghost oldc = vault_creds(*vault);
    let channel = kdccomm.create_channel(user.realm.as_str())?;
    let tgt = get_user_tgt(user, user_key, None, vault, &channel)?;
    let ghost midc = vault_creds(*vault);
    let s4u2self_tgs = crate::requesters::request_s4u2self_tgs(
        user,
        impersonate_user,
        user_service,
        &tgt,
        kdccomm,
    )?;
    let ghost t = s4u2self_tgs@;
    vault.add(s4u2self_tgs);
    vault.change_format(cred_format)?;
    proof {
        lemma_pushes_prefix3(oldc, midc, midc, t, vault_creds(*vault), cred_format);
    }
    Ok(())
}

/// Asks for an S4U2Proxy TGS: obtains the caller's TGT and an S4U2Self TGS
/// (cached or fresh), issues the S4U2Proxy request against the local realm,
/// and — when the reply is itself a TGT for another realm — follows that
/// referral once: an inter-realm TGT for the target realm is requested, a
/// channel to that realm's KDC is opened, and the S4U2Proxy request is
/// re-issued there.
pub fn ask_s4u2proxy<K: KdcComm>(
    user: &KrbUser,
    impersonate_user: KrbUser,
    service: &str,
    user_service: Option<String>,
    rename_service: Option<&str>,
    vault: &mut Vault,
    user_key: Option<&Key>,
    cred_format: CredFormat,
    kdccomm: &mut K,
) -> (r: Result<(), Error>)
    requires
        match user_key {
            Some(k) => crate::cipher::key_wf(*k),
            None => true,
        },
        vault_wf(*old(vault)),
    ensures
        vault_wf(*final(vault)),
        *old(vault) is Buf && r is Ok ==> vault_format(*final(vault)) == Some(cred_format),
        *old(vault) is Buf && r is Ok ==> vault_creds(*old(vault)).len() + 1 <= vault_creds(
            *final(vault),
        ).len() <= vault_creds(*old(vault)).len() + 3,
        *old(vault) is Buf && r is Ok && cred_format == CredFormat::Krb ==> {
            &&& vault_creds(*old(vault)).is_prefix_of(vault_creds(*final(vault)))
            &&& requested_cred_ok(vault_creds(*final(vault)).last())
            &&& (rename_service matches Some(rn) ==> vault_creds(
                *final(vault),
            ).last().cred_info.sname == Some(crate::krb_types::nt_srv_inst_v(rn@)) && vault_creds(
                *final(vault),
            ).last().ticket.sname == crate::krb_types::nt_srv_inst_v(rn@))
        },
{
    let ghost oldc = vault_creds(*vault);
    let channel = kdccomm.create_channel(user.realm.as_str())?;
    let tgt = get_user_tgt(user, user_key, None, vault, &channel)?;
    let ghost midc1 = vault_creds(*vault);
    let s4u2self_tgs = get_impersonation_ticket(
        user,
        impersonate_user,
        user_service,
        &tgt,
        vault,
        kdccomm,
    )?;
    let ghost midc2 = vault_creds(*vault);
    let mut tgs_proxy = request_tgs(
        user,
        user.realm.as_str(),
        &tgt,
        &S4u::S4u2proxy(s4u2self_tgs.ticket.clone(), service.to_owned()),
        None,
        &channel,
    )?;
    if tgs_proxy.is_tgt() && !tgs_proxy.is_tgt_for_realm(user.realm.as_str()) {
        let dst_realm: String = match tgs_proxy.service_host() {
            Some(h) => h.clone(),
            None => {
                return Err(
                    Error::StringError(
                        String::from_str("Unable to get the inter-realm TGT domain"),
                    ),
                );
            },
        };
        let mut inter_service: String = String::new();
        inter_service.append("krbtgt/");
        inter_service.append(dst_realm.as_str());
        let inter_tgt = request_regular_tgs(
            user,
            new_nt_srv_inst(inter_service.as_str()),
            &tgt,
            None,
            kdccomm,
        )?;
        let channel = kdccomm.create_channel(dst_realm.as_str())?;
        tgs_proxy = request_tgs(
            user,
            dst_realm.as_str(),
            &inter_tgt,
            &S4u::S4u2proxy(tgs_proxy.ticket, service.to_owned()),
            None,
            &channel,
        )?;
    }
    match rename_service {
        Some(rename) => {
            let pn = new_nt_srv_inst(rename);
            proof {
                assert(pn@.name_string =~~= crate::krb_types::nt_srv_inst_v(rename@).name_string);
                assert(pn@ == crate::krb_types::nt_srv_inst_v(rename@));
            }
            tgs_proxy.change_sname(pn);
        },
        None => {},
    }
    let ghost t = tgs_proxy@;
    vault.add(tgs_proxy);
    vault.change_format(cred_format)?;
    proof {
        lemma_pushes_prefix3(oldc, midc1, midc2, t, vault_creds(*vault), cred_format);
    }
    Ok(())
}

/// Growing a store by at most three entries keeps the old contents a prefix
/// (when the final normalization was the identity, as under the KRB format).
proof fn lemma_pushes_prefix3(
    oldc: Seq<crate::ticket_cred::TicketCredV>,
    midc1: Seq<crate::ticket_cred::TicketCredV>,
    midc2: Seq<crate::ticket_cred::TicketCredV>,
    t: crate::ticket_cred::TicketCredV,
    finalc: Seq<crate::ticket_cred::TicketCredV>,
    cred_format: CredFormat,
)
    requires
        midc1 == oldc || exists|t2: crate::ticket_cred::TicketCredV| midc1 == oldc.push(t2),
        midc2 == midc1 || exists|t2: crate::ticket_cred::TicketCredV| midc2 == midc1.push(t2),
        cred_format == CredFormat::Krb ==> finalc == midc2.push(t),
    ensures
        cred_format == CredFormat::Krb ==> oldc.is_prefix_of(finalc) && finalc.last() == t
            && finalc.len() >= oldc.len() + 1,
{
    if cred_format == CredFormat::Krb {
        assert(finalc.take(oldc.len() as int) =~= oldc);
    }
}

/// The ASK decision table. With a service and an impersonated user,
/// S4U2Proxy; with only a service, a plain TGS; with only an impersonated
/// user, S4U2Self; with neither, a TGT — which requires credentials.
pub fn ask<K: KdcComm>(
    user: &KrbUser,
    user_key: Option<&Key>,
    impersonate_user: Option<KrbUser>,
    service: Option<String>,
    user_service: Option<String>,
    rename_service: Option<String>,
    vault: &mut Vault,
    credential_format: CredFormat,
    kdccomm: &mut K,
) -> (r: Result<(), Error>)
    requires
        match user_key {
            Some(k) => crate::cipher::key_wf(*k),
            None => true,
        },
        vault_wf(*old(vault)),
    ensures
        vault_wf(*final(vault)),
        service is None && impersonate_user is None && user_key is None ==> (r matches Err(e)
            && e is StringError && *final(vault) == *old(vault)),
{
    let rename: Option<&str> = match &rename_service {
        Some(s) => Some(s.as_str()),
        None => None,
    };
    match service {
        Some(service) => match impersonate_user {
            Some(impersonate_user) => ask_s4u2proxy(
                user,
                impersonate_user,
                service.as_str(),
                user_service,
                rename,
                vault,
                user_key,
                credential_format,
                kdccomm,
            ),
            None => ask_tgs(
                user,
                service.as_str(),
                rename,
                user_key,
                credential_format,
                vault,
                kdccomm,
            ),
        },
        None => match impersonate_user {
            Some(impersonate_user) => ask_s4u2self(
                user,
                impersonate_user,
                user_service,
                vault,
                user_key,
                credential_format,
                kdccomm,
            ),
            None => match user_key {
                Some(user_key) => ask_tgt(user, user_key, credential_format, vault, kdccomm),
                None => Err(
                    Error::StringError(String::from_str("Required credentials to request a TGT")),
                ),
            },
        },
    }
}

} // verus!
