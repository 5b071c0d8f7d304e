//! Credential orchestration helpers: a TGT from the vault or freshly
//! requested, and an S4U2Self TGS from the vault or freshly requested.

use vstd::prelude::*;
use crate::channel::KdcComm;
use crate::channel::KrbChannel;
use crate::cipher::Key;
use crate::codec::tcv_krb_encodable;
use crate::error::Error;
use crate::krb_user::KrbUser;
use crate::requesters::request_s4u2self_tgs;
use crate::requesters::request_tgt;
use crate::requesters::requested_cred_ok;
use crate::ticket_cred::TicketCred;
use crate::ticket_cred::TicketCredV;
use crate::ticket_cred::lemma_contains_trans;
use crate::vault::Vault;
use crate::vault::vault_creds;
use crate::vault::vault_format;
use crate::vault::vault_wf;

verus! {

/// The cached TGTs the lookup considers: the vault's TGTs for the user,
/// narrowed to the asked-for etype when there is one.
pub open spec fn cached_tgts_v(v: Vault, user: KrbUser, etype: Option<i32>) -> Seq<
    crate::ticket_cred::TicketCredV,
> {
    let base = vault_creds(v).filter(
        |t: crate::ticket_cred::TicketCredV| crate::ticket_cred::tcv_is_tgt_for_realm(
            t,
            user.realm@,
        ),
    ).filter(|t: crate::ticket_cred::TicketCredV| crate::ticket_cred::tcv_prealm_is(t, user.realm@)).filter(
        |t: crate::ticket_cred::TicketCredV| crate::ticket_cred::tcv_pname_is(
            t,
            crate::krb_types::nt_principal_v(user.name@),
        ),
    );
    match etype {
        Some(e) => base.filter(
            |t: crate::ticket_cred::TicketCredV| crate::ticket_cred::tcv_etype_is(t, e as int),
        ),
        None => base,
    }
}

/// The TGT cached in the vault for this user (and etype, when one is asked
/// for), if any: the first matching entry; every returned credential is one
/// the vault holds.
pub fn get_user_tgt_from_file(user: &KrbUser, vault: &Vault, etype: Option<i32>) -> (r: Result<
    TicketCred,
    Error,
>)
    ensures
        r matches Ok(tc) ==> vault_creds(*vault).contains(tc@),
        r matches Err(e) ==> e is StringError,
        match r {
            Ok(tc) => cached_tgts_v(*vault, *user, etype).len() > 0 && tc@ == cached_tgts_v(
                *vault,
                *user,
                etype,
            )[0],
            Err(_) => cached_tgts_v(*vault, *user, etype).len() == 0,
        },
{
    let tgts = vault.get_user_tgts(user);
    proof {
        assert forall|i: int| 0 <= i < tgts@.len() implies vault_creds(*vault).contains(
            #[trigger] tgts@[i],
        ) by {}
    }
    if tgts.is_empty() {
        return Err(Error::StringError(String::from_str("No TGT found for user")));
    }
    let tgts = match etype {
        Some(e) => {
            let narrowed = tgts.etype(e);
            proof {
                lemma_contains_trans(vault_creds(*vault), tgts@, narrowed@);
            }
            if narrowed.is_empty() {
                return Err(
                    Error::StringError(String::from_str("No TGT with requested etype found")),
                );
            }
            narrowed
        },
        None => tgts,
    };
    match tgts.get(0) {
        Some(t) => {
            let r = t.clone();
            proof {
                assert(vault_creds(*vault).contains(tgts@[0]));
            }
            Ok(r)
        },
        None => Err(Error::StringError(String::from_str("No TGT found for user"))),
    }
}

/// A credential the vault holds stays within what the formats carry.
proof fn lemma_vault_member_encodable(v: Vault, t: TicketCredV)
    requires
        vault_wf(v),
        vault_creds(v).contains(t),
    ensures
        tcv_krb_encodable(t),
{
    let i = choose|i: int| 0 <= i < vault_creds(v).len() && vault_creds(v)[i] == t;
    assert(tcv_krb_encodable(vault_creds(v)[i]));
}

/// A TGT for the user: the cached one when the vault has it, otherwise a
/// fresh request with the user's key, which is then added to the vault.
/// Missing credentials, or an etype the key cannot produce, are client
/// errors surfaced before anything is sent.
pub fn get_user_tgt<C: KrbChannel>(
    user: &KrbUser,
    user_key: Option<&Key>,
    etype: Option<i32>,
    vault: &mut Vault,
    channel: &C,
) -> (r: Result<TicketCred, Error>)
    requires
        match user_key {
            Some(k) => crate::cipher::key_wf(*k),
            None => true,
        },
        vault_wf(*old(vault)),
    ensures
        vault_wf(*final(vault)),
        vault_format(*final(vault)) == vault_format(*old(vault)),
        vault_creds(*final(vault)) == vault_creds(*old(vault)) || (r matches Ok(tc) && vault_creds(
            *final(vault),
        ) == vault_creds(*old(vault)).push(tc@)),
        r matches Ok(tc) ==> tcv_krb_encodable(tc@),
        cached_tgts_v(*old(vault), *user, etype).len() > 0 ==> (r matches Ok(tc) && tc@
            == cached_tgts_v(*old(vault), *user, etype)[0] && *final(vault) == *old(vault)),
        (cached_tgts_v(*old(vault), *user, etype).len() == 0 && user_key is None) ==> (r matches
        Err(e) && e is StringError && *final(vault) == *old(vault)),
        (cached_tgts_v(*old(vault), *user, etype).len() == 0 && (user_key matches Some(k)
            && (etype matches Some(e) && !crate::cipher::key_supports_etype(*k, e as int)))) ==> (
        r matches Err(err) && err is StringError && *final(vault) == *old(vault)),
        (cached_tgts_v(*old(vault), *user, etype).len() == 0 && r is Ok) ==> (r matches Ok(tc)
            && requested_cred_ok(tc@) && vault_creds(*final(vault)) == vault_creds(
            *old(vault),
        ).push(tc@)),
        r is Err ==> *final(vault) == *old(vault),
{
    match get_user_tgt_from_file(user, vault, etype) {
        Ok(tgt) => {
            proof {
                lemma_vault_member_encodable(*vault, tgt@);
            }
            Ok(tgt)
        },
        Err(_) => {
            let user_key = match user_key {
                Some(k) => k,
                None => {
                    return Err(
                        Error::StringError(
                            String::from_str("Unable to request TGT without user credentials"),
                        ),
                    );
                },
            };
            match etype {
                Some(e) => {
                    if !user_key.supports_etype(e) {
                        return Err(
                            Error::StringError(
                                String::from_str("Incompatible etype with provided key"),
                            ),
                        );
                    }
                },
                None => {},
            }
            let tgt = request_tgt(user, user_key, etype, channel)?;
            vault.add(tgt.clone());
            Ok(tgt)
        },
    }
}

/// The cached S4U2Self TGSs the lookup considers.
pub open spec fn cached_s4u2self_v(
    v: Vault,
    user: KrbUser,
    impersonate_user: KrbUser,
    user_service: Option<Seq<char>>,
) -> Seq<TicketCredV> {
    vault_creds(v).filter(
        |t: TicketCredV| crate::ticket_cred::tcv_prealm_is(t, impersonate_user.realm@),
    ).filter(
        |t: TicketCredV| crate::ticket_cred::tcv_pname_is(
            t,
            crate::krb_types::nt_principal_v(impersonate_user.name@),
        ),
    ).filter(
        |t: TicketCredV| crate::ticket_cred::tcv_sname_is(
            t,
            crate::ticket_cred::s4u2self_sname_v(user_service, user.name@, user.realm@),
        ),
    ).filter(|t: TicketCredV| crate::ticket_cred::tcv_srealm_is(t, user.realm@))
}

/// The S4U2Self TGS impersonating `impersonate_user`: the cached one when
/// the vault has it, otherwise a fresh request, which is then added to the
/// vault.
pub fn get_impersonation_ticket<K: KdcComm>(
    user: &KrbUser,
    impersonate_user: KrbUser,
    user_service: Option<String>,
    tgt: &TicketCred,
    vault: &mut Vault,
    kdccomm: &mut K,
) -> (r: Result<TicketCred, Error>)
    requires
        vault_wf(*old(vault)),
    ensures
        vault_wf(*final(vault)),
        vault_format(*final(vault)) == vault_format(*old(vault)),
        vault_creds(*final(vault)) == vault_creds(*old(vault)) || (r matches Ok(tc) && vault_creds(
            *final(vault),
        ) == vault_creds(*old(vault)).push(tc@)),
        r matches Ok(tc) ==> tcv_krb_encodable(tc@),
        cached_s4u2self_v(
            *old(vault),
            *user,
            impersonate_user,
            user_service.deep_view(),
        ).len() > 0 ==> (r matches Ok(tc) && tc@ == cached_s4u2self_v(
            *old(vault),
            *user,
            impersonate_user,
            user_service.deep_view(),
        )[0] && *final(vault) == *old(vault)),
        (cached_s4u2self_v(*old(vault), *user, impersonate_user, user_service.deep_view()).len()
            == 0 && r is Ok) ==> (r matches Ok(tc) && requested_cred_ok(tc@) && vault_creds(
            *final(vault),
        ) == vault_creds(*old(vault)).push(tc@)),
        r is Err ==> *final(vault) == *old(vault),
{
    let tickets = vault.s4u2self_tgss(user, &impersonate_user, user_service.as_ref());
    if !tickets.is_empty() {
        match tickets.get(0) {
            Some(t) => {
                let r = t.clone();
                proof {
                    assert(tickets@.contains(tickets@[0]));
                    lemma_vault_member_encodable(*vault, r@);
                }
                return Ok(r);
            },
            None => {},
        }
    }
    let s4u2self_tgs = request_s4u2self_tgs(user, impersonate_user, user_service, tgt, kdccomm)?;
    vault.add(s4u2self_tgs.clone());
    Ok(s4u2self_tgs)
}

} // verus!
