//! Credential vaults: a memory-backed store, an accept-and-discard reference
//! store, and the capability interface over them as a tagged variant.
//! File persistence lives outside the library; a file-backed caller loads
//! bytes into a memory vault and writes its encoding back.

use vstd::prelude::*;
use crate::codec::ccache_bytes;
use crate::codec::ccache_parse;
use crate::codec::creds_wf;
use crate::codec::rebuild_ticket_creds;
use crate::codec::tcv_krb_encodable;
use crate::cred_format::CredFormat;
use crate::error::Error;
use crate::krb_user::KrbUser;
use crate::krb_types::nt_principal_v;
use crate::ticket_cred::TicketCred;
use crate::ticket_cred::TicketCredV;
use crate::ticket_cred::TicketCreds;
use crate::ticket_cred::tcv_pname_is;
use crate::ticket_cred::tcv_prealm_is;
use crate::ticket_cred::tcv_sname_is;
use crate::ticket_cred::tcv_srealm_is;
use crate::ticket_cred::s4u2self_sname_v;

verus! {

/// Vault that exists entirely in memory, for when the caller cannot or does
/// not want to touch disk.
pub struct BufVault {
    pub ticket_creds: TicketCreds,
    pub cred_format: CredFormat,
}

impl BufVault {
    pub fn new(cred_format: CredFormat) -> (r: Self)
        ensures
            r.ticket_creds@ == Seq::<TicketCredV>::empty(),
            r.cred_format == cred_format,
    {
        Self { ticket_creds: TicketCreds::empty(), cred_format }
    }
}

/// Reference store for the vault interface: it keeps what is added in
/// memory but persists nothing.
pub struct EmptyVault {
    pub ticket_creds: TicketCreds,
}

impl EmptyVault {
    pub fn new() -> (r: Self)
        ensures
            r.ticket_creds@ == Seq::<TicketCredV>::empty(),
    {
        Self { ticket_creds: TicketCreds::empty() }
    }
}

/// The polymorphic credential store: every capability of the vault
/// interface, dispatched over the concrete shapes.
pub enum Vault {
    Buf(BufVault),
    Empty(EmptyVault),
}

/// The credentials a vault holds.
pub open spec fn vault_creds(v: Vault) -> Seq<TicketCredV> {
    match v {
        Vault::Buf(b) => b.ticket_creds@,
        Vault::Empty(e) => e.ticket_creds@,
    }
}

/// The format a vault reports for its contents.
pub open spec fn vault_format(v: Vault) -> Option<CredFormat> {
    match v {
        Vault::Buf(b) => Some(b.cred_format),
        Vault::Empty(e) => None,
    }
}

/// Every credential a vault holds stays within what the binary formats can
/// carry; all mutating capabilities preserve this.
pub open spec fn vault_wf(v: Vault) -> bool {
    forall|i: int| 0 <= i < vault_creds(v).len() ==> tcv_krb_encodable(#[trigger] vault_creds(v)[i])
}

impl Vault {
    /// An identifier for the store.
    pub fn id(&self) -> (r: &'static str)
        ensures
            self is Buf ==> r@ == "Memory"@,
            self is Empty ==> r@ == "Nowhere"@,
    {
        match self {
            Vault::Buf(_) => "Memory",
            Vault::Empty(_) => "Nowhere",
        }
    }

    /// The format of the current contents, when the store tracks one.
    pub fn support_cred_format(&self) -> (r: Option<CredFormat>)
        ensures
            r == vault_format(*self),
    {
        match self {
            Vault::Buf(b) => Some(b.cred_format),
            Vault::Empty(_) => None,
        }
    }

    /// Appends one credential.
    pub fn add(&mut self, ticket_info: TicketCred)
        requires
            tcv_krb_encodable(ticket_info@),
        ensures
            vault_creds(*final(self)) == vault_creds(*old(self)).push(ticket_info@),
            vault_format(*final(self)) == vault_format(*old(self)),
            vault_wf(*old(self)) ==> vault_wf(*final(self)),
    {
        match self {
            Vault::Buf(b) => b.ticket_creds.push(ticket_info),
            Vault::Empty(e) => e.ticket_creds.push(ticket_info),
        }
    }

    /// A copy of everything the vault holds.
    pub fn dump(&self) -> (r: TicketCreds)
        ensures
            r@ == vault_creds(*self),
    {
        match self {
            Vault::Buf(b) => b.ticket_creds.clone(),
            Vault::Empty(e) => e.ticket_creds.clone(),
        }
    }

    /// Replaces the contents (a no-op for the discarding store).
    pub fn save(&mut self, tickets: TicketCreds)
        requires
            forall|i: int| 0 <= i < tickets@.len() ==> tcv_krb_encodable(#[trigger] tickets@[i]),
        ensures
            *old(self) is Buf ==> vault_creds(*final(self)) == tickets@,
            *old(self) is Empty ==> vault_creds(*final(self)) == vault_creds(*old(self)),
            vault_format(*final(self)) == vault_format(*old(self)),
            vault_wf(*old(self)) ==> vault_wf(*final(self)),
    {
        match self {
            Vault::Buf(b) => {
                b.ticket_creds = tickets;
            },
            Vault::Empty(_) => {},
        }
    }

    /// Stores the credentials in the chosen format, round-tripping them
    /// through that binary format first so that field encodings are
    /// normalised; a parse failure is surfaced and leaves the store
    /// untouched.
    pub fn save_as(&mut self, tickets: TicketCreds, cred_format: CredFormat) -> (r: Result<
        (),
        Error,
    >)
        requires
            forall|i: int| 0 <= i < tickets@.len() ==> tcv_krb_encodable(#[trigger] tickets@[i]),
        ensures
            *old(self) is Empty ==> (r is Ok && *final(self) == *old(self)),
            *old(self) is Buf && cred_format == CredFormat::Krb ==> (r is Ok && vault_creds(
                *final(self),
            ) == tickets@),
            *old(self) is Buf && creds_wf(tickets@) ==> (r is Ok && vault_creds(*final(self))
                == tickets@),
            *old(self) is Buf && r is Ok ==> vault_format(*final(self)) == Some(cred_format),
            *old(self) is Buf && r is Ok ==> vault_creds(*final(self)).len() == tickets@.len() && (
            vault_creds(*final(self)) == tickets@ || creds_wf(vault_creds(*final(self)))),
            (*old(self) is Buf && cred_format == CredFormat::Ccache) ==> match ccache_bytes(
                tickets@,
            ) {
                Some(b) => match ccache_parse(b) {
                    Some(c) => r is Ok && vault_creds(*final(self)) == c,
                    None => r is Err,
                },
                None => r is Err,
            },
            r is Err ==> *final(self) == *old(self) && (r matches Err(e) && e is DataError),
            vault_wf(*old(self)) && r is Ok ==> vault_wf(*final(self)),
    {
        match self {
            Vault::Buf(b) => {
                let rebuilt = rebuild_ticket_creds(&tickets, cred_format)?;
                b.cred_format = cred_format;
                b.ticket_creds = rebuilt;
                Ok(())
            },
            Vault::Empty(_) => Ok(()),
        }
    }

    /// Re-encodes the contents in the given format: the same as `save_as`
    /// over a dump of the store. Changing the format twice is the same as
    /// changing it once: a second call with the same format finds contents
    /// this call already normalised and leaves them untouched.
    pub fn change_format(&mut self, cred_format: CredFormat) -> (r: Result<(), Error>)
        requires
            vault_wf(*old(self)),
        ensures
            *old(self) is Empty ==> (r is Ok && *final(self) == *old(self)),
            *old(self) is Buf && cred_format == CredFormat::Krb ==> (r is Ok && vault_creds(
                *final(self),
            ) == vault_creds(*old(self))),
            *old(self) is Buf && creds_wf(vault_creds(*old(self))) ==> (r is Ok && vault_creds(
                *final(self),
            ) == vault_creds(*old(self))),
            *old(self) is Buf && r is Ok ==> vault_format(*final(self)) == Some(cred_format),
            *old(self) is Buf && r is Ok ==> vault_creds(*final(self)).len() == vault_creds(
                *old(self),
            ).len() && (vault_creds(*final(self)) == vault_creds(*old(self)) || creds_wf(
                vault_creds(*final(self)),
            )),
            (*old(self) is Buf && cred_format == CredFormat::Ccache) ==> match ccache_bytes(
                vault_creds(*old(self)),
            ) {
                Some(b) => match ccache_parse(b) {
                    Some(c) => r is Ok && vault_creds(*final(self)) == c,
                    None => r is Err,
                },
                None => r is Err,
            },
            r is Err ==> *final(self) == *old(self) && (r matches Err(e) && e is DataError),
            vault_wf(*final(self)),
    {
        let tickets = self.dump();
        self.save_as(tickets, cred_format)
    }

    /// The stored TGTs of this user for the user's own realm.
    pub fn get_user_tgts(&self, user: &KrbUser) -> (r: TicketCreds)
        ensures
            r@ == vault_creds(*self).filter(
                |t: TicketCredV| crate::ticket_cred::tcv_is_tgt_for_realm(t, user.realm@),
            ).filter(|t: TicketCredV| tcv_prealm_is(t, user.realm@)).filter(
                |t: TicketCredV| tcv_pname_is(t, nt_principal_v(user.name@)),
            ),
            forall|i: int| 0 <= i < r@.len() ==> vault_creds(*self).contains(#[trigger] r@[i]),
    {
        match self {
            Vault::Buf(b) => b.ticket_creds.user_tgt_realm(user, user.realm.as_str()),
            Vault::Empty(e) => e.ticket_creds.user_tgt_realm(user, user.realm.as_str()),
        }
    }

    /// The stored S4U2Self TGSs impersonating `impersonate_user` towards
    /// `user`'s service (or the user's NT-ENTERPRISE name).
    pub fn s4u2self_tgss(
        &self,
        user: &KrbUser,
        impersonate_user: &KrbUser,
        user_service: Option<&String>,
    ) -> (r: TicketCreds)
        ensures
            r@ == vault_creds(*self).filter(
                |t: TicketCredV| tcv_prealm_is(t, impersonate_user.realm@),
            ).filter(|t: TicketCredV| tcv_pname_is(t, nt_principal_v(impersonate_user.name@))).filter(
                |t: TicketCredV| tcv_sname_is(
                    t,
                    s4u2self_sname_v(user_service.deep_view(), user.name@, user.realm@),
                ),
            ).filter(|t: TicketCredV| tcv_srealm_is(t, user.realm@)),
            forall|i: int| 0 <= i < r@.len() ==> vault_creds(*self).contains(#[trigger] r@[i]),
    {
        match self {
            Vault::Buf(b) => b.ticket_creds.s4u2self_tgss(user, impersonate_user, user_service),
            Vault::Empty(e) => e.ticket_creds.s4u2self_tgss(user, impersonate_user, user_service),
        }
    }
}

} // verus!
