//! Tickets paired with their client-side `KrbCredInfo`, and the ordered,
//! filterable collection of them that vaults store.

use vstd::prelude::*;
use crate::constants::NT_SRV_INST;
use crate::krb_types::KrbCredInfo;
use crate::krb_types::KrbCredInfoV;
use crate::krb_types::PrincipalName;
use crate::krb_types::PrincipalNameV;
use crate::krb_types::Ticket;
use crate::krb_types::TicketV;
use crate::krb_types::new_nt_enterprise;
use crate::krb_types::new_nt_principal;
use crate::krb_types::new_nt_srv_inst;
use crate::krb_types::nt_principal_v;
use crate::krb_types::nt_enterprise_v;
use crate::krb_types::pn_eq_fold;
use crate::krb_user::KrbUser;
use crate::text::eq_fold;
use crate::text::eq_ignore_case;
use crate::text::lower_chars;
use crate::text::split_on;
use crate::text::str_eq;
use crate::text::upper_chars;
use crate::text::lemma_fold_of_upper;

verus! {

/// A ticket and the related client information, such as the session key.
#[derive(Debug)]
pub struct TicketCred {
    pub ticket: Ticket,
    pub cred_info: KrbCredInfo,
}

/// The spec-level value of a `TicketCred`.
pub struct TicketCredV {
    pub ticket: TicketV,
    pub cred_info: KrbCredInfoV,
}

impl View for TicketCred {
    type V = TicketCredV;

    open spec fn view(&self) -> TicketCredV {
        TicketCredV { ticket: self.ticket@, cred_info: self.cred_info@ }
    }
}

impl DeepView for TicketCred {
    type V = TicketCredV;

    open spec fn deep_view(&self) -> TicketCredV {
        self.view()
    }
}

impl Clone for TicketCred {
    fn clone(&self) -> (r: Self)
        ensures
            r@ == self@,
    {
        TicketCred { ticket: self.ticket.clone(), cred_info: self.cred_info.clone() }
    }
}

/// A ticket is a TGT exactly when the first label of its service name is the
/// literal `krbtgt` (case-sensitive: it is always lowercase on the wire).
pub open spec fn tcv_is_tgt(t: TicketCredV) -> bool {
    match t.cred_info.sname {
        Some(n) => n.name_string.len() > 0 && n.name_string[0] == "krbtgt"@,
        None => false,
    }
}

/// The second label of the service name, which for a TGT names the realm it
/// grants tickets for.
pub open spec fn tcv_service_host(t: TicketCredV) -> Option<Seq<char>> {
    match t.cred_info.sname {
        Some(n) => if n.name_string.len() >= 2 {
            Some(n.name_string[1])
        } else {
            None
        },
        None => None,
    }
}

/// A TGT for realm `realm`: a TGT whose second service label is that realm,
/// compared case-insensitively.
pub open spec fn tcv_is_tgt_for_realm(t: TicketCredV, realm: Seq<char>) -> bool {
    tcv_is_tgt(t) && match tcv_service_host(t) {
        Some(h) => eq_fold(h, realm),
        None => false,
    }
}

/// The ticket serves `s`: its service name matches label-wise
/// case-insensitively.
pub open spec fn tcv_is_for_service(t: TicketCredV, s: PrincipalNameV) -> bool {
    match t.cred_info.sname {
        Some(n) => pn_eq_fold(n, s),
        None => false,
    }
}

/// The session key was produced under encryption type `etype`.
pub open spec fn tcv_etype_is(t: TicketCredV, etype: int) -> bool {
    t.cred_info.key.keytype == etype
}

/// The client realm is `realm`, case-insensitively.
pub open spec fn tcv_prealm_is(t: TicketCredV, realm: Seq<char>) -> bool {
    match t.cred_info.prealm {
        Some(r) => eq_fold(r, realm),
        None => false,
    }
}

/// The client name matches `n` label-wise case-insensitively.
pub open spec fn tcv_pname_is(t: TicketCredV, n: PrincipalNameV) -> bool {
    match t.cred_info.pname {
        Some(p) => pn_eq_fold(p, n),
        None => false,
    }
}

/// The service realm is `realm`, case-insensitively.
pub open spec fn tcv_srealm_is(t: TicketCredV, realm: Seq<char>) -> bool {
    match t.cred_info.srealm {
        Some(r) => eq_fold(r, realm),
        None => false,
    }
}

/// The service name matches `n` label-wise case-insensitively.
pub open spec fn tcv_sname_is(t: TicketCredV, n: PrincipalNameV) -> bool {
    match t.cred_info.sname {
        Some(p) => pn_eq_fold(p, n),
        None => false,
    }
}

/// Some label of the service name equals `name` case-insensitively.
pub open spec fn tcv_has_service_label(t: TicketCredV, name: Seq<char>) -> bool {
    match t.cred_info.sname {
        Some(n) => exists|i: int| 0 <= i < n.name_string.len() && eq_fold(n.name_string[i], name),
        None => false,
    }
}

impl TicketCred {
    pub fn new(ticket: Ticket, cred_info: KrbCredInfo) -> (r: Self)
        ensures
            r.ticket == ticket,
            r.cred_info == cred_info,
    {
        Self { ticket, cred_info }
    }

    /// Whether this ticket is a TGT: the first service label is `krbtgt`.
    pub fn is_tgt(&self) -> (r: bool)
        ensures
            r == tcv_is_tgt(self@),
    {
        match &self.cred_info.sname {
            Some(sname) => {
                if sname.name_string.len() > 0 {
                    let r = str_eq(sname.name_string[0].as_str(), "krbtgt");
                    proof {
                        assert(self@.cred_info.sname->Some_0.name_string[0]
                            == sname.name_string@[0]@);
                    }
                    r
                } else {
                    false
                }
            },
            None => false,
        }
    }

    /// Whether this ticket is a TGT for the given realm (case-insensitive).
    pub fn is_tgt_for_realm(&self, realm: &str) -> (r: bool)
        ensures
            r == tcv_is_tgt_for_realm(self@, realm@),
    {
        if self.is_tgt() {
            match self.service_host() {
                Some(host) => eq_ignore_case(host.as_str(), realm),
                None => false,
            }
        } else {
            false
        }
    }

    /// Whether this ticket is for the given service name (case-insensitive).
    pub fn is_for_service(&self, service: &PrincipalName) -> (r: bool)
        ensures
            r == tcv_is_for_service(self@, service@),
    {
        match &self.cred_info.sname {
            Some(srv) => srv.eq_insensitive(service),
            None => false,
        }
    }

    /// The service name, when the cred info carries one.
    pub fn service(&self) -> (r: Option<&PrincipalName>)
        ensures
            match r {
                Some(p) => self@.cred_info.sname == Some(p@),
                None => self@.cred_info.sname is None,
            },
    {
        match &self.cred_info.sname {
            Some(p) => Some(p),
            None => None,
        }
    }

    /// The second label of the service name (a TGT's realm), if present.
    pub fn service_host(&self) -> (r: Option<&String>)
        ensures
            match r {
                Some(h) => tcv_service_host(self@) == Some(h@),
                None => tcv_service_host(self@) is None,
            },
    {
        match &self.cred_info.sname {
            Some(sname) => {
                let r = sname.name_string.get(1);
                proof {
                    if sname.name_string@.len() >= 2 {
                        assert(self@.cred_info.sname->Some_0.name_string[1]
                            == sname.name_string@[1]@);
                    }
                }
                r
            },
            None => None,
        }
    }

    /// Renames the service: the outer ticket's `sname` and the cred info's
    /// `sname` are updated together; everything else is untouched.
    pub fn change_sname(&mut self, sname: PrincipalName)
        ensures
            final(self)@.ticket.sname == sname@,
            final(self)@.cred_info.sname == Some(sname@),
            final(self)@.ticket.tkt_vno == old(self)@.ticket.tkt_vno,
            final(self)@.ticket.realm == old(self)@.ticket.realm,
            final(self)@.ticket.enc_part == old(self)@.ticket.enc_part,
            final(self)@.cred_info.key == old(self)@.cred_info.key,
            final(self)@.cred_info.prealm == old(self)@.cred_info.prealm,
            final(self)@.cred_info.pname == old(self)@.cred_info.pname,
            final(self)@.cred_info.flags == old(self)@.cred_info.flags,
            final(self)@.cred_info.authtime == old(self)@.cred_info.authtime,
            final(self)@.cred_info.starttime == old(self)@.cred_info.starttime,
            final(self)@.cred_info.endtime == old(self)@.cred_info.endtime,
            final(self)@.cred_info.renew_till == old(self)@.cred_info.renew_till,
            final(self)@.cred_info.srealm == old(self)@.cred_info.srealm,
    {
        self.ticket.sname = sname.clone();
        self.cred_info.sname = Some(sname);
    }
}

/// An ordered sequence of `TicketCred` with lazy filters; no filter mutates
/// the source.
#[derive(Debug)]
pub struct TicketCreds {
    pub ticket_creds: Vec<TicketCred>,
}

impl View for TicketCreds {
    type V = Seq<TicketCredV>;

    open spec fn view(&self) -> Seq<TicketCredV> {
        self.ticket_creds.deep_view()
    }
}

impl Clone for TicketCreds {
    fn clone(&self) -> (r: Self)
        ensures
            r@ == self@,
    {
        let mut out: Vec<TicketCred> = Vec::new();
        let mut i: usize = 0;
        while i < self.ticket_creds.len()
            invariant
                i <= self.ticket_creds@.len(),
                out.deep_view() == self.ticket_creds.deep_view().take(i as int),
            decreases self.ticket_creds@.len() - i,
        {
            let ghost prev = out.deep_view();
            out.push(self.ticket_creds[i].clone());
            proof {
                assert(out.deep_view() =~~= prev.push(out@.last()@));
                assert(self.ticket_creds.deep_view()[i as int]
                    == self.ticket_creds@[i as int]@);
                assert(out.deep_view() =~~= self.ticket_creds.deep_view().take(i + 1 as int));
            }
            i = i + 1;
        }
        proof {
            assert(self.ticket_creds.deep_view().take(self.ticket_creds.deep_view().len() as int)
                =~~= self.ticket_creds.deep_view());
        }
        TicketCreds { ticket_creds: out }
    }
}

impl TicketCreds {
    pub fn new(ticket_creds: Vec<TicketCred>) -> (r: Self)
        ensures
            r@ == ticket_creds.deep_view(),
    {
        Self { ticket_creds }
    }

    pub fn empty() -> (r: Self)
        ensures
            r@ == Seq::<TicketCredV>::empty(),
    {
        let r = Self { ticket_creds: Vec::new() };
        proof {
            assert(r@ =~~= Seq::<TicketCredV>::empty());
        }
        r
    }

    pub fn push(&mut self, ticket_info: TicketCred)
        ensures
            final(self)@ == old(self)@.push(ticket_info@),
    {
        let ghost prev = self@;
        self.ticket_creds.push(ticket_info);
        proof {
            assert(self@ =~~= prev.push(self.ticket_creds@.last()@));
        }
    }

    /// An iterator over the stored credentials.
    pub fn iter(&self) -> std::slice::Iter<'_, TicketCred> {
        self.ticket_creds.as_slice().iter()
    }

    pub fn is_empty(&self) -> (r: bool)
        ensures
            r == (self@.len() == 0),
    {
        self.ticket_creds.is_empty()
    }

    pub fn get(&self, index: usize) -> (r: Option<&TicketCred>)
        ensures
            match r {
                Some(t) => index < self@.len() && t@ == self@[index as int],
                None => index >= self@.len(),
            },
    {
        let r = self.ticket_creds.get(index);
        proof {
            if index < self.ticket_creds@.len() {
                assert(self@[index as int] == self.ticket_creds@[index as int]@);
            }
        }
        r
    }

    /// An eager copy holding the entries the caller's predicate accepts, in
    /// order. Every kept entry is (the value of) an entry of the source.
    pub fn filter<F: Fn(&TicketCred) -> bool>(&self, predicate: F) -> (r: Self)
        requires
            forall|t: &TicketCred| #[trigger] predicate.requires((t,)),
        ensures
            r@.len() <= self@.len(),
            forall|i: int| 0 <= i < r@.len() ==> self@.contains(#[trigger] r@[i]),
    {
        let mut out: Vec<TicketCred> = Vec::new();
        let mut i: usize = 0;
        while i < self.ticket_creds.len()
            invariant
                i <= self.ticket_creds@.len(),
                out.deep_view().len() <= i,
                forall|k: int|
                    0 <= k < out.deep_view().len() ==> self.ticket_creds.deep_view().contains(
                        #[trigger] out.deep_view()[k],
                    ),
                forall|t: &TicketCred| #[trigger] predicate.requires((t,)),
            decreases self.ticket_creds@.len() - i,
        {
            if predicate(&self.ticket_creds[i]) {
                let ghost prev = out.deep_view();
                out.push(self.ticket_creds[i].clone());
                proof {
                    assert(out.deep_view() =~~= prev.push(out@.last()@));
                    assert(out@.last()@ == self.ticket_creds@[i as int]@);
                    assert(self.ticket_creds.deep_view()[i as int]
                        == self.ticket_creds@[i as int]@);
                    assert forall|k: int|
                        0 <= k < out.deep_view().len() implies self.ticket_creds.deep_view()
                        .contains(#[trigger] out.deep_view()[k]) by {
                        if k < prev.len() {
                            assert(out.deep_view()[k] == prev[k]);
                        } else {
                            assert(out.deep_view()[k]
                                == self.ticket_creds.deep_view()[i as int]);
                        }
                    }
                }
            }
            i = i + 1;
        }
        TicketCreds { ticket_creds: out }
    }
}

/// The filters a `TicketCreds` supports, as data: one variant per criterion.
enum FilterSel {
    ByEtype(i32),
    ByPrealm(String),
    ByPname(PrincipalName),
    BySrealm(String),
    BySname(PrincipalName),
    ByServiceLabel(String),
    ByTgt,
    ByTgtRealm(String),
}

/// What each selector accepts.
spec fn sel_matches(sel: FilterSel, t: TicketCredV) -> bool {
    match sel {
        FilterSel::ByEtype(e) => tcv_etype_is(t, e as int),
        FilterSel::ByPrealm(r) => tcv_prealm_is(t, r@),
        FilterSel::ByPname(n) => tcv_pname_is(t, n@),
        FilterSel::BySrealm(r) => tcv_srealm_is(t, r@),
        FilterSel::BySname(n) => tcv_sname_is(t, n@),
        FilterSel::ByServiceLabel(l) => tcv_has_service_label(t, l@),
        FilterSel::ByTgt => tcv_is_tgt(t),
        FilterSel::ByTgtRealm(r) => tcv_is_tgt_for_realm(t, r@),
    }
}

impl PrincipalName {
    /// Whether some label equals `name` case-insensitively.
    fn has_label_fold(&self, name: &str) -> (r: bool)
        ensures
            r == exists|i: int|
                0 <= i < self@.name_string.len() && eq_fold(self@.name_string[i], name@),
    {
        let mut i: usize = 0;
        while i < self.name_string.len()
            invariant
                i <= self.name_string@.len(),
                forall|j: int| 0 <= j < i ==> !eq_fold(self@.name_string[j], name@),
            decreases self.name_string@.len() - i,
        {
            if eq_ignore_case(self.name_string[i].as_str(), name) {
                proof {
                    assert(self@.name_string[i as int] == self.name_string@[i as int]@);
                }
                return true;
            }
            proof {
                assert(self@.name_string[i as int] == self.name_string@[i as int]@);
            }
            i = i + 1;
        }
        false
    }
}

/// Every element of a filtered sequence is an element of the source.
pub proof fn lemma_filter_membership<A>(s: Seq<A>, p: spec_fn(A) -> bool)
    ensures
        forall|i: int| 0 <= i < s.filter(p).len() ==> s.contains(#[trigger] s.filter(p)[i]),
    decreases s.len(),
{
    reveal(Seq::filter);
    if s.len() > 0 {
        lemma_filter_membership(s.drop_last(), p);
        assert forall|i: int| 0 <= i < s.filter(p).len() implies s.contains(
            #[trigger] s.filter(p)[i],
        ) by {
            let sub = s.drop_last().filter(p);
            if i < sub.len() {
                assert(s.filter(p)[i] == sub[i]);
                assert(s.drop_last().contains(sub[i]));
                let j = choose|j: int| 0 <= j < s.drop_last().len() && s.drop_last()[j] == sub[i];
                assert(s[j] == sub[i]);
            } else {
                assert(s.filter(p)[i] == s.last());
                assert(s[s.len() - 1] == s.last());
            }
        }
    }
}

/// Membership chains through nested sub-collections.
pub proof fn lemma_contains_trans<A>(a: Seq<A>, b: Seq<A>, c: Seq<A>)
    requires
        forall|i: int| 0 <= i < b.len() ==> a.contains(#[trigger] b[i]),
        forall|i: int| 0 <= i < c.len() ==> b.contains(#[trigger] c[i]),
    ensures
        forall|i: int| 0 <= i < c.len() ==> a.contains(#[trigger] c[i]),
{
    assert forall|i: int| 0 <= i < c.len() implies a.contains(#[trigger] c[i]) by {
        assert(b.contains(c[i]));
        let j = choose|j: int| 0 <= j < b.len() && b[j] == c[i];
        assert(a.contains(b[j]));
    }
}

/// Filtering with pointwise-equal predicates gives equal results.
pub proof fn lemma_filter_congruence<A>(s: Seq<A>, p: spec_fn(A) -> bool, q: spec_fn(A) -> bool)
    requires
        forall|x: A| #![trigger p(x)] #![trigger q(x)] p(x) == q(x),
    ensures
        s.filter(p) == s.filter(q),
    decreases s.len(),
{
    reveal(Seq::filter);
    if s.len() > 0 {
        lemma_filter_congruence(s.drop_last(), p, q);
    }
}

impl TicketCreds {
    /// The shared filter loop: an eager copy of the entries the selector
    /// accepts, in order.
    fn filter_sel(&self, sel: &FilterSel) -> (r: Self)
        ensures
            r@ == self@.filter(|t: TicketCredV| sel_matches(*sel, t)),
            forall|i: int| 0 <= i < r@.len() ==> self@.contains(#[trigger] r@[i]),
    {
        let ghost pred = |t: TicketCredV| sel_matches(*sel, t);
        let mut out: Vec<TicketCred> = Vec::new();
        let mut i: usize = 0;
        while i < self.ticket_creds.len()
            invariant
                i <= self.ticket_creds@.len(),
                pred == (|t: TicketCredV| sel_matches(*sel, t)),
                out.deep_view() == self@.take(i as int).filter(pred),
            decreases self.ticket_creds@.len() - i,
        {
            let tc = &self.ticket_creds[i];
            let keep: bool = match sel {
                FilterSel::ByEtype(e) => tc.cred_info.key.keytype == *e,
                FilterSel::ByPrealm(r) => match &tc.cred_info.prealm {
                    Some(p) => eq_ignore_case(p.as_str(), r.as_str()),
                    None => false,
                },
                FilterSel::ByPname(n) => match &tc.cred_info.pname {
                    Some(p) => p.eq_insensitive(n),
                    None => false,
                },
                FilterSel::BySrealm(r) => match &tc.cred_info.srealm {
                    Some(p) => eq_ignore_case(p.as_str(), r.as_str()),
                    None => false,
                },
                FilterSel::BySname(n) => match &tc.cred_info.sname {
                    Some(p) => p.eq_insensitive(n),
                    None => false,
                },
                FilterSel::ByServiceLabel(l) => match &tc.cred_info.sname {
                    Some(p) => p.has_label_fold(l.as_str()),
                    None => false,
                },
                FilterSel::ByTgt => tc.is_tgt(),
                FilterSel::ByTgtRealm(r) => tc.is_tgt_for_realm(r.as_str()),
            };
            proof {
                reveal(Seq::filter);
                assert(tc@ == self@[i as int]);
                assert(keep == pred(self@[i as int]));
                assert(self@.take(i + 1 as int).drop_last() =~~= self@.take(i as int));
                assert(self@.take(i + 1 as int).last() == self@[i as int]);
            }
            if keep {
                let ghost prev = out.deep_view();
                out.push(self.ticket_creds[i].clone());
                proof {
                    assert(out.deep_view() =~~= prev.push(out@.last()@));
                    assert(out@.last()@ == self@[i as int]);
                }
            }
            i = i + 1;
        }
        proof {
            assert(self@.take(self@.len() as int) =~~= self@);
            lemma_filter_membership(self@, pred);
        }
        TicketCreds { ticket_creds: out }
    }

    /// Filter tickets by the session key's encryption type.
    pub fn etype(&self, etype: i32) -> (r: Self)
        ensures
            r@ == self@.filter(|t: TicketCredV| tcv_etype_is(t, etype as int)),
            forall|i: int| 0 <= i < r@.len() ==> self@.contains(#[trigger] r@[i]),
    {
        let r = self.filter_sel(&FilterSel::ByEtype(etype));
        proof {
            lemma_filter_congruence(
                self@,
                |t: TicketCredV| sel_matches(FilterSel::ByEtype(etype), t),
                |t: TicketCredV| tcv_etype_is(t, etype as int),
            );
        }
        r
    }

    /// Filter tickets by the client's realm. Case-insensitive.
    pub fn prealm(&self, realm: &str) -> (r: Self)
        ensures
            r@ == self@.filter(|t: TicketCredV| tcv_prealm_is(t, realm@)),
            forall|i: int| 0 <= i < r@.len() ==> self@.contains(#[trigger] r@[i]),
    {
        let sel = FilterSel::ByPrealm(realm.to_owned());
        let r = self.filter_sel(&sel);
        proof {
            lemma_filter_congruence(
                self@,
                |t: TicketCredV| sel_matches(sel, t),
                |t: TicketCredV| tcv_prealm_is(t, realm@),
            );
        }
        r
    }

    /// Filter tickets by the client's name. Case-insensitive.
    pub fn pname(&self, name: &PrincipalName) -> (r: Self)
        ensures
            r@ == self@.filter(|t: TicketCredV| tcv_pname_is(t, name@)),
            forall|i: int| 0 <= i < r@.len() ==> self@.contains(#[trigger] r@[i]),
    {
        let sel = FilterSel::ByPname(name.clone());
        let r = self.filter_sel(&sel);
        proof {
            lemma_filter_congruence(
                self@,
                |t: TicketCredV| sel_matches(sel, t),
                |t: TicketCredV| tcv_pname_is(t, name@),
            );
        }
        r
    }

    /// Filter tickets by the service's realm. Case-insensitive.
    pub fn srealm(&self, realm: &str) -> (r: Self)
        ensures
            r@ == self@.filter(|t: TicketCredV| tcv_srealm_is(t, realm@)),
            forall|i: int| 0 <= i < r@.len() ==> self@.contains(#[trigger] r@[i]),
    {
        let sel = FilterSel::BySrealm(realm.to_owned());
        let r = self.filter_sel(&sel);
        proof {
            lemma_filter_congruence(
                self@,
                |t: TicketCredV| sel_matches(sel, t),
                |t: TicketCredV| tcv_srealm_is(t, realm@),
            );
        }
        r
    }

    /// Filter tickets by the service's name. Case-insensitive.
    pub fn sname(&self, name: &PrincipalName) -> (r: Self)
        ensures
            r@ == self@.filter(|t: TicketCredV| tcv_sname_is(t, name@)),
            forall|i: int| 0 <= i < r@.len() ==> self@.contains(#[trigger] r@[i]),
    {
        let sel = FilterSel::BySname(name.clone());
        let r = self.filter_sel(&sel);
        proof {
            lemma_filter_congruence(
                self@,
                |t: TicketCredV| sel_matches(sel, t),
                |t: TicketCredV| tcv_sname_is(t, name@),
            );
        }
        r
    }

    /// Filter to tickets with a given name among the service labels: the
    /// service (e.g. http, cifs), the hostname, or any other label.
    /// Case-insensitive.
    pub fn service_name(&self, name: &str) -> (r: Self)
        ensures
            r@ == self@.filter(|t: TicketCredV| tcv_has_service_label(t, name@)),
            forall|i: int| 0 <= i < r@.len() ==> self@.contains(#[trigger] r@[i]),
    {
        let sel = FilterSel::ByServiceLabel(name.to_owned());
        let r = self.filter_sel(&sel);
        proof {
            lemma_filter_congruence(
                self@,
                |t: TicketCredV| sel_matches(sel, t),
                |t: TicketCredV| tcv_has_service_label(t, name@),
            );
        }
        r
    }

    /// Filter tickets by the user's realm; the same as `prealm`.
    pub fn user_realm(&self, realm: &str) -> (r: Self)
        ensures
            r@ == self@.filter(|t: TicketCredV| tcv_prealm_is(t, realm@)),
            forall|i: int| 0 <= i < r@.len() ==> self@.contains(#[trigger] r@[i]),
    {
        self.prealm(realm)
    }

    /// Filter by the user's name.
    pub fn username(&self, name: &str) -> (r: Self)
        ensures
            r@ == self@.filter(|t: TicketCredV| tcv_pname_is(t, nt_principal_v(name@))),
            forall|i: int| 0 <= i < r@.len() ==> self@.contains(#[trigger] r@[i]),
    {
        let pn = new_nt_principal(name);
        let r = self.pname(&pn);
        proof {
            assert(pn@.name_string =~~= nt_principal_v(name@).name_string);
            assert(pn@ == nt_principal_v(name@));
        }
        r
    }

    /// Filter by the user's name and realm.
    pub fn user(&self, user: &KrbUser) -> (r: Self)
        ensures
            r@ == self@.filter(|t: TicketCredV| tcv_prealm_is(t, user.realm@)).filter(
                |t: TicketCredV| tcv_pname_is(t, nt_principal_v(user.name@)),
            ),
            forall|i: int| 0 <= i < r@.len() ==> self@.contains(#[trigger] r@[i]),
    {
        let mid = self.user_realm(user.realm.as_str());
        let r = mid.username(user.name.as_str());
        proof {
            lemma_contains_trans(self@, mid@, r@);
        }
        r
    }

    /// Filter to TGTs only: entries whose first service label is the
    /// literal `krbtgt`.
    pub fn tgt(&self) -> (r: Self)
        ensures
            r@ == self@.filter(|t: TicketCredV| tcv_is_tgt(t)),
            forall|i: int| 0 <= i < r@.len() ==> self@.contains(#[trigger] r@[i]),
    {
        let r = self.filter_sel(&FilterSel::ByTgt);
        proof {
            lemma_filter_congruence(
                self@,
                |t: TicketCredV| sel_matches(FilterSel::ByTgt, t),
                |t: TicketCredV| tcv_is_tgt(t),
            );
        }
        r
    }

    /// Filter to TGTs for a given realm: TGTs whose second service label is
    /// the realm, compared case-insensitively.
    pub fn tgt_realm(&self, realm: &str) -> (r: Self)
        ensures
            r@ == self@.filter(|t: TicketCredV| tcv_is_tgt_for_realm(t, realm@)),
            forall|i: int| 0 <= i < r@.len() ==> self@.contains(#[trigger] r@[i]),
    {
        let sel = FilterSel::ByTgtRealm(realm.to_owned());
        let r = self.filter_sel(&sel);
        proof {
            lemma_filter_congruence(
                self@,
                |t: TicketCredV| sel_matches(sel, t),
                |t: TicketCredV| tcv_is_tgt_for_realm(t, realm@),
            );
        }
        r
    }

    /// Filter to TGTs of a given user for a given realm.
    pub fn user_tgt_realm(&self, user: &KrbUser, realm: &str) -> (r: Self)
        ensures
            r@ == self@.filter(|t: TicketCredV| tcv_is_tgt_for_realm(t, realm@)).filter(
                |t: TicketCredV| tcv_prealm_is(t, user.realm@),
            ).filter(|t: TicketCredV| tcv_pname_is(t, nt_principal_v(user.name@))),
            forall|i: int| 0 <= i < r@.len() ==> self@.contains(#[trigger] r@[i]),
    {
        let mid = self.tgt_realm(realm);
        let r = mid.user(user);
        proof {
            lemma_contains_trans(self@, mid@, r@);
        }
        r
    }

    /// Filter to an user's tickets for a specific service.
    pub fn user_service(&self, client: &KrbUser, sname: &PrincipalName, srealm: &str) -> (r: Self)
        ensures
            r@ == self@.filter(|t: TicketCredV| tcv_prealm_is(t, client.realm@)).filter(
                |t: TicketCredV| tcv_pname_is(t, nt_principal_v(client.name@)),
            ).filter(|t: TicketCredV| tcv_sname_is(t, sname@)).filter(
                |t: TicketCredV| tcv_srealm_is(t, srealm@),
            ),
            forall|i: int| 0 <= i < r@.len() ==> self@.contains(#[trigger] r@[i]),
    {
        let a = self.user(client);
        let b = a.sname(sname);
        let r = b.srealm(srealm);
        proof {
            lemma_contains_trans(self@, a@, b@);
            lemma_contains_trans(self@, b@, r@);
        }
        r
    }

    /// The S4U2Self TGSs for `impersonate_user`, within the user's realm:
    /// tickets for the given service, or for the user's NT-ENTERPRISE name
    /// when no service is given.
    pub fn s4u2self_tgss(
        &self,
        user: &KrbUser,
        impersonate_user: &KrbUser,
        user_service: Option<&String>,
    ) -> (r: Self)
        ensures
            r@ == self@.filter(
                |t: TicketCredV| tcv_prealm_is(t, impersonate_user.realm@),
            ).filter(|t: TicketCredV| tcv_pname_is(t, nt_principal_v(impersonate_user.name@))).filter(
                |t: TicketCredV| tcv_sname_is(
                    t,
                    s4u2self_sname_v(user_service.deep_view(), user.name@, user.realm@),
                ),
            ).filter(|t: TicketCredV| tcv_srealm_is(t, user.realm@)),
            forall|i: int| 0 <= i < r@.len() ==> self@.contains(#[trigger] r@[i]),
    {
        let sname: PrincipalName = match user_service {
            Some(user_service) => new_nt_srv_inst(user_service.as_str()),
            None => new_nt_enterprise(user),
        };
        let r = self.user_service(impersonate_user, &sname, user.realm.as_str());
        proof {
            let goal = s4u2self_sname_v(user_service.deep_view(), user.name@, user.realm@);
            match user_service {
                Some(s) => {
                    assert(sname@.name_string =~~= goal.name_string);
                    assert(sname@ == goal);
                },
                None => {
                    assert(sname@.name_string =~~= goal.name_string);
                    assert(sname@ == goal);
                },
            }
            let mid = self@.filter(
                |t: TicketCredV| tcv_prealm_is(t, impersonate_user.realm@),
            ).filter(|t: TicketCredV| tcv_pname_is(t, nt_principal_v(impersonate_user.name@)));
            lemma_filter_congruence(
                mid,
                |t: TicketCredV| tcv_sname_is(t, sname@),
                |t: TicketCredV| tcv_sname_is(t, goal),
            );
        }
        r
    }
}

/// The service name an S4U2Self TGS filter looks for: the given service, or
/// the user's NT-ENTERPRISE name when none is given.
pub open spec fn s4u2self_sname_v(
    user_service: Option<Seq<char>>,
    name: Seq<char>,
    realm: Seq<char>,
) -> PrincipalNameV {
    match user_service {
        Some(s) => PrincipalNameV {
            name_type: NT_SRV_INST as int,
            name_string: split_on(s, seq!['/']),
        },
        None => nt_enterprise_v(name, realm),
    }
}

/// Realm filters look at the realm only through case folding: any two
/// realms that fold alike filter alike.
pub proof fn lemma_realm_filter_fold(s: Seq<TicketCredV>, r1: Seq<char>, r2: Seq<char>)
    requires
        eq_fold(r1, r2),
    ensures
        s.filter(|t: TicketCredV| tcv_prealm_is(t, r1)) == s.filter(
            |t: TicketCredV| tcv_prealm_is(t, r2),
        ),
        s.filter(|t: TicketCredV| tcv_srealm_is(t, r1)) == s.filter(
            |t: TicketCredV| tcv_srealm_is(t, r2),
        ),
        s.filter(|t: TicketCredV| tcv_has_service_label(t, r1)) == s.filter(
            |t: TicketCredV| tcv_has_service_label(t, r2),
        ),
        s.filter(|t: TicketCredV| tcv_is_tgt_for_realm(t, r1)) == s.filter(
            |t: TicketCredV| tcv_is_tgt_for_realm(t, r2),
        ),
{
    assert forall|t: TicketCredV|
        #![trigger tcv_prealm_is(t, r1)]
        #![trigger tcv_prealm_is(t, r2)]
        tcv_prealm_is(t, r1) == tcv_prealm_is(t, r2) by {}
    lemma_filter_congruence(
        s,
        |t: TicketCredV| tcv_prealm_is(t, r1),
        |t: TicketCredV| tcv_prealm_is(t, r2),
    );
    lemma_filter_congruence(
        s,
        |t: TicketCredV| tcv_srealm_is(t, r1),
        |t: TicketCredV| tcv_srealm_is(t, r2),
    );
    assert forall|t: TicketCredV|
        #![trigger tcv_has_service_label(t, r1)]
        #![trigger tcv_has_service_label(t, r2)]
        tcv_has_service_label(t, r1) == tcv_has_service_label(t, r2) by {
        match t.cred_info.sname {
            Some(n) => {
                assert forall|i: int|
                    0 <= i < n.name_string.len() && eq_fold(n.name_string[i], r1) implies eq_fold(
                    n.name_string[i],
                    r2,
                ) by {}
                assert forall|i: int|
                    0 <= i < n.name_string.len() && eq_fold(n.name_string[i], r2) implies eq_fold(
                    n.name_string[i],
                    r1,
                ) by {}
            },
            None => {},
        }
    }
    lemma_filter_congruence(
        s,
        |t: TicketCredV| tcv_has_service_label(t, r1),
        |t: TicketCredV| tcv_has_service_label(t, r2),
    );
    assert forall|t: TicketCredV|
        #![trigger tcv_is_tgt_for_realm(t, r1)]
        #![trigger tcv_is_tgt_for_realm(t, r2)]
        tcv_is_tgt_for_realm(t, r1) == tcv_is_tgt_for_realm(t, r2) by {}
    lemma_filter_congruence(
        s,
        |t: TicketCredV| tcv_is_tgt_for_realm(t, r1),
        |t: TicketCredV| tcv_is_tgt_for_realm(t, r2),
    );
}

/// Every filter that accepts a realm is case-insensitive in it: the results
/// for a realm, its upper-casing and its lower-casing are identical.
pub proof fn lemma_realm_case_insensitivity(s: Seq<TicketCredV>, realm: Seq<char>)
    ensures
        s.filter(|t: TicketCredV| tcv_prealm_is(t, upper_chars(realm))) == s.filter(
            |t: TicketCredV| tcv_prealm_is(t, realm),
        ),
        s.filter(|t: TicketCredV| tcv_prealm_is(t, lower_chars(realm))) == s.filter(
            |t: TicketCredV| tcv_prealm_is(t, realm),
        ),
        s.filter(|t: TicketCredV| tcv_srealm_is(t, upper_chars(realm))) == s.filter(
            |t: TicketCredV| tcv_srealm_is(t, realm),
        ),
        s.filter(|t: TicketCredV| tcv_srealm_is(t, lower_chars(realm))) == s.filter(
            |t: TicketCredV| tcv_srealm_is(t, realm),
        ),
        s.filter(|t: TicketCredV| tcv_is_tgt_for_realm(t, upper_chars(realm))) == s.filter(
            |t: TicketCredV| tcv_is_tgt_for_realm(t, realm),
        ),
        s.filter(|t: TicketCredV| tcv_is_tgt_for_realm(t, lower_chars(realm))) == s.filter(
            |t: TicketCredV| tcv_is_tgt_for_realm(t, realm),
        ),
        s.filter(|t: TicketCredV| tcv_has_service_label(t, upper_chars(realm))) == s.filter(
            |t: TicketCredV| tcv_has_service_label(t, realm),
        ),
        s.filter(|t: TicketCredV| tcv_has_service_label(t, lower_chars(realm))) == s.filter(
            |t: TicketCredV| tcv_has_service_label(t, realm),
        ),
{
    lemma_fold_of_upper(realm);
    lemma_realm_filter_fold(s, upper_chars(realm), realm);
    lemma_realm_filter_fold(s, lower_chars(realm), realm);
}

} // verus!
