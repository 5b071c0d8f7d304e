//! The library's model of the Kerberos wire structures it reasons about:
//! principal names, encryption keys, encrypted blobs, tickets and the
//! per-ticket `KrbCredInfo` stored in credential bundles.

use vstd::prelude::*;
use crate::constants::NT_PRINCIPAL;
use crate::constants::NT_SRV_INST;
use crate::constants::NT_ENTERPRISE;
use crate::krb_user::KrbUser;
use crate::text::split_on;
use crate::text::split_text;
use crate::text::eq_fold;
use crate::text::eq_ignore_case;

verus! {

/// (*PrincipalName*) The name of a Kerberos entity: a name type and a
/// sequence of labels.
#[derive(Debug)]
pub struct PrincipalName {
    pub name_type: i32,
    pub name_string: Vec<String>,
}

/// The spec-level value of a `PrincipalName` (declared early so that the
/// predicates below can speak of it).
pub struct PrincipalNameV {
    pub name_type: int,
    pub name_string: Seq<Seq<char>>,
}

/// Label-wise case-insensitive equality of principal names, the comparison
/// Kerberos uses for service and client names.
pub open spec fn pn_eq_fold(a: PrincipalNameV, b: PrincipalNameV) -> bool {
    &&& a.name_type == b.name_type
    &&& a.name_string.len() == b.name_string.len()
    &&& forall|i: int|
        0 <= i < a.name_string.len() ==> eq_fold(a.name_string[i], b.name_string[i])
}

/// The spec value of an NT-PRINCIPAL name with one label.
pub open spec fn nt_principal_v(name: Seq<char>) -> PrincipalNameV {
    PrincipalNameV { name_type: NT_PRINCIPAL as int, name_string: seq![name] }
}

/// The spec value of an NT-SRV-INST name: the string split on `/`.
pub open spec fn nt_srv_inst_v(s: Seq<char>) -> PrincipalNameV {
    PrincipalNameV { name_type: NT_SRV_INST as int, name_string: split_on(s, seq!['/']) }
}

/// The spec value of an NT-ENTERPRISE name for a user: one `name@realm` label.
pub open spec fn nt_enterprise_v(name: Seq<char>, realm: Seq<char>) -> PrincipalNameV {
    PrincipalNameV { name_type: NT_ENTERPRISE as int, name_string: seq![name + "@"@ + realm] }
}

/// The labels joined with `/`, the usual rendering of a service name.
pub open spec fn join_slash(parts: Seq<Seq<char>>) -> Seq<char>
    decreases parts.len(),
{
    if parts.len() == 0 {
        Seq::empty()
    } else if parts.len() == 1 {
        parts[0]
    } else {
        parts[0] + seq!['/'] + join_slash(parts.drop_first())
    }
}

/// Joining from the right: appending one part appends `/` and the part.
pub proof fn lemma_join_slash_snoc(parts: Seq<Seq<char>>, p: Seq<char>)
    ensures
        join_slash(parts.push(p)) == if parts.len() == 0 {
            p
        } else {
            join_slash(parts) + seq!['/'] + p
        },
    decreases parts.len(),
{
    if parts.len() == 0 {
        assert(parts.push(p).len() == 1);
        assert(parts.push(p)[0] == p);
    } else {
        lemma_join_slash_snoc(parts.drop_first(), p);
        assert(parts.push(p).drop_first() =~~= parts.drop_first().push(p));
        if parts.len() == 1 {
            assert(join_slash(parts.push(p)) =~= parts[0] + seq!['/'] + p);
            assert(join_slash(parts) == parts[0]);
        } else {
            assert(join_slash(parts.push(p)) =~= join_slash(parts) + seq!['/'] + p);
        }
    }
}

impl PrincipalName {
    /// Label-wise case-insensitive comparison with another name.
    pub fn eq_insensitive(&self, other: &PrincipalName) -> (r: bool)
        ensures
            r == pn_eq_fold(self@, other@),
    {
        if self.name_type != other.name_type {
            return false;
        }
        if self.name_string.len() != other.name_string.len() {
            return false;
        }
        let mut i: usize = 0;
        while i < self.name_string.len()
            invariant
                i <= self.name_string@.len(),
                self.name_string@.len() == other.name_string@.len(),
                forall|j: int|
                    0 <= j < i ==> eq_fold(
                        self.name_string.deep_view()[j],
                        other.name_string.deep_view()[j],
                    ),
            decreases self.name_string@.len() - i,
        {
            if !eq_ignore_case(self.name_string[i].as_str(), other.name_string[i].as_str()) {
                proof {
                    assert(self.name_string.deep_view()[i as int] == self.name_string@[i as int]@);
                    assert(other.name_string.deep_view()[i as int]
                        == other.name_string@[i as int]@);
                }
                return false;
            }
            proof {
                assert(self.name_string.deep_view()[i as int] == self.name_string@[i as int]@);
                assert(other.name_string.deep_view()[i as int] == other.name_string@[i as int]@);
            }
            i = i + 1;
        }
        true
    }

    /// The labels joined with `/`.
    pub fn flat_name(&self) -> (r: String)
        ensures
            r@ == join_slash(self.name_string.deep_view()),
    {
        let mut out = String::new();
        let mut i: usize = 0;
        while i < self.name_string.len()
            invariant
                i <= self.name_string@.len(),
                out@ == join_slash(self.name_string.deep_view().take(i as int)),
            decreases self.name_string@.len() - i,
        {
            if i > 0 {
                out.append("/");
            }
            out.append(self.name_string[i].as_str());
            proof {
                reveal_strlit("/");
                assert("/"@ =~= seq!['/']);
                let parts = self.name_string.deep_view();
                assert(parts[i as int] == self.name_string@[i as int]@);
                assert(parts.take(i + 1 as int) =~~= parts.take(i as int).push(parts[i as int]));
                lemma_join_slash_snoc(parts.take(i as int), parts[i as int]);
            }
            i = i + 1;
        }
        proof {
            assert(self.name_string.deep_view().take(self.name_string.deep_view().len() as int)
                =~~= self.name_string.deep_view());
        }
        out
    }
}

/// A principal name of type NT-PRINCIPAL (1) with one label.
pub fn new_nt_principal(name: &str) -> (r: PrincipalName)
    ensures
        r.name_type == NT_PRINCIPAL,
        r.name_string.deep_view() == seq![name@],
{
    let mut labels: Vec<String> = Vec::new();
    labels.push(name.to_owned());
    proof {
        assert(labels.deep_view() =~~= seq![name@]);
    }
    PrincipalName { name_type: NT_PRINCIPAL, name_string: labels }
}

/// A principal name of type NT-SRV-INST (2); `s` is split on `/` into labels.
pub fn new_nt_srv_inst(s: &str) -> (r: PrincipalName)
    ensures
        r.name_type == NT_SRV_INST,
        r.name_string.deep_view() == split_on(s@, seq!['/']),
{
    let mut seps: Vec<char> = Vec::new();
    seps.push('/');
    proof {
        assert(seps@ =~= seq!['/']);
    }
    let labels = split_text(s, &seps);
    PrincipalName { name_type: NT_SRV_INST, name_string: labels }
}

/// A principal name of type NT-ENTERPRISE (10) with the single label
/// `name@realm`.
pub fn new_nt_enterprise(user: &KrbUser) -> (r: PrincipalName)
    ensures
        r.name_type == NT_ENTERPRISE,
        r.name_string.deep_view() == seq![user.name@ + "@"@ + user.realm@],
{
    let mut label: String = user.name.clone();
    label.append("@");
    label.append(user.realm.as_str());
    let mut labels: Vec<String> = Vec::new();
    labels.push(label);
    proof {
        assert(labels.deep_view() =~~= seq![user.name@ + "@"@ + user.realm@]);
    }
    PrincipalName { name_type: NT_ENTERPRISE, name_string: labels }
}

/// NT-SRV-INST when the string holds a `/`, NT-PRINCIPAL otherwise.
pub fn new_principal_or_srv_inst(s: &str) -> (r: PrincipalName)
    ensures
        crate::text::find_ch(s@, seq!['/']) >= 0 ==> r.name_type == NT_SRV_INST
            && r.name_string.deep_view() == split_on(s@, seq!['/']),
        crate::text::find_ch(s@, seq!['/']) < 0 ==> r.name_type == NT_PRINCIPAL
            && r.name_string.deep_view() == seq![s@],
{
    let cs = crate::text::chars_of(s);
    let mut seps: Vec<char> = Vec::new();
    seps.push('/');
    proof {
        assert(seps@ =~= seq!['/']);
    }
    match crate::text::find_sep(&cs, 0, &seps) {
        Some(_) => {
            proof {
                assert(cs@.skip(0) =~= s@);
            }
            new_nt_srv_inst(s)
        },
        None => {
            proof {
                assert(cs@.skip(0) =~= s@);
            }
            new_nt_principal(s)
        },
    }
}

impl View for PrincipalName {
    type V = PrincipalNameV;

    open spec fn view(&self) -> PrincipalNameV {
        PrincipalNameV {
            name_type: self.name_type as int,
            name_string: self.name_string.deep_view(),
        }
    }
}

impl DeepView for PrincipalName {
    type V = PrincipalNameV;

    open spec fn deep_view(&self) -> PrincipalNameV {
        self.view()
    }
}

impl Clone for PrincipalName {
    fn clone(&self) -> (r: Self)
        ensures
            r@ == self@,
    {
        let mut labels: Vec<String> = Vec::new();
        let mut i: usize = 0;
        while i < self.name_string.len()
            invariant
                i <= self.name_string@.len(),
                labels.deep_view() == self.name_string.deep_view().take(i as int),
            decreases self.name_string@.len() - i,
        {
            let ghost prev = labels.deep_view();
            labels.push(self.name_string[i].clone());
            proof {
                assert(labels.deep_view() =~~= prev.push(labels@.last().deep_view()));
                assert(labels@.last()@ == self.name_string@[i as int]@);
                assert(self.name_string.deep_view()[i as int]
                    == self.name_string@[i as int].deep_view());
                assert(labels.deep_view() =~~= self.name_string.deep_view().take(i + 1 as int));
            }
            i = i + 1;
        }
        proof {
            assert(self.name_string.deep_view().take(self.name_string.deep_view().len() as int)
                =~~= self.name_string.deep_view());
        }
        PrincipalName { name_type: self.name_type, name_string: labels }
    }
}

/// (*EncryptionKey*) A session or long-term key: encryption type and bytes.
#[derive(Debug)]
pub struct EncryptionKey {
    pub keytype: i32,
    pub keyvalue: Vec<u8>,
}

/// The spec-level value of an `EncryptionKey`.
pub struct EncryptionKeyV {
    pub keytype: int,
    pub keyvalue: Seq<u8>,
}

impl View for EncryptionKey {
    type V = EncryptionKeyV;

    open spec fn view(&self) -> EncryptionKeyV {
        EncryptionKeyV { keytype: self.keytype as int, keyvalue: self.keyvalue@ }
    }
}

impl DeepView for EncryptionKey {
    type V = EncryptionKeyV;

    open spec fn deep_view(&self) -> EncryptionKeyV {
        self.view()
    }
}

impl Clone for EncryptionKey {
    fn clone(&self) -> (r: Self)
        ensures
            r@ == self@,
    {
        EncryptionKey { keytype: self.keytype, keyvalue: clone_bytes(&self.keyvalue) }
    }
}

/// A copy of a byte vector, with the copy's contents stated.
pub fn clone_bytes(v: &Vec<u8>) -> (r: Vec<u8>)
    ensures
        r@ == v@,
{
    let mut out: Vec<u8> = Vec::new();
    let mut i: usize = 0;
    while i < v.len()
        invariant
            i <= v@.len(),
            out@ == v@.take(i as int),
        decreases v@.len() - i,
    {
        out.push(v[i]);
        proof {
            assert(v@.take(i + 1 as int) =~= v@.take(i as int).push(v@[i as int]));
        }
        i = i + 1;
    }
    proof {
        assert(v@.take(v@.len() as int) =~= v@);
    }
    out
}

/// (*EncryptedData*) An encrypted blob with the encryption type it was
/// produced under and an optional key version number.
#[derive(Debug)]
pub struct EncryptedData {
    pub etype: i32,
    pub kvno: Option<u32>,
    pub cipher: Vec<u8>,
}

/// The spec-level value of an `EncryptedData`.
pub struct EncryptedDataV {
    pub etype: int,
    pub kvno: Option<u32>,
    pub cipher: Seq<u8>,
}

impl View for EncryptedData {
    type V = EncryptedDataV;

    open spec fn view(&self) -> EncryptedDataV {
        EncryptedDataV { etype: self.etype as int, kvno: self.kvno, cipher: self.cipher@ }
    }
}

impl DeepView for EncryptedData {
    type V = EncryptedDataV;

    open spec fn deep_view(&self) -> EncryptedDataV {
        self.view()
    }
}

impl Clone for EncryptedData {
    fn clone(&self) -> (r: Self)
        ensures
            r@ == self@,
    {
        EncryptedData { etype: self.etype, kvno: self.kvno, cipher: clone_bytes(&self.cipher) }
    }
}

/// (*Ticket*) A Kerberos ticket: the plaintext envelope (service name and
/// realm) around an encrypted part that only the service can read.
#[derive(Debug)]
pub struct Ticket {
    pub tkt_vno: i32,
    pub realm: String,
    pub sname: PrincipalName,
    pub enc_part: EncryptedData,
}

impl Ticket {
    pub fn new(realm: String, sname: PrincipalName, enc_part: EncryptedData) -> (r: Self)
        ensures
            r.tkt_vno == 5,
            r.realm == realm,
            r.sname == sname,
            r.enc_part == enc_part,
    {
        Self { tkt_vno: 5, realm, sname, enc_part }
    }
}

/// The spec-level value of a `Ticket`.
pub struct TicketV {
    pub tkt_vno: int,
    pub realm: Seq<char>,
    pub sname: PrincipalNameV,
    pub enc_part: EncryptedDataV,
}

impl View for Ticket {
    type V = TicketV;

    open spec fn view(&self) -> TicketV {
        TicketV {
            tkt_vno: self.tkt_vno as int,
            realm: self.realm@,
            sname: self.sname@,
            enc_part: self.enc_part@,
        }
    }
}

impl DeepView for Ticket {
    type V = TicketV;

    open spec fn deep_view(&self) -> TicketV {
        self.view()
    }
}

impl Clone for Ticket {
    fn clone(&self) -> (r: Self)
        ensures
            r@ == self@,
    {
        Ticket {
            tkt_vno: self.tkt_vno,
            realm: self.realm.clone(),
            sname: self.sname.clone(),
            enc_part: self.enc_part.clone(),
        }
    }
}

/// (*KrbCredInfo*) The client-side view of one ticket: the usable session
/// key, flags, lifetimes, and the client and server principals.
#[derive(Debug)]
pub struct KrbCredInfo {
    pub key: EncryptionKey,
    pub prealm: Option<String>,
    pub pname: Option<PrincipalName>,
    pub flags: Option<u32>,
    pub authtime: Option<i64>,
    pub starttime: Option<i64>,
    pub endtime: Option<i64>,
    pub renew_till: Option<i64>,
    pub srealm: Option<String>,
    pub sname: Option<PrincipalName>,
}

/// The spec-level value of a `KrbCredInfo`.
pub struct KrbCredInfoV {
    pub key: EncryptionKeyV,
    pub prealm: Option<Seq<char>>,
    pub pname: Option<PrincipalNameV>,
    pub flags: Option<u32>,
    pub authtime: Option<i64>,
    pub starttime: Option<i64>,
    pub endtime: Option<i64>,
    pub renew_till: Option<i64>,
    pub srealm: Option<Seq<char>>,
    pub sname: Option<PrincipalNameV>,
}

impl View for KrbCredInfo {
    type V = KrbCredInfoV;

    open spec fn view(&self) -> KrbCredInfoV {
        KrbCredInfoV {
            key: self.key@,
            prealm: self.prealm.deep_view(),
            pname: self.pname.deep_view(),
            flags: self.flags,
            authtime: self.authtime,
            starttime: self.starttime,
            endtime: self.endtime,
            renew_till: self.renew_till,
            srealm: self.srealm.deep_view(),
            sname: self.sname.deep_view(),
        }
    }
}

impl DeepView for KrbCredInfo {
    type V = KrbCredInfoV;

    open spec fn deep_view(&self) -> KrbCredInfoV {
        self.view()
    }
}

/// A copy of an optional string, with the copy's contents stated.
pub fn clone_opt_string(v: &Option<String>) -> (r: Option<String>)
    ensures
        r.deep_view() == v.deep_view(),
{
    match v {
        Some(s) => Some(s.clone()),
        None => None,
    }
}

/// A copy of an optional principal name, with the copy's contents stated.
pub fn clone_opt_pname(v: &Option<PrincipalName>) -> (r: Option<PrincipalName>)
    ensures
        r.deep_view() == v.deep_view(),
{
    match v {
        Some(p) => Some(p.clone()),
        None => None,
    }
}

impl Clone for KrbCredInfo {
    fn clone(&self) -> (r: Self)
        ensures
            r@ == self@,
    {
        KrbCredInfo {
            key: self.key.clone(),
            prealm: clone_opt_string(&self.prealm),
            pname: clone_opt_pname(&self.pname),
            flags: self.flags,
            authtime: self.authtime,
            starttime: self.starttime,
            endtime: self.endtime,
            renew_till: self.renew_till,
            srealm: clone_opt_string(&self.srealm),
            sname: clone_opt_pname(&self.sname),
        }
    }
}

} // verus!
