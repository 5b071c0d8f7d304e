//! The transport boundary: the channel and channel-factory traits the
//! library's flows use, the realm-to-KDC registry, and the TCP length
//! framing. The sockets themselves live outside the library.

use vstd::prelude::*;
use crate::error::Error;
use crate::text::eq_fold;

verus! {

/// Transport protocols available to carry Kerberos messages.
#[derive(Debug, Clone, Copy, PartialEq, Eq, Structural)]
pub enum TransportProtocol {
    TCP,
    UDP,
}

/// One request/response exchange of raw DER bytes with a KDC. Implementors
/// do the I/O; nothing is assumed of the reply, and every caller of this
/// trait handles arbitrary bytes.
pub trait KrbChannel {
    fn send_recv(&self, raw: &Vec<u8>) -> Result<Vec<u8>, Error>;
}

/// Opens channels towards the KDC of a realm. Implementors resolve the
/// realm and connect; the flows only care that some channel comes back.
pub trait KdcComm {
    type Channel: KrbChannel;

    fn create_channel(&mut self, realm: &str) -> Result<Self::Channel, Error>;
}

/// The realm-to-KDC-address registry; lookups are case-insensitive on the
/// realm and the latest insertion wins.
#[derive(Debug)]
pub struct Kdcs {
    pub entries: Vec<(String, String)>,
}

/// The address registered for a realm: the latest entry whose realm matches
/// case-insensitively.
pub open spec fn kdcs_find(entries: Seq<(Seq<char>, Seq<char>)>, realm: Seq<char>) -> Option<
    Seq<char>,
>
    decreases entries.len(),
{
    if entries.len() == 0 {
        None
    } else if eq_fold(entries.last().0, realm) {
        Some(entries.last().1)
    } else {
        kdcs_find(entries.drop_last(), realm)
    }
}

impl Kdcs {
    pub fn new() -> (r: Self)
        ensures
            r.entries.deep_view() == Seq::<(Seq<char>, Seq<char>)>::empty(),
    {
        let r = Self { entries: Vec::new() };
        proof {
            assert(r.entries.deep_view() =~~= Seq::<(Seq<char>, Seq<char>)>::empty());
        }
        r
    }

    /// Registers the KDC address of a realm; it shadows earlier entries.
    pub fn insert(&mut self, realm: String, ip: String)
        ensures
            final(self).entries.deep_view() == old(self).entries.deep_view().push(
                (realm@, ip@),
            ),
    {
        let ghost prev = self.entries.deep_view();
        self.entries.push((realm, ip));
        proof {
            assert(self.entries.deep_view() =~~= prev.push(self.entries@.last().deep_view()));
        }
    }

    /// The address registered for a realm, case-insensitively.
    pub fn get(&self, realm: &str) -> (r: Option<&String>)
        ensures
            match r {
                Some(ip) => kdcs_find(self.entries.deep_view(), realm@) == Some(ip@),
                None => kdcs_find(self.entries.deep_view(), realm@) is None,
            },
    {
        let mut i: usize = self.entries.len();
        proof {
            assert(self.entries.deep_view().take(i as int) =~~= self.entries.deep_view());
        }
        while i > 0
            invariant
                i <= self.entries@.len(),
                kdcs_find(self.entries.deep_view(), realm@) == kdcs_find(
                    self.entries.deep_view().take(i as int),
                    realm@,
                ),
            decreases i,
        {
            i = i - 1;
            proof {
                assert(self.entries.deep_view().take(i + 1 as int).last()
                    == self.entries.deep_view()[i as int]);
                assert(self.entries.deep_view().take(i + 1 as int).drop_last()
                    =~~= self.entries.deep_view().take(i as int));
                assert(self.entries.deep_view()[i as int] == self.entries@[i as int].deep_view());
            }
            if crate::text::eq_ignore_case(self.entries[i].0.as_str(), realm) {
                return Some(&self.entries[i].1);
            }
        }
        proof {
            assert(self.entries.deep_view().take(0) =~~= Seq::<(Seq<char>, Seq<char>)>::empty());
        }
        None
    }

    /// A copy of the address registered for a realm, case-insensitively.
    pub fn get_clone(&self, realm: &str) -> (r: Option<String>)
        ensures
            r.deep_view() == kdcs_find(self.entries.deep_view(), realm@),
    {
        match self.get(realm) {
            Some(ip) => Some(ip.clone()),
            None => None,
        }
    }

    /// All registered addresses, in insertion order.
    pub fn ips(&self) -> (r: Vec<String>)
        ensures
            r.deep_view().len() == self.entries.deep_view().len(),
            forall|i: int|
                0 <= i < r.deep_view().len() ==> #[trigger] r.deep_view()[i]
                    == self.entries.deep_view()[i].1,
    {
        let mut out: Vec<String> = Vec::new();
        let mut i: usize = 0;
        while i < self.entries.len()
            invariant
                i <= self.entries@.len(),
                out.deep_view().len() == i,
                forall|j: int|
                    0 <= j < i ==> #[trigger] out.deep_view()[j]
                        == self.entries.deep_view()[j].1,
            decreases self.entries@.len() - i,
        {
            let ghost prev = out.deep_view();
            out.push(self.entries[i].1.clone());
            proof {
                assert(out.deep_view() =~~= prev.push(out@.last()@));
                assert(out@.last()@ == self.entries@[i as int].1@);
                assert(self.entries.deep_view()[i as int] == self.entries@[i as int].deep_view());
            }
            i = i + 1;
        }
        out
    }
}

/// The 4-byte big-endian length of `n`.
pub open spec fn be_len_bytes(n: int) -> Seq<u8> {
    seq![
        (n / 0x1000000 % 0x100) as u8,
        (n / 0x10000 % 0x100) as u8,
        (n / 0x100 % 0x100) as u8,
        (n % 0x100) as u8,
    ]
}

/// The TCP framing of a request: a 32-bit big-endian length prefix, then
/// the DER bytes.
pub fn set_size_header_to_request(raw_request: &[u8]) -> (r: Vec<u8>)
    requires
        raw_request@.len() <= 0xffffffff,
    ensures
        r@ == be_len_bytes(raw_request@.len() as int) + raw_request@,
{
    let n: usize = raw_request.len();
    let mut out: Vec<u8> = Vec::new();
    out.push((n / 0x1000000 % 0x100) as u8);
    out.push((n / 0x10000 % 0x100) as u8);
    out.push((n / 0x100 % 0x100) as u8);
    out.push((n % 0x100) as u8);
    let mut i: usize = 0;
    while i < raw_request.len()
        invariant
            i <= raw_request@.len(),
            out@ == be_len_bytes(raw_request@.len() as int) + raw_request@.take(i as int),
        decreases raw_request@.len() - i,
    {
        out.push(raw_request[i]);
        proof {
            assert(be_len_bytes(raw_request@.len() as int) + raw_request@.take(i + 1 as int)
                =~= (be_len_bytes(raw_request@.len() as int) + raw_request@.take(i as int)).push(
                raw_request@[i as int],
            ));
        }
        i = i + 1;
    }
    proof {
        assert(raw_request@.take(raw_request@.len() as int) =~= raw_request@);
        assert(out@ =~= be_len_bytes(raw_request@.len() as int) + raw_request@);
    }
    out
}

} // verus!
