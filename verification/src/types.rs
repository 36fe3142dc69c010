//! Identifiers: network names, message ids, data identifiers, authorities.

use vstd::prelude::*;

verus! {

/// Number of bytes in a network address.
pub const XOR_NAME_LEN: usize = 32;

/// Correlation key between a dispatched request and its future response.
/// Freshness is guaranteed by the client, which hands ids out from a
/// strictly increasing counter.
pub type MessageId = u64;

/// A 32-byte opaque identifier used as a network address.
#[derive(PartialEq, Eq, Hash, Debug)]
pub struct XorName {
    bytes: Vec<u8>,
}

impl View for XorName {
    type V = Seq<u8>;

    closed spec fn view(&self) -> Seq<u8> {
        self.bytes@
    }
}

impl XorName {
    /// A name is well formed when it holds exactly `XOR_NAME_LEN` bytes.
    pub open spec fn wf(&self) -> bool {
        self@.len() == XOR_NAME_LEN
    }

    pub fn from_bytes(bytes: Vec<u8>) -> (r: Self)
        requires
            bytes@.len() == XOR_NAME_LEN,
        ensures
            r@ == bytes@,
            r.wf(),
    {
        XorName { bytes }
    }

    pub fn as_bytes(&self) -> (r: &Vec<u8>)
        ensures
            r@ == self@,
    {
        &self.bytes
    }

    pub fn equals(&self, other: &XorName) -> (r: bool)
        ensures
            r == (self@ == other@),
    {
        if self.bytes.len() != other.bytes.len() {
            return false;
        }
        let n = self.bytes.len();
        let mut i: usize = 0;
        while i < n
            invariant
                i <= n,
                n == self.bytes@.len(),
                n == other.bytes@.len(),
                forall|j: int| 0 <= j < i ==> self.bytes@[j] == other.bytes@[j],
            decreases n - i,
        {
            if self.bytes[i] != other.bytes[i] {
                assert(self@ != other@);
                return false;
            }
            i += 1;
        }
        assert(self@ =~= other@);
        true
    }
}

impl Clone for XorName {
    fn clone(&self) -> (r: Self)
        ensures
            r@ == self@,
    {
        XorName { bytes: clone_bytes(&self.bytes) }
    }
}

/// Copies a byte vector, element by element.
pub fn clone_bytes(v: &Vec<u8>) -> (r: Vec<u8>)
    ensures
        r@ == v@,
{
    let mut r: Vec<u8> = Vec::new();
    let n = v.len();
    let mut i: usize = 0;
    while i < n
        invariant
            i <= n,
            n == v@.len(),
            r@ == v@.subrange(0, i as int),
        decreases n - i,
    {
        r.push(v[i]);
        assert(r@ =~= v@.subrange(0, i + 1));
        i += 1;
    }
    assert(r@ =~= v@);
    r
}

/// Tagged identifier of a piece of network data.
#[derive(PartialEq, Eq, Hash, Debug)]
pub enum DataIdentifier {
    Immutable(XorName),
    Structured(XorName, u64),
    PrivAppendable(XorName),
    PubAppendable(XorName),
}

/// Mathematical model of a `DataIdentifier`.
pub enum DataIdV {
    Immutable(Seq<u8>),
    Structured(Seq<u8>, u64),
    PrivAppendable(Seq<u8>),
    PubAppendable(Seq<u8>),
}

impl DataIdV {
    /// The network address the identifier points at.
    pub open spec fn name(self) -> Seq<u8> {
        match self {
            DataIdV::Immutable(n) => n,
            DataIdV::Structured(n, _) => n,
            DataIdV::PrivAppendable(n) => n,
            DataIdV::PubAppendable(n) => n,
        }
    }

    pub open spec fn is_immutable(self) -> bool {
        self is Immutable
    }

    pub open spec fn wf(self) -> bool {
        self.name().len() == XOR_NAME_LEN
    }
}

impl View for DataIdentifier {
    type V = DataIdV;

    open spec fn view(&self) -> DataIdV {
        match self {
            DataIdentifier::Immutable(n) => DataIdV::Immutable(n@),
            DataIdentifier::Structured(n, tag) => DataIdV::Structured(n@, *tag),
            DataIdentifier::PrivAppendable(n) => DataIdV::PrivAppendable(n@),
            DataIdentifier::PubAppendable(n) => DataIdV::PubAppendable(n@),
        }
    }
}

impl DataIdentifier {
    /// The network address the identifier points at.
    pub fn name(&self) -> (r: &XorName)
        ensures
            r@ == self@.name(),
    {
        match self {
            DataIdentifier::Immutable(n) => n,
            DataIdentifier::Structured(n, _) => n,
            DataIdentifier::PrivAppendable(n) => n,
            DataIdentifier::PubAppendable(n) => n,
        }
    }

    pub fn is_immutable(&self) -> (r: bool)
        ensures
            r == self@.is_immutable(),
    {
        match self {
            DataIdentifier::Immutable(_) => true,
            _ => false,
        }
    }
}

impl Clone for DataIdentifier {
    fn clone(&self) -> (r: Self)
        ensures
            r@ == self@,
    {
        match self {
            DataIdentifier::Immutable(n) => DataIdentifier::Immutable(n.clone()),
            DataIdentifier::Structured(n, tag) => DataIdentifier::Structured(n.clone(), *tag),
            DataIdentifier::PrivAppendable(n) => DataIdentifier::PrivAppendable(n.clone()),
            DataIdentifier::PubAppendable(n) => DataIdentifier::PubAppendable(n.clone()),
        }
    }
}

/// Destination role for a network message.
#[derive(PartialEq, Eq, Debug)]
pub enum Authority {
    ClientManager(XorName),
    NaeManager(XorName),
}

/// Mathematical model of an `Authority`.
pub enum AuthorityV {
    ClientManager(Seq<u8>),
    NaeManager(Seq<u8>),
}

impl View for Authority {
    type V = AuthorityV;

    open spec fn view(&self) -> AuthorityV {
        match self {
            Authority::ClientManager(n) => AuthorityV::ClientManager(n@),
            Authority::NaeManager(n) => AuthorityV::NaeManager(n@),
        }
    }
}

impl Clone for Authority {
    fn clone(&self) -> (r: Self)
        ensures
            r@ == self@,
    {
        match self {
            Authority::ClientManager(n) => Authority::ClientManager(n.clone()),
            Authority::NaeManager(n) => Authority::NaeManager(n.clone()),
        }
    }
}

} // verus!
