//! The data variants stored on the network.
//!
//! Immutable data is content-addressed: its name is the digest of its
//! value.  Structured and appendable data carry a version, owner-key
//! lists and a signature over the rest of their fields, produced with
//! the owner's secret signing key.

use vstd::bytes::spec_u64_to_le_bytes;
use vstd::prelude::*;

use crate::crypto::{sha256_hash, sha256_of, sign_detached, sign_of};
use crate::types::{clone_bytes, DataIdV, DataIdentifier, XorName, XOR_NAME_LEN};
use crate::wire::{sp_lp, write_lp, write_u64};

verus! {

/// The view of a list of byte strings.
pub open spec fn keys_view(ks: Seq<Vec<u8>>) -> Seq<Seq<u8>> {
    Seq::new(ks.len(), |i: int| ks[i]@)
}

/// Concatenation of the length-prefixed forms of a list of byte strings.
pub open spec fn sp_cat_lp(ks: Seq<Seq<u8>>) -> Seq<u8>
    decreases ks.len(),
{
    if ks.len() == 0 {
        Seq::empty()
    } else {
        sp_cat_lp(ks.drop_last()) + sp_lp(ks.last())
    }
}

/// Wire form of a list of byte strings: the count, then each entry
/// length-prefixed.
pub open spec fn sp_enc_key_list(ks: Seq<Seq<u8>>) -> Seq<u8> {
    spec_u64_to_le_bytes(ks.len() as u64) + sp_cat_lp(ks)
}

/// Appends the wire form of a key list to `dst`.
pub fn write_key_list(dst: &mut Vec<u8>, ks: &Vec<Vec<u8>>)
    ensures
        final(dst)@ == old(dst)@ + sp_enc_key_list(keys_view(ks@)),
{
    let n = ks.len();
    write_u64(dst, n as u64);
    let mut i: usize = 0;
    while i < n
        invariant
            i <= n,
            n == ks@.len(),
            dst@ == old(dst)@ + spec_u64_to_le_bytes(n as u64) + sp_cat_lp(
                keys_view(ks@).take(i as int),
            ),
        decreases n - i,
    {
        write_lp(dst, &ks[i]);
        proof {
            let kv = keys_view(ks@);
            assert(kv.take(i + 1).drop_last() =~= kv.take(i as int));
            assert(kv.take(i + 1).last() == kv[i as int]);
        }
        i += 1;
    }
    proof {
        assert(keys_view(ks@).take(n as int) =~= keys_view(ks@));
    }
}

/// Copies a list of byte strings.
pub fn clone_key_list(ks: &Vec<Vec<u8>>) -> (r: Vec<Vec<u8>>)
    ensures
        keys_view(r@) == keys_view(ks@),
{
    let n = ks.len();
    let mut r: Vec<Vec<u8>> = Vec::new();
    let mut i: usize = 0;
    while i < n
        invariant
            i <= n,
            n == ks@.len(),
            r@.len() == i,
            forall|j: int| 0 <= j < i ==> r@[j]@ == ks@[j]@,
        decreases n - i,
    {
        r.push(clone_bytes(&ks[i]));
        i += 1;
    }
    assert(keys_view(r@) =~= keys_view(ks@));
    r
}

/// Decides whether two key lists hold the same keys in the same order.
pub fn key_lists_equal(a: &Vec<Vec<u8>>, b: &Vec<Vec<u8>>) -> (r: bool)
    ensures
        r == (keys_view(a@) == keys_view(b@)),
{
    if a.len() != b.len() {
        assert(keys_view(a@).len() != keys_view(b@).len());
        return false;
    }
    let n = a.len();
    let mut i: usize = 0;
    while i < n
        invariant
            i <= n,
            n == a@.len(),
            n == b@.len(),
            forall|j: int| 0 <= j < i ==> a@[j]@ == b@[j]@,
        decreases n - i,
    {
        let ai = &a[i];
        let bi = &b[i];
        let mut k: usize = 0;
        if ai.len() != bi.len() {
            assert(keys_view(a@)[i as int] != keys_view(b@)[i as int]);
            return false;
        }
        let m = ai.len();
        while k < m
            invariant
                k <= m,
                i < n,
                n == a@.len(),
                n == b@.len(),
                m == ai@.len(),
                m == bi@.len(),
                ai@ == a@[i as int]@,
                bi@ == b@[i as int]@,
                forall|j: int| 0 <= j < k ==> ai@[j] == bi@[j],
            decreases m - k,
        {
            if ai[k] != bi[k] {
                assert(a@[i as int]@ != b@[i as int]@);
                assert(keys_view(a@)[i as int] != keys_view(b@)[i as int]);
                return false;
            }
            k += 1;
        }
        assert(ai@ =~= bi@);
        i += 1;
    }
    assert(keys_view(a@) =~= keys_view(b@));
    true
}

/// Content-addressed data: the name is the digest of the value.
#[derive(PartialEq, Eq, Debug)]
pub struct ImmutableData {
    name: XorName,
    value: Vec<u8>,
}

/// Mathematical model of `ImmutableData`.
pub struct ImmDV {
    pub name: Seq<u8>,
    pub value: Seq<u8>,
}

impl View for ImmutableData {
    type V = ImmDV;

    closed spec fn view(&self) -> ImmDV {
        ImmDV { name: self.name@, value: self.value@ }
    }
}

impl ImmDV {
    /// The name of immutable data is always the digest of its value.
    pub open spec fn wf(self) -> bool {
        self.name == sha256_of(self.value)
    }
}

impl ImmutableData {
    pub fn new(value: Vec<u8>) -> (r: ImmutableData)
        ensures
            r@.value == value@,
            r@.wf(),
    {
        let name = XorName::from_bytes(sha256_hash(&value));
        ImmutableData { name, value }
    }

    pub fn name(&self) -> (r: &XorName)
        ensures
            r@ == self@.name,
    {
        &self.name
    }

    pub fn value(&self) -> (r: &Vec<u8>)
        ensures
            r@ == self@.value,
    {
        &self.value
    }
}

impl Clone for ImmutableData {
    fn clone(&self) -> (r: Self)
        ensures
            r@ == self@,
    {
        ImmutableData { name: self.name.clone(), value: clone_bytes(&self.value) }
    }
}

/// Mathematical model of `StructuredData` and of appendable data.
pub struct SdV {
    pub type_tag: u64,
    pub name: Seq<u8>,
    pub version: u64,
    pub data: Seq<u8>,
    pub owner_keys: Seq<Seq<u8>>,
    pub previous_owner_keys: Seq<Seq<u8>>,
    pub signature: Seq<u8>,
}

/// The bytes a structured datum's signature covers: every field but the
/// signature itself.
pub open spec fn spec_sd_signable(
    type_tag: u64,
    name: Seq<u8>,
    version: u64,
    data: Seq<u8>,
    owner_keys: Seq<Seq<u8>>,
    previous_owner_keys: Seq<Seq<u8>>,
) -> Seq<u8> {
    spec_u64_to_le_bytes(type_tag) + sp_lp(name) + spec_u64_to_le_bytes(version) + sp_lp(data)
        + sp_enc_key_list(owner_keys) + sp_enc_key_list(previous_owner_keys)
}

impl SdV {
    pub open spec fn signable(self) -> Seq<u8> {
        spec_sd_signable(
            self.type_tag,
            self.name,
            self.version,
            self.data,
            self.owner_keys,
            self.previous_owner_keys,
        )
    }

    /// Well-formed and signed with the signing key whose seed is `seed`.
    pub open spec fn signed_by(self, seed: Seq<u8>) -> bool {
        self.signature == sign_of(seed, self.signable())
    }

    /// A tombstone: deleted in place, reclaimable by the original owner.
    pub open spec fn is_deleted(self) -> bool {
        self.data.len() == 0 && self.owner_keys.len() == 0
    }

    pub open spec fn wf(self) -> bool {
        self.name.len() == XOR_NAME_LEN
    }
}

/// Versioned, owned, signed data stored under a `(name, type_tag)` address.
#[derive(PartialEq, Eq, Debug)]
pub struct StructuredData {
    type_tag: u64,
    name: XorName,
    version: u64,
    data: Vec<u8>,
    owner_keys: Vec<Vec<u8>>,
    previous_owner_keys: Vec<Vec<u8>>,
    signature: Vec<u8>,
}

impl View for StructuredData {
    type V = SdV;

    closed spec fn view(&self) -> SdV {
        SdV {
            type_tag: self.type_tag,
            name: self.name@,
            version: self.version,
            data: self.data@,
            owner_keys: keys_view(self.owner_keys@),
            previous_owner_keys: keys_view(self.previous_owner_keys@),
            signature: self.signature@,
        }
    }
}

impl StructuredData {
    /// Builds a structured datum, signing it when a signing-key seed is
    /// supplied.
    pub fn new(
        type_tag: u64,
        name: XorName,
        version: u64,
        data: Vec<u8>,
        owner_keys: Vec<Vec<u8>>,
        previous_owner_keys: Vec<Vec<u8>>,
        sign_seed: Option<&Vec<u8>>,
    ) -> (r: StructuredData)
        requires
            sign_seed matches Some(s) ==> s@.len() == 32,
        ensures
            r@.type_tag == type_tag,
            r@.name == name@,
            r@.version == version,
            r@.data == data@,
            r@.owner_keys == keys_view(owner_keys@),
            r@.previous_owner_keys == keys_view(previous_owner_keys@),
            sign_seed matches Some(s) ==> r@.signed_by(s@),
            sign_seed is None ==> r@.signature == Seq::<u8>::empty(),
    {
        let mut signable: Vec<u8> = Vec::new();
        write_u64(&mut signable, type_tag);
        write_lp(&mut signable, name.as_bytes());
        write_u64(&mut signable, version);
        write_lp(&mut signable, &data);
        write_key_list(&mut signable, &owner_keys);
        write_key_list(&mut signable, &previous_owner_keys);
        assert(signable@ =~= spec_sd_signable(
            type_tag,
            name@,
            version,
            data@,
            keys_view(owner_keys@),
            keys_view(previous_owner_keys@),
        ));
        let signature = match sign_seed {
            Some(seed) => sign_detached(seed, &signable),
            None => Vec::new(),
        };
        StructuredData {
            type_tag,
            name,
            version,
            data,
            owner_keys,
            previous_owner_keys,
            signature,
        }
    }

    pub fn name(&self) -> (r: &XorName)
        ensures
            r@ == self@.name,
    {
        &self.name
    }

    pub fn get_type_tag(&self) -> (r: u64)
        ensures
            r == self@.type_tag,
    {
        self.type_tag
    }

    pub fn get_version(&self) -> (r: u64)
        ensures
            r == self@.version,
    {
        self.version
    }

    pub fn get_data(&self) -> (r: &Vec<u8>)
        ensures
            r@ == self@.data,
    {
        &self.data
    }

    pub fn get_owner_keys(&self) -> (r: &Vec<Vec<u8>>)
        ensures
            keys_view(r@) == self@.owner_keys,
    {
        &self.owner_keys
    }

    pub fn get_previous_owner_keys(&self) -> (r: &Vec<Vec<u8>>)
        ensures
            keys_view(r@) == self@.previous_owner_keys,
    {
        &self.previous_owner_keys
    }

    pub fn get_signature(&self) -> (r: &Vec<u8>)
        ensures
            r@ == self@.signature,
    {
        &self.signature
    }

    /// Whether this datum is a tombstone.
    pub fn is_deleted(&self) -> (r: bool)
        ensures
            r == self@.is_deleted(),
    {
        self.data.len() == 0 && self.owner_keys.len() == 0
    }
}

impl Clone for StructuredData {
    fn clone(&self) -> (r: Self)
        ensures
            r@ == self@,
    {
        StructuredData {
            type_tag: self.type_tag,
            name: self.name.clone(),
            version: self.version,
            data: clone_bytes(&self.data),
            owner_keys: clone_key_list(&self.owner_keys),
            previous_owner_keys: clone_key_list(&self.previous_owner_keys),
            signature: clone_bytes(&self.signature),
        }
    }
}

/// Versioned, owned, signed data that clients can append to.  The private
/// and public flavours share this shape.
#[derive(PartialEq, Eq, Debug)]
pub struct AppendableData {
    name: XorName,
    version: u64,
    data: Vec<u8>,
    owner_keys: Vec<Vec<u8>>,
    previous_owner_keys: Vec<Vec<u8>>,
    signature: Vec<u8>,
}

/// Mathematical model of `AppendableData`.
pub struct ApV {
    pub name: Seq<u8>,
    pub version: u64,
    pub data: Seq<u8>,
    pub owner_keys: Seq<Seq<u8>>,
    pub previous_owner_keys: Seq<Seq<u8>>,
    pub signature: Seq<u8>,
}

impl View for AppendableData {
    type V = ApV;

    closed spec fn view(&self) -> ApV {
        ApV {
            name: self.name@,
            version: self.version,
            data: self.data@,
            owner_keys: keys_view(self.owner_keys@),
            previous_owner_keys: keys_view(self.previous_owner_keys@),
            signature: self.signature@,
        }
    }
}

impl AppendableData {
    pub fn new(
        name: XorName,
        version: u64,
        data: Vec<u8>,
        owner_keys: Vec<Vec<u8>>,
        previous_owner_keys: Vec<Vec<u8>>,
        signature: Vec<u8>,
    ) -> (r: AppendableData)
        ensures
            r@.name == name@,
            r@.version == version,
            r@.data == data@,
            r@.owner_keys == keys_view(owner_keys@),
            r@.previous_owner_keys == keys_view(previous_owner_keys@),
            r@.signature == signature@,
    {
        AppendableData { name, version, data, owner_keys, previous_owner_keys, signature }
    }

    pub fn name(&self) -> (r: &XorName)
        ensures
            r@ == self@.name,
    {
        &self.name
    }

    pub fn get_version(&self) -> (r: u64)
        ensures
            r == self@.version,
    {
        self.version
    }

    pub fn get_owner_keys(&self) -> (r: &Vec<Vec<u8>>)
        ensures
            keys_view(r@) == self@.owner_keys,
    {
        &self.owner_keys
    }
}

impl Clone for AppendableData {
    fn clone(&self) -> (r: Self)
        ensures
            r@ == self@,
    {
        AppendableData {
            name: self.name.clone(),
            version: self.version,
            data: clone_bytes(&self.data),
            owner_keys: clone_key_list(&self.owner_keys),
            previous_owner_keys: clone_key_list(&self.previous_owner_keys),
            signature: clone_bytes(&self.signature),
        }
    }
}

/// Tagged variant over everything the network stores.
#[derive(PartialEq, Eq, Debug)]
pub enum Data {
    Immutable(ImmutableData),
    Structured(StructuredData),
    PrivAppendable(AppendableData),
    PubAppendable(AppendableData),
}

/// Mathematical model of `Data`.
pub enum DataV {
    Immutable(ImmDV),
    Structured(SdV),
    PrivAppendable(ApV),
    PubAppendable(ApV),
}

impl DataV {
    pub open spec fn name(self) -> Seq<u8> {
        match self {
            DataV::Immutable(d) => d.name,
            DataV::Structured(d) => d.name,
            DataV::PrivAppendable(d) => d.name,
            DataV::PubAppendable(d) => d.name,
        }
    }

    /// The identifier a datum answers to.
    pub open spec fn identifier(self) -> DataIdV {
        match self {
            DataV::Immutable(d) => DataIdV::Immutable(d.name),
            DataV::Structured(d) => DataIdV::Structured(d.name, d.type_tag),
            DataV::PrivAppendable(d) => DataIdV::PrivAppendable(d.name),
            DataV::PubAppendable(d) => DataIdV::PubAppendable(d.name),
        }
    }

    /// The version a mutation of this datum declares, or zero where the
    /// variant carries none.
    pub open spec fn version_or_zero(self) -> u64 {
        match self {
            DataV::Immutable(_) => 0,
            DataV::Structured(d) => d.version,
            DataV::PrivAppendable(d) => d.version,
            DataV::PubAppendable(d) => d.version,
        }
    }
}

impl View for Data {
    type V = DataV;

    open spec fn view(&self) -> DataV {
        match self {
            Data::Immutable(d) => DataV::Immutable(d@),
            Data::Structured(d) => DataV::Structured(d@),
            Data::PrivAppendable(d) => DataV::PrivAppendable(d@),
            Data::PubAppendable(d) => DataV::PubAppendable(d@),
        }
    }
}

impl Data {
    pub fn name(&self) -> (r: &XorName)
        ensures
            r@ == self@.name(),
    {
        match self {
            Data::Immutable(d) => d.name(),
            Data::Structured(d) => d.name(),
            Data::PrivAppendable(d) => d.name(),
            Data::PubAppendable(d) => d.name(),
        }
    }

    /// The identifier this datum answers to.
    pub fn identifier(&self) -> (r: DataIdentifier)
        ensures
            r@ == self@.identifier(),
    {
        match self {
            Data::Immutable(d) => DataIdentifier::Immutable(d.name().clone()),
            Data::Structured(d) => DataIdentifier::Structured(d.name().clone(), d.get_type_tag()),
            Data::PrivAppendable(d) => DataIdentifier::PrivAppendable(d.name().clone()),
            Data::PubAppendable(d) => DataIdentifier::PubAppendable(d.name().clone()),
        }
    }

    pub fn is_immutable(&self) -> (r: bool)
        ensures
            r == (self@ is Immutable),
    {
        match self {
            Data::Immutable(_) => true,
            _ => false,
        }
    }
}

impl Clone for Data {
    fn clone(&self) -> (r: Self)
        ensures
            r@ == self@,
    {
        match self {
            Data::Immutable(d) => Data::Immutable(d.clone()),
            Data::Structured(d) => Data::Structured(d.clone()),
            Data::PrivAppendable(d) => Data::PrivAppendable(d.clone()),
            Data::PubAppendable(d) => Data::PubAppendable(d.clone()),
        }
    }
}

/// An append request: the name appended to, and the appended bytes.
#[derive(PartialEq, Eq, Debug)]
pub enum AppendWrapper {
    Priv { append_to: XorName, data: Vec<u8> },
    Pub { append_to: XorName, data: Vec<u8> },
}

/// Mathematical model of an `AppendWrapper`.
pub enum AppendWrapperV {
    Priv { append_to: Seq<u8>, data: Seq<u8> },
    Pub { append_to: Seq<u8>, data: Seq<u8> },
}

impl AppendWrapperV {
    pub open spec fn append_to(self) -> Seq<u8> {
        match self {
            AppendWrapperV::Priv { append_to, .. } => append_to,
            AppendWrapperV::Pub { append_to, .. } => append_to,
        }
    }
}

impl View for AppendWrapper {
    type V = AppendWrapperV;

    open spec fn view(&self) -> AppendWrapperV {
        match self {
            AppendWrapper::Priv { append_to, data } => AppendWrapperV::Priv {
                append_to: append_to@,
                data: data@,
            },
            AppendWrapper::Pub { append_to, data } => AppendWrapperV::Pub {
                append_to: append_to@,
                data: data@,
            },
        }
    }
}

impl AppendWrapper {
    /// The name the append is directed at.
    pub fn append_to(&self) -> (r: &XorName)
        ensures
            r@ == self@.append_to(),
    {
        match self {
            AppendWrapper::Priv { append_to, .. } => append_to,
            AppendWrapper::Pub { append_to, .. } => append_to,
        }
    }
}

impl Clone for AppendWrapper {
    fn clone(&self) -> (r: Self)
        ensures
            r@ == self@,
    {
        match self {
            AppendWrapper::Priv { append_to, data } => AppendWrapper::Priv {
                append_to: append_to.clone(),
                data: clone_bytes(data),
            },
            AppendWrapper::Pub { append_to, data } => AppendWrapper::Pub {
                append_to: append_to.clone(),
                data: clone_bytes(data),
            },
        }
    }
}

} // verus!
