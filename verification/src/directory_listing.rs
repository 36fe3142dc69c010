//! Directory listings: the container structure layered over the
//! network, with its own wire codec.
//!
//! A listing holds a container id, metadata, the sub-directories'
//! container infos and the files.  `encode_directory_listing` and
//! `decode_directory_listing` give it a wire form, and the lemmas prove
//! that decoding undoes encoding.

use vstd::prelude::*;
use vstd::string::StringSliceAdditionalSpecFns;
use vstd::utf8::{decode_utf8, encode_utf8, valid_utf8};

use crate::crypto::random_bytes;
use crate::text::{string_bytes, string_from_utf8};
use crate::types::clone_bytes;
use crate::wire::{
    lemma_read_lp, read_lp_at, read_u64_at, sp_lp, sp_read_lp, sp_read_u64, write_lp,
};
use vstd::bytes::{lemma_auto_spec_u64_to_from_le_bytes, spec_u64_to_le_bytes};

verus! {

broadcast use vstd::utf8::encode_utf8_valid_utf8, vstd::utf8::encode_utf8_decode_utf8;

/// Identifier of a container, drawn from the system's randomness.
#[derive(PartialEq, Eq, Debug)]
pub struct ContainerId {
    id: Vec<u8>,
}

impl View for ContainerId {
    type V = Seq<u8>;

    closed spec fn view(&self) -> Seq<u8> {
        self.id@
    }
}

impl ContainerId {
    /// A fresh 32-byte id; all zeroes when the randomness source fails.
    pub fn new() -> (r: ContainerId)
        ensures
            r@.len() == 32,
    {
        let id = match random_bytes(32) {
            Some(b) => b,
            None => vec![0u8; 32],
        };
        ContainerId { id }
    }

    pub fn as_bytes(&self) -> (r: &Vec<u8>)
        ensures
            r@ == self@,
    {
        &self.id
    }

    pub fn from_bytes(id: Vec<u8>) -> (r: ContainerId)
        ensures
            r@ == id@,
    {
        ContainerId { id }
    }
}

impl Clone for ContainerId {
    fn clone(&self) -> (r: Self)
        ensures
            r@ == self@,
    {
        ContainerId { id: clone_bytes(&self.id) }
    }
}

/// What a directory or file says about itself: a display name and
/// caller-owned metadata bytes.
#[derive(PartialEq, Eq, Debug)]
pub struct Metadata {
    name: String,
    user_metadata: Vec<u8>,
}

/// Mathematical model of `Metadata`.
pub struct MetadataV {
    pub name: Seq<char>,
    pub user_metadata: Seq<u8>,
}

impl View for Metadata {
    type V = MetadataV;

    closed spec fn view(&self) -> MetadataV {
        MetadataV { name: self.name@, user_metadata: self.user_metadata@ }
    }
}

impl Metadata {
    pub fn new(name: String, user_metadata: Vec<u8>) -> (r: Metadata)
        ensures
            r@.name == name@,
            r@.user_metadata == user_metadata@,
    {
        Metadata { name, user_metadata }
    }

    pub fn name(&self) -> (r: &String)
        ensures
            r@ == self@.name,
    {
        &self.name
    }

    pub fn user_metadata(&self) -> (r: &Vec<u8>)
        ensures
            r@ == self@.user_metadata,
    {
        &self.user_metadata
    }

    pub fn set_name(&mut self, name: String)
        ensures
            final(self)@ == (MetadataV { name: name@, ..old(self)@ }),
    {
        self.name = name;
    }
}

impl Clone for Metadata {
    fn clone(&self) -> (r: Self)
        ensures
            r@ == self@,
    {
        Metadata { name: self.name.clone(), user_metadata: clone_bytes(&self.user_metadata) }
    }
}

/// A sub-directory as its parent lists it: its container id and name.
#[derive(PartialEq, Eq, Debug)]
pub struct ContainerInfo {
    id: ContainerId,
    name: String,
}

/// Mathematical model of `ContainerInfo`.
pub struct ContainerInfoV {
    pub id: Seq<u8>,
    pub name: Seq<char>,
}

impl View for ContainerInfo {
    type V = ContainerInfoV;

    closed spec fn view(&self) -> ContainerInfoV {
        ContainerInfoV { id: self.id@, name: self.name@ }
    }
}

impl ContainerInfo {
    /// Lists a fresh container under the given name.
    pub fn new(name: String) -> (r: ContainerInfo)
        ensures
            r@.name == name@,
            r@.id.len() == 32,
    {
        ContainerInfo { id: ContainerId::new(), name }
    }

    pub fn with_id(id: ContainerId, name: String) -> (r: ContainerInfo)
        ensures
            r@.id == id@,
            r@.name == name@,
    {
        ContainerInfo { id, name }
    }

    pub fn id(&self) -> (r: &ContainerId)
        ensures
            r@ == self@.id,
    {
        &self.id
    }

    pub fn name(&self) -> (r: &String)
        ensures
            r@ == self@.name,
    {
        &self.name
    }
}

impl Clone for ContainerInfo {
    fn clone(&self) -> (r: Self)
        ensures
            r@ == self@,
    {
        ContainerInfo { id: self.id.clone(), name: self.name.clone() }
    }
}

/// A file as its directory lists it: a name and its metadata bytes.
#[derive(PartialEq, Eq, Debug)]
pub struct File {
    name: String,
    user_metadata: Vec<u8>,
}

/// Mathematical model of `File`.
pub struct FileV {
    pub name: Seq<char>,
    pub user_metadata: Seq<u8>,
}

impl View for File {
    type V = FileV;

    closed spec fn view(&self) -> FileV {
        FileV { name: self.name@, user_metadata: self.user_metadata@ }
    }
}

impl File {
    pub fn new(name: String, user_metadata: Vec<u8>) -> (r: File)
        ensures
            r@.name == name@,
            r@.user_metadata == user_metadata@,
    {
        File { name, user_metadata }
    }

    pub fn name(&self) -> (r: &String)
        ensures
            r@ == self@.name,
    {
        &self.name
    }

    pub fn user_metadata(&self) -> (r: &Vec<u8>)
        ensures
            r@ == self@.user_metadata,
    {
        &self.user_metadata
    }
}

impl Clone for File {
    fn clone(&self) -> (r: Self)
        ensures
            r@ == self@,
    {
        File { name: self.name.clone(), user_metadata: clone_bytes(&self.user_metadata) }
    }
}

/// The view of a list of container infos.
pub open spec fn infos_view(l: Seq<ContainerInfo>) -> Seq<ContainerInfoV> {
    Seq::new(l.len(), |i: int| l[i]@)
}

/// The view of a list of files.
pub open spec fn files_view(l: Seq<File>) -> Seq<FileV> {
    Seq::new(l.len(), |i: int| l[i]@)
}

/// One directory of the container structure.
#[derive(PartialEq, Eq, Debug)]
pub struct DirectoryListing {
    id: ContainerId,
    metadata: Metadata,
    sub_directories: Vec<ContainerInfo>,
    files: Vec<File>,
}

/// Mathematical model of a `DirectoryListing`.
pub struct DirectoryListingV {
    pub id: Seq<u8>,
    pub metadata: MetadataV,
    pub sub_directories: Seq<ContainerInfoV>,
    pub files: Seq<FileV>,
}

impl View for DirectoryListing {
    type V = DirectoryListingV;

    closed spec fn view(&self) -> DirectoryListingV {
        DirectoryListingV {
            id: self.id@,
            metadata: self.metadata@,
            sub_directories: infos_view(self.sub_directories@),
            files: files_view(self.files@),
        }
    }
}

impl DirectoryListing {
    /// A fresh, empty directory with the given name and metadata.
    pub fn new(name: String, user_metadata: Vec<u8>) -> (r: DirectoryListing)
        ensures
            r@.id.len() == 32,
            r@.metadata == (MetadataV { name: name@, user_metadata: user_metadata@ }),
            r@.sub_directories == Seq::<ContainerInfoV>::empty(),
            r@.files == Seq::<FileV>::empty(),
    {
        let r = DirectoryListing {
            id: ContainerId::new(),
            metadata: Metadata::new(name, user_metadata),
            sub_directories: Vec::new(),
            files: Vec::new(),
        };
        assert(infos_view(r.sub_directories@) =~= Seq::<ContainerInfoV>::empty());
        assert(files_view(r.files@) =~= Seq::<FileV>::empty());
        r
    }

    pub fn get_metadata(&self) -> (r: Metadata)
        ensures
            r@ == self@.metadata,
    {
        self.metadata.clone()
    }

    pub fn set_metadata(&mut self, metadata: Metadata)
        ensures
            final(self)@ == (DirectoryListingV { metadata: metadata@, ..old(self)@ }),
    {
        self.metadata = metadata;
    }

    pub fn get_files(&self) -> (r: Vec<File>)
        ensures
            files_view(r@) == self@.files,
    {
        let mut out: Vec<File> = Vec::new();
        let n = self.files.len();
        let mut i: usize = 0;
        while i < n
            invariant
                i <= n,
                n == self.files@.len(),
                out@.len() == i,
                forall|j: int| 0 <= j < i ==> out@[j]@ == self.files@[j]@,
            decreases n - i,
        {
            out.push(self.files[i].clone());
            i += 1;
        }
        assert(files_view(out@) =~= files_view(self.files@));
        out
    }

    pub fn set_files(&mut self, files: Vec<File>)
        ensures
            final(self)@ == (DirectoryListingV {
                files: files_view(files@),
                ..old(self)@
            }),
    {
        self.files = files;
    }

    pub fn get_sub_directories(&self) -> (r: Vec<ContainerInfo>)
        ensures
            infos_view(r@) == self@.sub_directories,
    {
        let mut out: Vec<ContainerInfo> = Vec::new();
        let n = self.sub_directories.len();
        let mut i: usize = 0;
        while i < n
            invariant
                i <= n,
                n == self.sub_directories@.len(),
                out@.len() == i,
                forall|j: int| 0 <= j < i ==> out@[j]@ == self.sub_directories@[j]@,
            decreases n - i,
        {
            out.push(self.sub_directories[i].clone());
            i += 1;
        }
        assert(infos_view(out@) =~= infos_view(self.sub_directories@));
        out
    }

    pub fn set_sub_directories(&mut self, dirs: Vec<ContainerInfo>)
        ensures
            final(self)@ == (DirectoryListingV {
                sub_directories: infos_view(dirs@),
                ..old(self)@
            }),
    {
        self.sub_directories = dirs;
    }

    pub fn set_name(&mut self, name: String)
        ensures
            final(self)@ == (DirectoryListingV {
                metadata: MetadataV { name: name@, ..old(self)@.metadata },
                ..old(self)@
            }),
    {
        self.metadata.set_name(name);
    }
}

impl Clone for DirectoryListing {
    fn clone(&self) -> (r: Self)
        ensures
            r@ == self@,
    {
        let r = DirectoryListing {
            id: self.id.clone(),
            metadata: self.metadata.clone(),
            sub_directories: self.get_sub_directories(),
            files: self.get_files(),
        };
        r
    }
}


// ------------------------------------------------------------------
// Wire form
// ------------------------------------------------------------------

/// Wire form of a text field: its UTF-8 bytes, length-prefixed.
pub open spec fn sp_enc_string(s: Seq<char>) -> Seq<u8> {
    sp_lp(encode_utf8(s))
}

pub open spec fn sp_enc_metadata(m: MetadataV) -> Seq<u8> {
    sp_enc_string(m.name) + sp_lp(m.user_metadata)
}

pub open spec fn sp_enc_info(c: ContainerInfoV) -> Seq<u8> {
    sp_lp(c.id) + sp_enc_string(c.name)
}

pub open spec fn sp_enc_file(f: FileV) -> Seq<u8> {
    sp_enc_string(f.name) + sp_lp(f.user_metadata)
}

/// Concatenation of pre-encoded chunks.
pub open spec fn sp_cat(chunks: Seq<Seq<u8>>) -> Seq<u8>
    decreases chunks.len(),
{
    if chunks.len() == 0 {
        Seq::empty()
    } else {
        chunks.first() + sp_cat(chunks.drop_first())
    }
}

pub open spec fn sp_enc_info_list(l: Seq<ContainerInfoV>) -> Seq<u8> {
    spec_u64_to_le_bytes(l.len() as u64) + sp_cat(
        l.map_values(|c: ContainerInfoV| sp_enc_info(c)),
    )
}

pub open spec fn sp_enc_file_list(l: Seq<FileV>) -> Seq<u8> {
    spec_u64_to_le_bytes(l.len() as u64) + sp_cat(l.map_values(|f: FileV| sp_enc_file(f)))
}

/// Wire form of a whole directory listing.
pub open spec fn spec_encode_directory_listing(d: DirectoryListingV) -> Seq<u8> {
    sp_lp(d.id) + sp_enc_metadata(d.metadata) + sp_enc_info_list(d.sub_directories)
        + sp_enc_file_list(d.files)
}

// ------------------------------------------------------------------
// Meaning of a byte string
// ------------------------------------------------------------------

pub open spec fn sp_dec_string(b: Seq<u8>, pos: int) -> Option<(Seq<char>, int)> {
    match sp_read_lp(b, pos) {
        None => None,
        Some(sp) => if valid_utf8(sp.0) {
            Some((decode_utf8(sp.0), sp.1))
        } else {
            None
        },
    }
}

pub open spec fn sp_dec_metadata(b: Seq<u8>, pos: int) -> Option<(MetadataV, int)> {
    match sp_dec_string(b, pos) {
        None => None,
        Some(np) => match sp_read_lp(b, np.1) {
            None => None,
            Some(up) => Some((MetadataV { name: np.0, user_metadata: up.0 }, up.1)),
        },
    }
}

pub open spec fn sp_dec_info(b: Seq<u8>, pos: int) -> Option<(ContainerInfoV, int)> {
    match sp_read_lp(b, pos) {
        None => None,
        Some(ip) => match sp_dec_string(b, ip.1) {
            None => None,
            Some(np) => Some((ContainerInfoV { id: ip.0, name: np.0 }, np.1)),
        },
    }
}

pub open spec fn sp_dec_file(b: Seq<u8>, pos: int) -> Option<(FileV, int)> {
    match sp_dec_string(b, pos) {
        None => None,
        Some(np) => match sp_read_lp(b, np.1) {
            None => None,
            Some(up) => Some((FileV { name: np.0, user_metadata: up.0 }, up.1)),
        },
    }
}

pub open spec fn sp_dec_info_items(b: Seq<u8>, pos: int, n: int) -> Option<
    (Seq<ContainerInfoV>, int),
>
    decreases n,
{
    if n <= 0 {
        Some((Seq::empty(), pos))
    } else {
        match sp_dec_info(b, pos) {
            None => None,
            Some(cp) => match sp_dec_info_items(b, cp.1, n - 1) {
                None => None,
                Some(rp) => Some((seq![cp.0] + rp.0, rp.1)),
            },
        }
    }
}

pub open spec fn sp_dec_file_items(b: Seq<u8>, pos: int, n: int) -> Option<(Seq<FileV>, int)>
    decreases n,
{
    if n <= 0 {
        Some((Seq::empty(), pos))
    } else {
        match sp_dec_file(b, pos) {
            None => None,
            Some(cp) => match sp_dec_file_items(b, cp.1, n - 1) {
                None => None,
                Some(rp) => Some((seq![cp.0] + rp.0, rp.1)),
            },
        }
    }
}

pub open spec fn sp_dec_info_list(b: Seq<u8>, pos: int) -> Option<(Seq<ContainerInfoV>, int)> {
    match sp_read_u64(b, pos) {
        None => None,
        Some(np) => sp_dec_info_items(b, np.1, np.0 as int),
    }
}

pub open spec fn sp_dec_file_list(b: Seq<u8>, pos: int) -> Option<(Seq<FileV>, int)> {
    match sp_read_u64(b, pos) {
        None => None,
        Some(np) => sp_dec_file_items(b, np.1, np.0 as int),
    }
}

/// The directory listing a byte string means, when it is exactly the
/// wire form of one.
pub open spec fn sp_dec_directory_listing(b: Seq<u8>) -> Option<DirectoryListingV> {
    match sp_read_lp(b, 0) {
        None => None,
        Some(ip) => match sp_dec_metadata(b, ip.1) {
            None => None,
            Some(mp) => match sp_dec_info_list(b, mp.1) {
                None => None,
                Some(sp) => match sp_dec_file_list(b, sp.1) {
                    None => None,
                    Some(fp) => if fp.1 == b.len() {
                        Some(
                            DirectoryListingV {
                                id: ip.0,
                                metadata: mp.0,
                                sub_directories: sp.0,
                                files: fp.0,
                            },
                        )
                    } else {
                        None
                    },
                },
            },
        },
    }
}

// ------------------------------------------------------------------
// Decoding undoes encoding
// ------------------------------------------------------------------

pub open spec fn string_bounded(s: Seq<char>) -> bool {
    encode_utf8(s).len() <= u64::MAX
}

pub open spec fn metadata_bounded(m: MetadataV) -> bool {
    string_bounded(m.name) && m.user_metadata.len() <= u64::MAX
}

pub open spec fn info_bounded(c: ContainerInfoV) -> bool {
    c.id.len() <= u64::MAX && string_bounded(c.name)
}

pub open spec fn file_bounded(f: FileV) -> bool {
    string_bounded(f.name) && f.user_metadata.len() <= u64::MAX
}

pub open spec fn directory_listing_bounded(d: DirectoryListingV) -> bool {
    &&& d.id.len() <= u64::MAX
    &&& metadata_bounded(d.metadata)
    &&& d.sub_directories.len() <= u64::MAX
    &&& forall|i: int|
        0 <= i < d.sub_directories.len() ==> info_bounded(#[trigger] d.sub_directories[i])
    &&& d.files.len() <= u64::MAX
    &&& forall|i: int| 0 <= i < d.files.len() ==> file_bounded(#[trigger] d.files[i])
}

/// Reading an encoded text field where it starts yields it back.
proof fn lemma_dec_string_prefix(b: Seq<u8>, pos: int, s: Seq<char>)
    requires
        string_bounded(s),
        0 <= pos,
        pos + sp_enc_string(s).len() <= b.len(),
        b.subrange(pos, pos + sp_enc_string(s).len() as int) == sp_enc_string(s),
    ensures
        sp_dec_string(b, pos) == Some((s, pos + sp_enc_string(s).len())),
{
    lemma_auto_spec_u64_to_from_le_bytes();
    lemma_read_lp(b, pos, encode_utf8(s));
}

/// Extracts the fact that a concatenation's parts stand at their
/// offsets inside `b`.
proof fn lemma_split_pair(b: Seq<u8>, pos: int, e1: Seq<u8>, e2: Seq<u8>)
    requires
        0 <= pos,
        pos + e1.len() + e2.len() <= b.len(),
        b.subrange(pos, pos + e1.len() + e2.len()) == e1 + e2,
    ensures
        b.subrange(pos, pos + e1.len() as int) == e1,
        b.subrange(pos + e1.len(), pos + e1.len() + e2.len()) == e2,
{
    let l = e1.len() + e2.len();
    assert forall|i: int| 0 <= i < e1.len() implies b.subrange(pos, pos + e1.len() as int)[i]
        == e1[i] by {
        assert(b.subrange(pos, pos + l)[i] == (e1 + e2)[i]);
    }
    assert(b.subrange(pos, pos + e1.len() as int) =~= e1);
    assert forall|i: int| 0 <= i < e2.len() implies b.subrange(
        pos + e1.len(),
        pos + e1.len() + e2.len(),
    )[i] == e2[i] by {
        assert(b.subrange(pos, pos + l)[e1.len() + i] == (e1 + e2)[e1.len() + i]);
    }
    assert(b.subrange(pos + e1.len(), pos + e1.len() + e2.len()) =~= e2);
}

proof fn lemma_dec_metadata_prefix(b: Seq<u8>, pos: int, m: MetadataV)
    requires
        metadata_bounded(m),
        0 <= pos,
        pos + sp_enc_metadata(m).len() <= b.len(),
        b.subrange(pos, pos + sp_enc_metadata(m).len() as int) == sp_enc_metadata(m),
    ensures
        sp_dec_metadata(b, pos) == Some((m, pos + sp_enc_metadata(m).len())),
{
    lemma_auto_spec_u64_to_from_le_bytes();
    lemma_split_pair(b, pos, sp_enc_string(m.name), sp_lp(m.user_metadata));
    lemma_dec_string_prefix(b, pos, m.name);
    lemma_read_lp(b, pos + sp_enc_string(m.name).len(), m.user_metadata);
}

proof fn lemma_dec_info_prefix(b: Seq<u8>, pos: int, c: ContainerInfoV)
    requires
        info_bounded(c),
        0 <= pos,
        pos + sp_enc_info(c).len() <= b.len(),
        b.subrange(pos, pos + sp_enc_info(c).len() as int) == sp_enc_info(c),
    ensures
        sp_dec_info(b, pos) == Some((c, pos + sp_enc_info(c).len())),
{
    lemma_auto_spec_u64_to_from_le_bytes();
    lemma_split_pair(b, pos, sp_lp(c.id), sp_enc_string(c.name));
    lemma_read_lp(b, pos, c.id);
    lemma_dec_string_prefix(b, pos + sp_lp(c.id).len(), c.name);
}

proof fn lemma_dec_file_prefix(b: Seq<u8>, pos: int, f: FileV)
    requires
        file_bounded(f),
        0 <= pos,
        pos + sp_enc_file(f).len() <= b.len(),
        b.subrange(pos, pos + sp_enc_file(f).len() as int) == sp_enc_file(f),
    ensures
        sp_dec_file(b, pos) == Some((f, pos + sp_enc_file(f).len())),
{
    lemma_auto_spec_u64_to_from_le_bytes();
    lemma_split_pair(b, pos, sp_enc_string(f.name), sp_lp(f.user_metadata));
    lemma_dec_string_prefix(b, pos, f.name);
    lemma_read_lp(b, pos + sp_enc_string(f.name).len(), f.user_metadata);
}

/// A concatenation of chunks splits off its last chunk.
pub proof fn lemma_sp_cat_snoc(chunks: Seq<Seq<u8>>)
    requires
        chunks.len() > 0,
    ensures
        sp_cat(chunks) == sp_cat(chunks.drop_last()) + chunks.last(),
    decreases chunks.len(),
{
    if chunks.len() == 1 {
        assert(chunks.drop_last() =~= Seq::<Seq<u8>>::empty());
        assert(chunks.drop_first() =~= Seq::<Seq<u8>>::empty());
        assert(sp_cat(chunks) =~= sp_cat(chunks.drop_last()) + chunks.last());
    } else {
        let tail = chunks.drop_first();
        lemma_sp_cat_snoc(tail);
        assert(tail.last() == chunks.last());
        assert(tail.drop_last() =~= chunks.drop_last().drop_first());
        assert(chunks.drop_last().len() > 0);
        assert(chunks.drop_last().first() == chunks.first());
        assert(sp_cat(chunks) =~= sp_cat(chunks.drop_last()) + chunks.last());
    }
}

proof fn lemma_dec_info_items_prefix(b: Seq<u8>, pos: int, l: Seq<ContainerInfoV>)
    requires
        forall|i: int| 0 <= i < l.len() ==> info_bounded(#[trigger] l[i]),
        0 <= pos,
        pos + sp_cat(l.map_values(|c: ContainerInfoV| sp_enc_info(c))).len() <= b.len(),
        b.subrange(
            pos,
            pos + sp_cat(l.map_values(|c: ContainerInfoV| sp_enc_info(c))).len() as int,
        ) == sp_cat(l.map_values(|c: ContainerInfoV| sp_enc_info(c))),
    ensures
        sp_dec_info_items(b, pos, l.len() as int) == Some(
            (l, pos + sp_cat(l.map_values(|c: ContainerInfoV| sp_enc_info(c))).len()),
        ),
    decreases l.len(),
{
    let m = l.map_values(|c: ContainerInfoV| sp_enc_info(c));
    if l.len() == 0 {
        assert(l =~= Seq::<ContainerInfoV>::empty());
        assert(sp_cat(m) =~= Seq::<u8>::empty());
    } else {
        assert(m.first() == sp_enc_info(l.first()));
        lemma_split_pair(b, pos, m.first(), sp_cat(m.drop_first()));
        lemma_dec_info_prefix(b, pos, l.first());
        let pos2 = pos + sp_enc_info(l.first()).len();
        assert(l.drop_first().map_values(|c: ContainerInfoV| sp_enc_info(c)) =~= m.drop_first());
        lemma_dec_info_items_prefix(b, pos2, l.drop_first());
        assert(seq![l.first()] + l.drop_first() =~= l);
    }
}

proof fn lemma_dec_file_items_prefix(b: Seq<u8>, pos: int, l: Seq<FileV>)
    requires
        forall|i: int| 0 <= i < l.len() ==> file_bounded(#[trigger] l[i]),
        0 <= pos,
        pos + sp_cat(l.map_values(|f: FileV| sp_enc_file(f))).len() <= b.len(),
        b.subrange(
            pos,
            pos + sp_cat(l.map_values(|f: FileV| sp_enc_file(f))).len() as int,
        ) == sp_cat(l.map_values(|f: FileV| sp_enc_file(f))),
    ensures
        sp_dec_file_items(b, pos, l.len() as int) == Some(
            (l, pos + sp_cat(l.map_values(|f: FileV| sp_enc_file(f))).len()),
        ),
    decreases l.len(),
{
    let m = l.map_values(|f: FileV| sp_enc_file(f));
    if l.len() == 0 {
        assert(l =~= Seq::<FileV>::empty());
        assert(sp_cat(m) =~= Seq::<u8>::empty());
    } else {
        assert(m.first() == sp_enc_file(l.first()));
        lemma_split_pair(b, pos, m.first(), sp_cat(m.drop_first()));
        lemma_dec_file_prefix(b, pos, l.first());
        let pos2 = pos + sp_enc_file(l.first()).len();
        assert(l.drop_first().map_values(|f: FileV| sp_enc_file(f)) =~= m.drop_first());
        lemma_dec_file_items_prefix(b, pos2, l.drop_first());
        assert(seq![l.first()] + l.drop_first() =~= l);
    }
}

proof fn lemma_dec_info_list_prefix(b: Seq<u8>, pos: int, l: Seq<ContainerInfoV>)
    requires
        l.len() <= u64::MAX,
        forall|i: int| 0 <= i < l.len() ==> info_bounded(#[trigger] l[i]),
        0 <= pos,
        pos + sp_enc_info_list(l).len() <= b.len(),
        b.subrange(pos, pos + sp_enc_info_list(l).len() as int) == sp_enc_info_list(l),
    ensures
        sp_dec_info_list(b, pos) == Some((l, pos + sp_enc_info_list(l).len())),
{
    lemma_auto_spec_u64_to_from_le_bytes();
    let m = l.map_values(|c: ContainerInfoV| sp_enc_info(c));
    lemma_split_pair(b, pos, spec_u64_to_le_bytes(l.len() as u64), sp_cat(m));
    crate::account::lemma_read_u64_prefix(b, pos, l.len() as u64);
    lemma_dec_info_items_prefix(b, pos + 8, l);
}

proof fn lemma_dec_file_list_prefix(b: Seq<u8>, pos: int, l: Seq<FileV>)
    requires
        l.len() <= u64::MAX,
        forall|i: int| 0 <= i < l.len() ==> file_bounded(#[trigger] l[i]),
        0 <= pos,
        pos + sp_enc_file_list(l).len() <= b.len(),
        b.subrange(pos, pos + sp_enc_file_list(l).len() as int) == sp_enc_file_list(l),
    ensures
        sp_dec_file_list(b, pos) == Some((l, pos + sp_enc_file_list(l).len())),
{
    lemma_auto_spec_u64_to_from_le_bytes();
    let m = l.map_values(|f: FileV| sp_enc_file(f));
    lemma_split_pair(b, pos, spec_u64_to_le_bytes(l.len() as u64), sp_cat(m));
    crate::account::lemma_read_u64_prefix(b, pos, l.len() as u64);
    lemma_dec_file_items_prefix(b, pos + 8, l);
}

/// Decoding undoes encoding: the wire form of any directory listing
/// means exactly that listing.
pub proof fn lemma_directory_listing_round_trip(d: DirectoryListingV)
    requires
        directory_listing_bounded(d),
    ensures
        sp_dec_directory_listing(spec_encode_directory_listing(d)) == Some(d),
{
    lemma_auto_spec_u64_to_from_le_bytes();
    let e1 = sp_lp(d.id);
    let e2 = sp_enc_metadata(d.metadata);
    let e3 = sp_enc_info_list(d.sub_directories);
    let e4 = sp_enc_file_list(d.files);
    let b = spec_encode_directory_listing(d);
    let o1 = e1.len() as int;
    let o2 = o1 + e2.len();
    let o3 = o2 + e3.len();
    let o4 = o3 + e4.len();
    assert(b.len() == o4);
    assert(b.subrange(0, o1) =~= e1);
    lemma_read_lp(b, 0, d.id);
    assert(b.subrange(o1, o2) =~= e2);
    lemma_dec_metadata_prefix(b, o1, d.metadata);
    assert(b.subrange(o2, o3) =~= e3);
    lemma_dec_info_list_prefix(b, o2, d.sub_directories);
    assert(b.subrange(o3, o4) =~= e4);
    lemma_dec_file_list_prefix(b, o3, d.files);
}


// ------------------------------------------------------------------
// Exec codec
// ------------------------------------------------------------------

fn write_string(dst: &mut Vec<u8>, s: &String)
    ensures
        final(dst)@ == old(dst)@ + sp_enc_string(s@),
{
    let bytes = string_bytes(s.as_str());
    write_lp(dst, &bytes);
}

fn write_metadata(dst: &mut Vec<u8>, m: &Metadata)
    ensures
        final(dst)@ == old(dst)@ + sp_enc_metadata(m@),
{
    write_string(dst, m.name());
    write_lp(dst, m.user_metadata());
    assert(dst@ =~= old(dst)@ + sp_enc_metadata(m@));
}

fn write_info(dst: &mut Vec<u8>, c: &ContainerInfo)
    ensures
        final(dst)@ == old(dst)@ + sp_enc_info(c@),
{
    write_lp(dst, c.id().as_bytes());
    write_string(dst, c.name());
    assert(dst@ =~= old(dst)@ + sp_enc_info(c@));
}

fn write_file(dst: &mut Vec<u8>, f: &File)
    ensures
        final(dst)@ == old(dst)@ + sp_enc_file(f@),
{
    write_string(dst, f.name());
    write_lp(dst, f.user_metadata());
    assert(dst@ =~= old(dst)@ + sp_enc_file(f@));
}

fn write_info_list(dst: &mut Vec<u8>, l: &Vec<ContainerInfo>)
    ensures
        final(dst)@ == old(dst)@ + sp_enc_info_list(infos_view(l@)),
{
    let n = l.len();
    crate::wire::write_u64(dst, n as u64);
    let ghost lv = infos_view(l@);
    let ghost m = lv.map_values(|c: ContainerInfoV| sp_enc_info(c));
    let mut i: usize = 0;
    while i < n
        invariant
            i <= n,
            n == l@.len(),
            lv == infos_view(l@),
            m == lv.map_values(|c: ContainerInfoV| sp_enc_info(c)),
            dst@ == old(dst)@ + spec_u64_to_le_bytes(n as u64) + sp_cat(m.take(i as int)),
        decreases n - i,
    {
        write_info(dst, &l[i]);
        proof {
            assert(m.take(i + 1).drop_last() =~= m.take(i as int));
            assert(m.take(i + 1).last() == sp_enc_info(lv[i as int]));
            lemma_sp_cat_snoc(m.take(i + 1));
            assert(dst@ =~= old(dst)@ + spec_u64_to_le_bytes(n as u64) + sp_cat(
                m.take(i + 1),
            ));
        }
        i += 1;
    }
    proof {
        assert(m.take(n as int) =~= m);
        assert(dst@ =~= old(dst)@ + sp_enc_info_list(infos_view(l@)));
    }
}

fn write_file_list(dst: &mut Vec<u8>, l: &Vec<File>)
    ensures
        final(dst)@ == old(dst)@ + sp_enc_file_list(files_view(l@)),
{
    let n = l.len();
    crate::wire::write_u64(dst, n as u64);
    let ghost lv = files_view(l@);
    let ghost m = lv.map_values(|f: FileV| sp_enc_file(f));
    let mut i: usize = 0;
    while i < n
        invariant
            i <= n,
            n == l@.len(),
            lv == files_view(l@),
            m == lv.map_values(|f: FileV| sp_enc_file(f)),
            dst@ == old(dst)@ + spec_u64_to_le_bytes(n as u64) + sp_cat(m.take(i as int)),
        decreases n - i,
    {
        write_file(dst, &l[i]);
        proof {
            assert(m.take(i + 1).drop_last() =~= m.take(i as int));
            assert(m.take(i + 1).last() == sp_enc_file(lv[i as int]));
            lemma_sp_cat_snoc(m.take(i + 1));
            assert(dst@ =~= old(dst)@ + spec_u64_to_le_bytes(n as u64) + sp_cat(
                m.take(i + 1),
            ));
        }
        i += 1;
    }
    proof {
        assert(m.take(n as int) =~= m);
        assert(dst@ =~= old(dst)@ + sp_enc_file_list(files_view(l@)));
    }
}

/// Serializes a directory listing to its wire form.
pub fn encode_directory_listing(d: &DirectoryListing) -> (r: Vec<u8>)
    ensures
        r@ == spec_encode_directory_listing(d@),
{
    let mut out: Vec<u8> = Vec::new();
    write_lp(&mut out, d.id.as_bytes());
    write_metadata(&mut out, &d.metadata);
    write_info_list(&mut out, &d.sub_directories);
    write_file_list(&mut out, &d.files);
    assert(out@ =~= spec_encode_directory_listing(d@));
    out
}

fn dec_string_at(b: &Vec<u8>, pos: usize) -> (r: Option<(String, usize)>)
    ensures
        match sp_dec_string(b@, pos as int) {
            Some(vp) => r matches Some(q) && q.0@ == vp.0 && q.1 == vp.1,
            None => r is None,
        },
{
    match read_lp_at(b, pos) {
        None => None,
        Some((bytes, p)) => match string_from_utf8(bytes) {
            Some(s) => Some((s, p)),
            None => None,
        },
    }
}

fn dec_metadata_at(b: &Vec<u8>, pos: usize) -> (r: Option<(Metadata, usize)>)
    ensures
        match sp_dec_metadata(b@, pos as int) {
            Some(vp) => r matches Some(q) && q.0@ == vp.0 && q.1 == vp.1,
            None => r is None,
        },
{
    match dec_string_at(b, pos) {
        None => None,
        Some((name, p1)) => match read_lp_at(b, p1) {
            None => None,
            Some((user_metadata, p2)) => Some((Metadata::new(name, user_metadata), p2)),
        },
    }
}

fn dec_info_at(b: &Vec<u8>, pos: usize) -> (r: Option<(ContainerInfo, usize)>)
    ensures
        match sp_dec_info(b@, pos as int) {
            Some(vp) => r matches Some(q) && q.0@ == vp.0 && q.1 == vp.1,
            None => r is None,
        },
{
    match read_lp_at(b, pos) {
        None => None,
        Some((id, p1)) => match dec_string_at(b, p1) {
            None => None,
            Some((name, p2)) => Some((ContainerInfo::with_id(ContainerId::from_bytes(id), name), p2)),
        },
    }
}

fn dec_file_at(b: &Vec<u8>, pos: usize) -> (r: Option<(File, usize)>)
    ensures
        match sp_dec_file(b@, pos as int) {
            Some(vp) => r matches Some(q) && q.0@ == vp.0 && q.1 == vp.1,
            None => r is None,
        },
{
    match dec_string_at(b, pos) {
        None => None,
        Some((name, p1)) => match read_lp_at(b, p1) {
            None => None,
            Some((user_metadata, p2)) => Some((File::new(name, user_metadata), p2)),
        },
    }
}

fn dec_info_list_at(b: &Vec<u8>, pos: usize) -> (r: Option<(Vec<ContainerInfo>, usize)>)
    ensures
        match sp_dec_info_list(b@, pos as int) {
            Some(vp) => r matches Some(q) && infos_view(q.0@) == vp.0 && q.1 == vp.1,
            None => r is None,
        },
{
    let (n, p0) = match read_u64_at(b, pos) {
        Some(q) => q,
        None => {
            return None;
        },
    };
    let ghost full = sp_dec_info_items(b@, p0 as int, n as int);
    let mut out: Vec<ContainerInfo> = Vec::new();
    let mut cur: usize = p0;
    let mut i: u64 = 0;
    proof {
        assert(infos_view(out@) =~= Seq::<ContainerInfoV>::empty());
        match full {
            Some(rp) => {
                assert(infos_view(out@) + rp.0 =~= rp.0);
            },
            None => {},
        }
    }
    while i < n
        invariant
            i <= n,
            out@.len() == i,
            full == sp_dec_info_items(b@, p0 as int, n as int),
            sp_dec_info_list(b@, pos as int) == full,
            full == (match sp_dec_info_items(b@, cur as int, n - i) {
                Some(rp) => Some((infos_view(out@) + rp.0, rp.1)),
                None => None::<(Seq<ContainerInfoV>, int)>,
            }),
        decreases n - i,
    {
        let ghost prev = out@;
        let ghost kcur = cur as int;
        match dec_info_at(b, cur) {
            None => {
                proof {
                    assert(sp_dec_info_items(b@, kcur, n - i) is None);
                }
                return None;
            },
            Some((c, p2)) => {
                out.push(c);
                cur = p2;
                proof {
                    let k = n - i;
                    assert(sp_dec_info(b@, kcur) matches Some(cp) && cp.0 == c@ && cp.1
                        == p2 as int);
                    assert(infos_view(out@) =~= infos_view(prev).push(c@));
                    match sp_dec_info_items(b@, p2 as int, k - 1) {
                        Some(rp) => {
                            assert(infos_view(prev) + (seq![c@] + rp.0) =~= infos_view(out@)
                                + rp.0);
                        },
                        None => {},
                    }
                }
                i = i + 1;
            },
        }
    }
    proof {
        assert(sp_dec_info_items(b@, cur as int, 0) == Some(
            (Seq::<ContainerInfoV>::empty(), cur as int),
        ));
        match full {
            Some(rp) => {
                assert(infos_view(out@) + Seq::<ContainerInfoV>::empty() =~= infos_view(out@));
            },
            None => {},
        }
    }
    Some((out, cur))
}

fn dec_file_list_at(b: &Vec<u8>, pos: usize) -> (r: Option<(Vec<File>, usize)>)
    ensures
        match sp_dec_file_list(b@, pos as int) {
            Some(vp) => r matches Some(q) && files_view(q.0@) == vp.0 && q.1 == vp.1,
            None => r is None,
        },
{
    let (n, p0) = match read_u64_at(b, pos) {
        Some(q) => q,
        None => {
            return None;
        },
    };
    let ghost full = sp_dec_file_items(b@, p0 as int, n as int);
    let mut out: Vec<File> = Vec::new();
    let mut cur: usize = p0;
    let mut i: u64 = 0;
    proof {
        assert(files_view(out@) =~= Seq::<FileV>::empty());
        match full {
            Some(rp) => {
                assert(files_view(out@) + rp.0 =~= rp.0);
            },
            None => {},
        }
    }
    while i < n
        invariant
            i <= n,
            out@.len() == i,
            full == sp_dec_file_items(b@, p0 as int, n as int),
            sp_dec_file_list(b@, pos as int) == full,
            full == (match sp_dec_file_items(b@, cur as int, n - i) {
                Some(rp) => Some((files_view(out@) + rp.0, rp.1)),
                None => None::<(Seq<FileV>, int)>,
            }),
        decreases n - i,
    {
        let ghost prev = out@;
        let ghost kcur = cur as int;
        match dec_file_at(b, cur) {
            None => {
                proof {
                    assert(sp_dec_file_items(b@, kcur, n - i) is None);
                }
                return None;
            },
            Some((c, p2)) => {
                out.push(c);
                cur = p2;
                proof {
                    let k = n - i;
                    assert(sp_dec_file(b@, kcur) matches Some(cp) && cp.0 == c@ && cp.1
                        == p2 as int);
                    assert(files_view(out@) =~= files_view(prev).push(c@));
                    match sp_dec_file_items(b@, p2 as int, k - 1) {
                        Some(rp) => {
                            assert(files_view(prev) + (seq![c@] + rp.0) =~= files_view(out@)
                                + rp.0);
                        },
                        None => {},
                    }
                }
                i = i + 1;
            },
        }
    }
    proof {
        assert(sp_dec_file_items(b@, cur as int, 0) == Some(
            (Seq::<FileV>::empty(), cur as int),
        ));
        match full {
            Some(rp) => {
                assert(files_view(out@) + Seq::<FileV>::empty() =~= files_view(out@));
            },
            None => {},
        }
    }
    Some((out, cur))
}

/// Recovers a directory listing from its wire form; fails on every
/// other byte string.
pub fn decode_directory_listing(b: &Vec<u8>) -> (r: Option<DirectoryListing>)
    ensures
        match sp_dec_directory_listing(b@) {
            Some(dv) => r matches Some(d) && d@ == dv,
            None => r is None,
        },
{
    let (id, p1) = match read_lp_at(b, 0) {
        Some(q) => q,
        None => {
            return None;
        },
    };
    let (metadata, p2) = match dec_metadata_at(b, p1) {
        Some(q) => q,
        None => {
            return None;
        },
    };
    let (sub_directories, p3) = match dec_info_list_at(b, p2) {
        Some(q) => q,
        None => {
            return None;
        },
    };
    let (files, p4) = match dec_file_list_at(b, p3) {
        Some(q) => q,
        None => {
            return None;
        },
    };
    if p4 != b.len() {
        return None;
    }
    Some(
        DirectoryListing {
            id: ContainerId::from_bytes(id),
            metadata,
            sub_directories,
            files,
        },
    )
}

} // verus!
