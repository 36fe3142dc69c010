//! Length-prefixed byte encoding, shared by the codecs of the library.
//!
//! A field is written as its length in eight little-endian bytes followed
//! by the bytes themselves.  The spec-level readers (`sp_read_*`) define
//! the meaning of a byte string; the exec functions implement them; the
//! lemmas connect writing and reading.

use vstd::bytes::lemma_auto_spec_u64_to_from_le_bytes;
use vstd::bytes::spec_u64_from_le_bytes;
use vstd::bytes::spec_u64_to_le_bytes;
use vstd::bytes::u64_from_le_bytes;
use vstd::bytes::u64_to_le_bytes;
use vstd::prelude::*;
use vstd::slice::slice_subrange;

use crate::errors::push_bytes;

verus! {

/// A byte string prefixed with its length as eight little-endian bytes.
pub open spec fn sp_lp(s: Seq<u8>) -> Seq<u8>
    recommends
        s.len() <= u64::MAX,
{
    spec_u64_to_le_bytes(s.len() as u64) + s
}

/// Reads eight bytes at `pos` as a little-endian number.
pub open spec fn sp_read_u64(b: Seq<u8>, pos: int) -> Option<(u64, int)> {
    if 0 <= pos && pos + 8 <= b.len() {
        Some((spec_u64_from_le_bytes(b.subrange(pos, pos + 8)), pos + 8))
    } else {
        None
    }
}

/// Reads one byte at `pos`.
pub open spec fn sp_read_u8(b: Seq<u8>, pos: int) -> Option<(u8, int)> {
    if 0 <= pos && pos + 1 <= b.len() {
        Some((b[pos], pos + 1))
    } else {
        None
    }
}

/// Reads `n` bytes at `pos`.
pub open spec fn sp_read_bytes(b: Seq<u8>, pos: int, n: int) -> Option<(Seq<u8>, int)> {
    if 0 <= pos && 0 <= n && pos + n <= b.len() {
        Some((b.subrange(pos, pos + n), pos + n))
    } else {
        None
    }
}

/// Reads a length-prefixed byte string at `pos`.
pub open spec fn sp_read_lp(b: Seq<u8>, pos: int) -> Option<(Seq<u8>, int)> {
    match sp_read_u64(b, pos) {
        Some(np) => sp_read_bytes(b, np.1, np.0 as int),
        None => None,
    }
}

/// Reading where an encoded prefix starts yields exactly that prefix.
pub proof fn lemma_read_lp(b: Seq<u8>, pos: int, s: Seq<u8>)
    requires
        0 <= pos,
        s.len() <= u64::MAX,
        pos + 8 + s.len() <= b.len(),
        b.subrange(pos, pos + 8 + s.len()) == sp_lp(s),
    ensures
        sp_read_lp(b, pos) == Some((s, pos + 8 + s.len())),
{
    lemma_auto_spec_u64_to_from_le_bytes();
    let le = spec_u64_to_le_bytes(s.len() as u64);
    assert(le.len() == 8);
    assert forall|i: int| 0 <= i < 8 implies b.subrange(pos, pos + 8)[i] == le[i] by {
        assert(b.subrange(pos, pos + 8 + s.len())[i] == sp_lp(s)[i]);
    }
    assert(b.subrange(pos, pos + 8) =~= le);
    assert(spec_u64_from_le_bytes(b.subrange(pos, pos + 8)) == s.len() as u64);
    assert forall|i: int| 0 <= i < s.len() implies b.subrange(pos + 8, pos + 8 + s.len())[i]
        == s[i] by {
        assert(b.subrange(pos, pos + 8 + s.len())[8 + i] == sp_lp(s)[8 + i]);
    }
    assert(b.subrange(pos + 8, pos + 8 + s.len()) =~= s);
}

/// A successful length-prefixed read pins down the bytes it consumed.
pub proof fn lemma_read_lp_sound(b: Seq<u8>, pos: int, s: Seq<u8>, end: int)
    requires
        sp_read_lp(b, pos) == Some((s, end)),
    ensures
        0 <= pos,
        pos + 8 <= end <= b.len(),
        end == pos + 8 + s.len(),
        s.len() <= u64::MAX,
        b.subrange(pos, end) == sp_lp(s),
{
    lemma_auto_spec_u64_to_from_le_bytes();
    let n = spec_u64_from_le_bytes(b.subrange(pos, pos + 8));
    assert(s == b.subrange(pos + 8, pos + 8 + n as int));
    assert(b.subrange(pos, end) =~= sp_lp(s)) by {
        assert(spec_u64_to_le_bytes(n) =~= b.subrange(pos, pos + 8));
    }
}

/// Reads eight little-endian bytes at `pos`.
pub fn read_u64_at(b: &Vec<u8>, pos: usize) -> (r: Option<(u64, usize)>)
    ensures
        match sp_read_u64(b@, pos as int) {
            Some(vp) => r matches Some(q) && q.0 == vp.0 && q.1 == vp.1,
            None => r is None,
        },
{
    if pos <= b.len() && b.len() - pos >= 8 {
        let sub = slice_subrange(b.as_slice(), pos, pos + 8);
        let v = u64_from_le_bytes(sub);
        Some((v, pos + 8))
    } else {
        None
    }
}

/// Reads one byte at `pos`.
pub fn read_u8_at(b: &Vec<u8>, pos: usize) -> (r: Option<(u8, usize)>)
    ensures
        match sp_read_u8(b@, pos as int) {
            Some(vp) => r matches Some(q) && q.0 == vp.0 && q.1 == vp.1,
            None => r is None,
        },
{
    if pos < b.len() {
        Some((b[pos], pos + 1))
    } else {
        None
    }
}

/// Reads and copies `n` bytes at `pos`.
pub fn read_bytes_at(b: &Vec<u8>, pos: usize, n: usize) -> (r: Option<(Vec<u8>, usize)>)
    ensures
        match sp_read_bytes(b@, pos as int, n as int) {
            Some(vp) => r matches Some(q) && q.0@ == vp.0 && q.1 == vp.1,
            None => r is None,
        },
{
    let blen = b.len();
    if pos <= blen && blen - pos >= n {
        let mut out: Vec<u8> = Vec::new();
        let mut i: usize = 0;
        while i < n
            invariant
                i <= n,
                pos + n <= blen,
                blen == b@.len(),
                out@ == b@.subrange(pos as int, pos + i),
            decreases n - i,
        {
            out.push(b[pos + i]);
            assert(out@ =~= b@.subrange(pos as int, pos + i + 1));
            i += 1;
        }
        Some((out, pos + n))
    } else {
        None
    }
}

/// Reads a length-prefixed byte string at `pos`.
pub fn read_lp_at(b: &Vec<u8>, pos: usize) -> (r: Option<(Vec<u8>, usize)>)
    ensures
        match sp_read_lp(b@, pos as int) {
            Some(vp) => r matches Some(q) && q.0@ == vp.0 && q.1 == vp.1,
            None => r is None,
        },
{
    match read_u64_at(b, pos) {
        Some((n, p)) => {
            let blen = b.len();
            if n <= blen as u64 {
                read_bytes_at(b, p, n as usize)
            } else {
                // more bytes than the whole input holds
                assert(sp_read_bytes(b@, p as int, n as int) is None);
                None
            }
        },
        None => None,
    }
}

/// Appends the length-prefixed form of `src` to `dst`.
pub fn write_lp(dst: &mut Vec<u8>, src: &Vec<u8>)
    ensures
        final(dst)@ == old(dst)@ + sp_lp(src@),
{
    let len_bytes = u64_to_le_bytes(src.len() as u64);
    push_bytes(dst, &len_bytes);
    push_bytes(dst, src);
    assert(dst@ =~= old(dst)@ + sp_lp(src@));
}

/// Appends eight little-endian bytes to `dst`.
pub fn write_u64(dst: &mut Vec<u8>, v: u64)
    ensures
        final(dst)@ == old(dst)@ + spec_u64_to_le_bytes(v),
{
    let bytes = u64_to_le_bytes(v);
    push_bytes(dst, &bytes);
}

} // verus!
