//! The account: the user's long-lived keys and root-directory ids,
//! serialized by the codec here and sealed into the session packet.
//!
//! The wire form is defined twice over: spec encoders say what bytes an
//! account produces, spec decoders say what account a byte string means,
//! and the lemmas prove that decoding undoes encoding.  The exec
//! functions implement the specs.  `encrypt` seals the encoded account
//! under a key and nonce derived from the user credentials; `decrypt`
//! states exactly when it succeeds and what it recovers.

use vstd::prelude::*;

use crate::crypto::{
    random_bytes, secretbox_open, secretbox_seal, seal_of, session_key, session_nonce,
    sha256_hash, sign_pk_of, sign_public_key, spec_network_id, spec_session_key,
    spec_session_nonce,
};
use crate::errors::{push_bytes, CoreError};
use crate::types::{DataIdV, DataIdentifier, XorName, XOR_NAME_LEN};
use crate::wire::{
    lemma_read_lp, lemma_read_lp_sound, read_lp_at, read_u8_at, read_u64_at, sp_lp, sp_read_lp, sp_read_u64,
    sp_read_u8, write_lp,
};
use vstd::bytes::{lemma_auto_spec_u64_to_from_le_bytes, spec_u64_to_le_bytes};

verus! {

/// Model of a root-directory id: a data identifier and an optional
/// 32-byte symmetric key.
pub struct DirIdV {
    pub id: DataIdV,
    pub key: Option<Seq<u8>>,
}

/// The view of an exec root-directory id.
pub open spec fn dir_id_view(d: (DataIdentifier, Option<Vec<u8>>)) -> DirIdV {
    DirIdV {
        id: d.0@,
        key: match d.1 {
            Some(k) => Some(k@),
            None => None,
        },
    }
}

/// The view of an optional exec root-directory id.
pub open spec fn opt_dir_id_view(d: Option<(DataIdentifier, Option<Vec<u8>>)>) -> Option<DirIdV> {
    match d {
        Some(x) => Some(dir_id_view(x)),
        None => None,
    }
}

/// Mathematical model of an `Account`.
pub struct AccountV {
    pub sign_pk: Seq<u8>,
    pub sign_sk: Seq<u8>,
    pub box_pk: Seq<u8>,
    pub box_sk: Seq<u8>,
    pub user_root_dir: Option<DirIdV>,
    pub config_root_dir: Option<DirIdV>,
}

/// The shape the codec preserves: every key is 32 bytes and every name
/// has the address length.
pub open spec fn dir_id_wf(d: DirIdV) -> bool {
    &&& d.id.name().len() == XOR_NAME_LEN
    &&& (d.key matches Some(k) ==> k.len() == 32)
}

pub open spec fn account_codec_wf(a: AccountV) -> bool {
    &&& a.sign_pk.len() == 32
    &&& a.sign_sk.len() == 32
    &&& a.box_pk.len() == 32
    &&& a.box_sk.len() == 32
    &&& (a.user_root_dir matches Some(d) ==> dir_id_wf(d))
    &&& (a.config_root_dir matches Some(d) ==> dir_id_wf(d))
}

impl AccountV {
    /// Codec shape plus the key relation: the stored public signing key
    /// belongs to the stored seed.
    pub open spec fn wf(self) -> bool {
        &&& account_codec_wf(self)
        &&& self.sign_pk == sign_pk_of(self.sign_sk)
    }
}

// ------------------------------------------------------------------
// Wire form
// ------------------------------------------------------------------

/// Wire form of a data identifier: a tag, the length-prefixed name, and
/// for the structured variant its type tag.
pub open spec fn sp_enc_data_id(d: DataIdV) -> Seq<u8> {
    match d {
        DataIdV::Immutable(n) => seq![0u8] + sp_lp(n),
        DataIdV::Structured(n, tag) => seq![1u8] + sp_lp(n) + spec_u64_to_le_bytes(tag),
        DataIdV::PrivAppendable(n) => seq![2u8] + sp_lp(n),
        DataIdV::PubAppendable(n) => seq![3u8] + sp_lp(n),
    }
}

/// Wire form of an optional symmetric key.
pub open spec fn sp_enc_opt_key(k: Option<Seq<u8>>) -> Seq<u8> {
    match k {
        None => seq![0u8],
        Some(key) => seq![1u8] + sp_lp(key),
    }
}

/// Wire form of a root-directory id.
pub open spec fn sp_enc_dir_id(d: DirIdV) -> Seq<u8> {
    sp_enc_data_id(d.id) + sp_enc_opt_key(d.key)
}

/// Wire form of an optional root-directory id.
pub open spec fn sp_enc_opt_dir_id(d: Option<DirIdV>) -> Seq<u8> {
    match d {
        None => seq![0u8],
        Some(dir) => seq![1u8] + sp_enc_dir_id(dir),
    }
}

/// Wire form of a whole account.
pub open spec fn spec_encode_account(a: AccountV) -> Seq<u8> {
    sp_lp(a.sign_pk) + sp_lp(a.sign_sk) + sp_lp(a.box_pk) + sp_lp(a.box_sk) + sp_enc_opt_dir_id(
        a.user_root_dir,
    ) + sp_enc_opt_dir_id(a.config_root_dir)
}

// ------------------------------------------------------------------
// Meaning of a byte string
// ------------------------------------------------------------------

/// Reads a data identifier at `pos`.
pub open spec fn sp_dec_data_id(b: Seq<u8>, pos: int) -> Option<(DataIdV, int)> {
    match sp_read_u8(b, pos) {
        None => None,
        Some(tp) => {
            let (t, p1) = tp;
            if t == 0 || t == 2 || t == 3 {
                match sp_read_lp(b, p1) {
                    None => None,
                    Some(np) => {
                        let (n, p2) = np;
                        if n.len() == XOR_NAME_LEN {
                            if t == 0 {
                                Some((DataIdV::Immutable(n), p2))
                            } else if t == 2 {
                                Some((DataIdV::PrivAppendable(n), p2))
                            } else {
                                Some((DataIdV::PubAppendable(n), p2))
                            }
                        } else {
                            None
                        }
                    },
                }
            } else if t == 1 {
                match sp_read_lp(b, p1) {
                    None => None,
                    Some(np) => {
                        let (n, p2) = np;
                        if n.len() == XOR_NAME_LEN {
                            match sp_read_u64(b, p2) {
                                None => None,
                                Some(gp) => Some((DataIdV::Structured(n, gp.0), gp.1)),
                            }
                        } else {
                            None
                        }
                    },
                }
            } else {
                None
            }
        },
    }
}

/// Reads an optional symmetric key at `pos`.
pub open spec fn sp_dec_opt_key(b: Seq<u8>, pos: int) -> Option<(Option<Seq<u8>>, int)> {
    match sp_read_u8(b, pos) {
        None => None,
        Some(tp) => {
            let (t, p1) = tp;
            if t == 0 {
                Some((None, p1))
            } else if t == 1 {
                match sp_read_lp(b, p1) {
                    None => None,
                    Some(kp) => {
                        if kp.0.len() == 32 {
                            Some((Some(kp.0), kp.1))
                        } else {
                            None
                        }
                    },
                }
            } else {
                None
            }
        },
    }
}

/// Reads a root-directory id at `pos`.
pub open spec fn sp_dec_dir_id(b: Seq<u8>, pos: int) -> Option<(DirIdV, int)> {
    match sp_dec_data_id(b, pos) {
        None => None,
        Some(ip) => match sp_dec_opt_key(b, ip.1) {
            None => None,
            Some(kp) => Some((DirIdV { id: ip.0, key: kp.0 }, kp.1)),
        },
    }
}

/// Reads an optional root-directory id at `pos`.
pub open spec fn sp_dec_opt_dir_id(b: Seq<u8>, pos: int) -> Option<(Option<DirIdV>, int)> {
    match sp_read_u8(b, pos) {
        None => None,
        Some(tp) => {
            let (t, p1) = tp;
            if t == 0 {
                Some((None, p1))
            } else if t == 1 {
                match sp_dec_dir_id(b, p1) {
                    None => None,
                    Some(dp) => Some((Some(dp.0), dp.1)),
                }
            } else {
                None
            }
        },
    }
}

/// The account a byte string means, when it is exactly the wire form of
/// one with 32-byte keys.
pub open spec fn sp_dec_account(b: Seq<u8>) -> Option<AccountV> {
    match sp_read_lp(b, 0) {
        None => None,
        Some(q1) => {
            if q1.0.len() != 32 {
                None
            } else {
                match sp_read_lp(b, q1.1) {
                    None => None,
                    Some(q2) => {
                        if q2.0.len() != 32 {
                            None
                        } else {
                            match sp_read_lp(b, q2.1) {
                                None => None,
                                Some(q3) => {
                                    if q3.0.len() != 32 {
                                        None
                                    } else {
                                        match sp_read_lp(b, q3.1) {
                                            None => None,
                                            Some(q4) => {
                                                if q4.0.len() != 32 {
                                                    None
                                                } else {
                                                    sp_dec_account_dirs(b, q1.0, q2.0, q3.0, q4.0, q4.1)
                                                }
                                            },
                                        }
                                    }
                                },
                            }
                        }
                    },
                }
            }
        },
    }
}

/// Continuation of `sp_dec_account`: the two directory slots and the
/// end-of-input check.
pub open spec fn sp_dec_account_dirs(
    b: Seq<u8>,
    sign_pk: Seq<u8>,
    sign_sk: Seq<u8>,
    box_pk: Seq<u8>,
    box_sk: Seq<u8>,
    pos: int,
) -> Option<AccountV> {
    match sp_dec_opt_dir_id(b, pos) {
        None => None,
        Some(up) => match sp_dec_opt_dir_id(b, up.1) {
            None => None,
            Some(cp) => {
                if cp.1 == b.len() {
                    Some(
                        AccountV {
                            sign_pk,
                            sign_sk,
                            box_pk,
                            box_sk,
                            user_root_dir: up.0,
                            config_root_dir: cp.0,
                        },
                    )
                } else {
                    None
                }
            },
        },
    }
}

// ------------------------------------------------------------------
// Decoding undoes encoding
// ------------------------------------------------------------------

/// Reading an encoded number where it starts yields that number.
pub proof fn lemma_read_u64_prefix(b: Seq<u8>, pos: int, v: u64)
    requires
        0 <= pos,
        pos + 8 <= b.len(),
        b.subrange(pos, pos + 8) == spec_u64_to_le_bytes(v),
    ensures
        sp_read_u64(b, pos) == Some((v, pos + 8)),
{
    lemma_auto_spec_u64_to_from_le_bytes();
}

/// Reading an encoded data identifier where it starts yields it back.
pub proof fn lemma_dec_data_id_prefix(b: Seq<u8>, pos: int, d: DataIdV)
    requires
        d.name().len() == XOR_NAME_LEN,
        0 <= pos,
        pos + sp_enc_data_id(d).len() <= b.len(),
        b.subrange(pos, pos + sp_enc_data_id(d).len() as int) == sp_enc_data_id(d),
    ensures
        sp_dec_data_id(b, pos) == Some((d, pos + sp_enc_data_id(d).len())),
{
    lemma_auto_spec_u64_to_from_le_bytes();
    let e = sp_enc_data_id(d);
    let n = d.name();
    let l = e.len() as int;
    match d {
        DataIdV::Structured(nm, tag) => {
            assert(b[pos] == e[0]) by {
                assert(b.subrange(pos, pos + l)[0] == e[0]);
            }
            assert forall|i: int| 0 <= i < 8 + n.len() implies b.subrange(
                pos + 1,
                pos + 1 + 8 + n.len(),
            )[i] == sp_lp(n)[i] by {
                assert(b.subrange(pos, pos + l)[1 + i] == e[1 + i]);
            }
            assert(b.subrange(pos + 1, pos + 1 + 8 + n.len()) =~= sp_lp(n));
            lemma_read_lp(b, pos + 1, n);
            let p2 = pos + 9 + n.len();
            assert forall|i: int| 0 <= i < 8 implies b.subrange(p2, p2 + 8)[i]
                == spec_u64_to_le_bytes(tag)[i] by {
                assert(b.subrange(pos, pos + l)[9 + n.len() + i] == e[9 + n.len() + i]);
            }
            assert(b.subrange(p2, p2 + 8) =~= spec_u64_to_le_bytes(tag));
            lemma_read_u64_prefix(b, p2, tag);
        },
        DataIdV::Immutable(_) => {
            lemma_dec_plain_id_prefix(b, pos, d);
        },
        DataIdV::PrivAppendable(_) => {
            lemma_dec_plain_id_prefix(b, pos, d);
        },
        DataIdV::PubAppendable(_) => {
            lemma_dec_plain_id_prefix(b, pos, d);
        },
    }
}

/// Shared step of `lemma_dec_data_id_prefix` for the variants that are a
/// tag byte and a name alone.
proof fn lemma_dec_plain_id_prefix(b: Seq<u8>, pos: int, d: DataIdV)
    requires
        !(d is Structured),
        d.name().len() == XOR_NAME_LEN,
        0 <= pos,
        pos + sp_enc_data_id(d).len() <= b.len(),
        b.subrange(pos, pos + sp_enc_data_id(d).len() as int) == sp_enc_data_id(d),
    ensures
        sp_dec_data_id(b, pos) == Some((d, pos + sp_enc_data_id(d).len())),
{
    lemma_auto_spec_u64_to_from_le_bytes();
    let e = sp_enc_data_id(d);
    let n = d.name();
    let l = e.len() as int;
    assert(e == seq![sp_plain_id_tag(d)] + sp_lp(n)) by {
        match d {
            DataIdV::Immutable(_) => {},
            DataIdV::Structured(_, _) => {},
            DataIdV::PrivAppendable(_) => {},
            DataIdV::PubAppendable(_) => {},
        }
    }
    assert(b[pos] == e[0]) by {
        assert(b.subrange(pos, pos + l)[0] == e[0]);
    }
    assert forall|i: int| 0 <= i < 8 + n.len() implies b.subrange(
        pos + 1,
        pos + 1 + 8 + n.len(),
    )[i] == sp_lp(n)[i] by {
        assert(b.subrange(pos, pos + l)[1 + i] == e[1 + i]);
    }
    assert(b.subrange(pos + 1, pos + 1 + 8 + n.len()) =~= sp_lp(n));
    lemma_read_lp(b, pos + 1, n);
}

/// The tag byte of the variants without a type tag.
spec fn sp_plain_id_tag(d: DataIdV) -> u8 {
    match d {
        DataIdV::Immutable(_) => 0u8,
        DataIdV::Structured(_, _) => 1u8,
        DataIdV::PrivAppendable(_) => 2u8,
        DataIdV::PubAppendable(_) => 3u8,
    }
}

/// Reading an encoded optional key where it starts yields it back.
pub proof fn lemma_dec_opt_key_prefix(b: Seq<u8>, pos: int, k: Option<Seq<u8>>)
    requires
        k matches Some(key) ==> key.len() == 32,
        0 <= pos,
        pos + sp_enc_opt_key(k).len() <= b.len(),
        b.subrange(pos, pos + sp_enc_opt_key(k).len() as int) == sp_enc_opt_key(k),
    ensures
        sp_dec_opt_key(b, pos) == Some((k, pos + sp_enc_opt_key(k).len())),
{
    lemma_auto_spec_u64_to_from_le_bytes();
    let e = sp_enc_opt_key(k);
    let l = e.len() as int;
    assert(b[pos] == e[0]) by {
        assert(b.subrange(pos, pos + l)[0] == e[0]);
    }
    match k {
        Some(key) => {
            assert forall|i: int| 0 <= i < 8 + key.len() implies b.subrange(
                pos + 1,
                pos + 1 + 8 + key.len(),
            )[i] == sp_lp(key)[i] by {
                assert(b.subrange(pos, pos + l)[1 + i] == e[1 + i]);
            }
            assert(b.subrange(pos + 1, pos + 1 + 8 + key.len()) =~= sp_lp(key));
            lemma_read_lp(b, pos + 1, key);
        },
        None => {},
    }
}

/// Reading an encoded root-directory id where it starts yields it back.
pub proof fn lemma_dec_dir_id_prefix(b: Seq<u8>, pos: int, d: DirIdV)
    requires
        dir_id_wf(d),
        0 <= pos,
        pos + sp_enc_dir_id(d).len() <= b.len(),
        b.subrange(pos, pos + sp_enc_dir_id(d).len() as int) == sp_enc_dir_id(d),
    ensures
        sp_dec_dir_id(b, pos) == Some((d, pos + sp_enc_dir_id(d).len())),
{
    lemma_auto_spec_u64_to_from_le_bytes();
    let e1 = sp_enc_data_id(d.id);
    let e2 = sp_enc_opt_key(d.key);
    let l = (e1.len() + e2.len()) as int;
    assert forall|i: int| 0 <= i < e1.len() implies b.subrange(pos, pos + e1.len() as int)[i]
        == e1[i] by {
        assert(b.subrange(pos, pos + l)[i] == (e1 + e2)[i]);
    }
    assert(b.subrange(pos, pos + e1.len() as int) =~= e1);
    lemma_dec_data_id_prefix(b, pos, d.id);
    let p2 = pos + e1.len() as int;
    assert forall|i: int| 0 <= i < e2.len() implies b.subrange(p2, p2 + e2.len() as int)[i]
        == e2[i] by {
        assert(b.subrange(pos, pos + l)[e1.len() + i] == (e1 + e2)[e1.len() + i]);
    }
    assert(b.subrange(p2, p2 + e2.len() as int) =~= e2);
    lemma_dec_opt_key_prefix(b, p2, d.key);
}

/// Reading an encoded optional root-directory id where it starts yields
/// it back.
pub proof fn lemma_dec_opt_dir_id_prefix(b: Seq<u8>, pos: int, d: Option<DirIdV>)
    requires
        d matches Some(dir) ==> dir_id_wf(dir),
        0 <= pos,
        pos + sp_enc_opt_dir_id(d).len() <= b.len(),
        b.subrange(pos, pos + sp_enc_opt_dir_id(d).len() as int) == sp_enc_opt_dir_id(d),
    ensures
        sp_dec_opt_dir_id(b, pos) == Some((d, pos + sp_enc_opt_dir_id(d).len())),
{
    lemma_auto_spec_u64_to_from_le_bytes();
    let e = sp_enc_opt_dir_id(d);
    let l = e.len() as int;
    assert(b[pos] == e[0]) by {
        assert(b.subrange(pos, pos + l)[0] == e[0]);
    }
    match d {
        Some(dir) => {
            let ed = sp_enc_dir_id(dir);
            assert forall|i: int| 0 <= i < ed.len() implies b.subrange(
                pos + 1,
                pos + 1 + ed.len() as int,
            )[i] == ed[i] by {
                assert(b.subrange(pos, pos + l)[1 + i] == e[1 + i]);
            }
            assert(b.subrange(pos + 1, pos + 1 + ed.len() as int) =~= ed);
            lemma_dec_dir_id_prefix(b, pos + 1, dir);
        },
        None => {},
    }
}

/// Decoding undoes encoding: the wire form of any account with 32-byte
/// keys means exactly that account.
pub proof fn lemma_account_round_trip(a: AccountV)
    requires
        account_codec_wf(a),
    ensures
        sp_dec_account(spec_encode_account(a)) == Some(a),
{
    lemma_auto_spec_u64_to_from_le_bytes();
    let e1 = sp_lp(a.sign_pk);
    let e2 = sp_lp(a.sign_sk);
    let e3 = sp_lp(a.box_pk);
    let e4 = sp_lp(a.box_sk);
    let e5 = sp_enc_opt_dir_id(a.user_root_dir);
    let e6 = sp_enc_opt_dir_id(a.config_root_dir);
    let b = spec_encode_account(a);
    let o1 = e1.len() as int;
    let o2 = o1 + e2.len();
    let o3 = o2 + e3.len();
    let o4 = o3 + e4.len();
    let o5 = o4 + e5.len();
    let o6 = o5 + e6.len();
    assert(b.len() == o6);
    assert(b.subrange(0, o1) =~= e1);
    lemma_read_lp(b, 0, a.sign_pk);
    assert(b.subrange(o1, o1 + e2.len()) =~= e2);
    lemma_read_lp(b, o1, a.sign_sk);
    assert(b.subrange(o2, o2 + e3.len()) =~= e3);
    lemma_read_lp(b, o2, a.box_pk);
    assert(b.subrange(o3, o3 + e4.len()) =~= e4);
    lemma_read_lp(b, o3, a.box_sk);
    assert(b.subrange(o4, o4 + e5.len()) =~= e5);
    lemma_dec_opt_dir_id_prefix(b, o4, a.user_root_dir);
    assert(b.subrange(o5, o5 + e6.len()) =~= e6);
    lemma_dec_opt_dir_id_prefix(b, o5, a.config_root_dir);
}

/// A successful read of a data identifier pins down the bytes it
/// consumed.
proof fn lemma_dec_data_id_sound(b: Seq<u8>, pos: int, d: DataIdV, end: int)
    requires
        sp_dec_data_id(b, pos) == Some((d, end)),
    ensures
        0 <= pos < end <= b.len(),
        d.name().len() == XOR_NAME_LEN,
        end - pos == sp_enc_data_id(d).len(),
        b.subrange(pos, end) == sp_enc_data_id(d),
{
    lemma_auto_spec_u64_to_from_le_bytes();
    let t = b[pos];
    match sp_read_lp(b, pos + 1) {
        None => {
            assert(false);
        },
        Some(np) => {
            let (n, p2) = np;
            lemma_read_lp_sound(b, pos + 1, n, p2);
            if t == 1 {
                match sp_read_u64(b, p2) {
                    None => {
                        assert(false);
                    },
                    Some(gp) => {
                        assert(spec_u64_to_le_bytes(gp.0) =~= b.subrange(p2, p2 + 8));
                        assert(b.subrange(pos, end) =~= seq![1u8] + sp_lp(n) + b.subrange(
                            p2,
                            p2 + 8,
                        ));
                    },
                }
            } else {
                assert(b.subrange(pos, end) =~= seq![t] + sp_lp(n));
            }
        },
    }
}

/// A successful read of an optional key pins down the bytes it
/// consumed.
proof fn lemma_dec_opt_key_sound(b: Seq<u8>, pos: int, k: Option<Seq<u8>>, end: int)
    requires
        sp_dec_opt_key(b, pos) == Some((k, end)),
    ensures
        0 <= pos < end <= b.len(),
        k matches Some(key) ==> key.len() == 32,
        end - pos == sp_enc_opt_key(k).len(),
        b.subrange(pos, end) == sp_enc_opt_key(k),
{
    lemma_auto_spec_u64_to_from_le_bytes();
    let t = b[pos];
    if t == 0 {
        assert(b.subrange(pos, end) =~= seq![0u8]);
    } else {
        match sp_read_lp(b, pos + 1) {
            None => {
                assert(false);
            },
            Some(kp) => {
                lemma_read_lp_sound(b, pos + 1, kp.0, kp.1);
                assert(b.subrange(pos, end) =~= seq![1u8] + sp_lp(kp.0));
            },
        }
    }
}

/// A successful read of an optional root-directory id pins down the
/// bytes it consumed.
proof fn lemma_dec_opt_dir_id_sound(b: Seq<u8>, pos: int, d: Option<DirIdV>, end: int)
    requires
        sp_dec_opt_dir_id(b, pos) == Some((d, end)),
    ensures
        0 <= pos < end <= b.len(),
        d matches Some(dir) ==> dir_id_wf(dir),
        end - pos == sp_enc_opt_dir_id(d).len(),
        b.subrange(pos, end) == sp_enc_opt_dir_id(d),
{
    let t = b[pos];
    if t == 0 {
        assert(b.subrange(pos, end) =~= seq![0u8]);
    } else {
        match sp_dec_data_id(b, pos + 1) {
            None => {
                assert(false);
            },
            Some(ip) => {
                lemma_dec_data_id_sound(b, pos + 1, ip.0, ip.1);
                match sp_dec_opt_key(b, ip.1) {
                    None => {
                        assert(false);
                    },
                    Some(kp) => {
                        lemma_dec_opt_key_sound(b, ip.1, kp.0, kp.1);
                        assert(b.subrange(pos, end) =~= seq![1u8] + b.subrange(pos + 1, ip.1)
                            + b.subrange(ip.1, end));
                    },
                }
            },
        }
    }
}

/// A byte string that means an account is exactly that account's wire
/// form, and the account has the codec's shape.
pub proof fn lemma_dec_account_sound(b: Seq<u8>, a: AccountV)
    requires
        sp_dec_account(b) == Some(a),
    ensures
        b == spec_encode_account(a),
        account_codec_wf(a),
{
    match sp_read_lp(b, 0) {
        None => {
            assert(false);
        },
        Some(q1) => {
            lemma_read_lp_sound(b, 0, q1.0, q1.1);
            match sp_read_lp(b, q1.1) {
                None => {
                    assert(false);
                },
                Some(q2) => {
                    lemma_read_lp_sound(b, q1.1, q2.0, q2.1);
                    match sp_read_lp(b, q2.1) {
                        None => {
                            assert(false);
                        },
                        Some(q3) => {
                            lemma_read_lp_sound(b, q2.1, q3.0, q3.1);
                            match sp_read_lp(b, q3.1) {
                                None => {
                                    assert(false);
                                },
                                Some(q4) => {
                                    lemma_read_lp_sound(b, q3.1, q4.0, q4.1);
                                    lemma_dec_account_dirs_sound(b, a, q4.1);
                                    assert(b =~= b.subrange(0, q4.1) + b.subrange(
                                        q4.1,
                                        b.len() as int,
                                    ));
                                    assert(b.subrange(0, q4.1) =~= sp_lp(a.sign_pk) + sp_lp(
                                        a.sign_sk,
                                    ) + sp_lp(a.box_pk) + sp_lp(a.box_sk));
                                    assert(b =~= spec_encode_account(a));
                                },
                            }
                        },
                    }
                },
            }
        },
    }
}

/// Soundness of the directory-slot tail of the account decoder.
proof fn lemma_dec_account_dirs_sound(b: Seq<u8>, a: AccountV, pos: int)
    requires
        0 <= pos <= b.len(),
        sp_dec_account_dirs(b, a.sign_pk, a.sign_sk, a.box_pk, a.box_sk, pos) == Some(a),
    ensures
        b.subrange(pos, b.len() as int) == sp_enc_opt_dir_id(a.user_root_dir)
            + sp_enc_opt_dir_id(a.config_root_dir),
        a.user_root_dir matches Some(d) ==> dir_id_wf(d),
        a.config_root_dir matches Some(d) ==> dir_id_wf(d),
{
    match sp_dec_opt_dir_id(b, pos) {
        None => {
            assert(false);
        },
        Some(up) => {
            lemma_dec_opt_dir_id_sound(b, pos, up.0, up.1);
            match sp_dec_opt_dir_id(b, up.1) {
                None => {
                    assert(false);
                },
                Some(cp) => {
                    lemma_dec_opt_dir_id_sound(b, up.1, cp.0, cp.1);
                    assert(b.subrange(pos, b.len() as int) =~= b.subrange(pos, up.1)
                        + b.subrange(up.1, cp.1));
                },
            }
        },
    }
}

// ------------------------------------------------------------------
// The account itself
// ------------------------------------------------------------------

/// The user's account: the maid signing keypair (stored as seed and
/// public key), the box keypair, and the two root-directory slots.
#[derive(PartialEq, Eq, Debug)]
pub struct Account {
    sign_pk: Vec<u8>,
    sign_sk: Vec<u8>,
    box_pk: Vec<u8>,
    box_sk: Vec<u8>,
    user_root_dir: Option<(DataIdentifier, Option<Vec<u8>>)>,
    config_root_dir: Option<(DataIdentifier, Option<Vec<u8>>)>,
}

impl View for Account {
    type V = AccountV;

    closed spec fn view(&self) -> AccountV {
        AccountV {
            sign_pk: self.sign_pk@,
            sign_sk: self.sign_sk@,
            box_pk: self.box_pk@,
            box_sk: self.box_sk@,
            user_root_dir: opt_dir_id_view(self.user_root_dir),
            config_root_dir: opt_dir_id_view(self.config_root_dir),
        }
    }
}

impl Account {
    /// A fresh account with random keys and both directory slots empty.
    pub fn new() -> (r: Result<Account, CoreError>)
        ensures
            r matches Ok(a) ==> a@.wf() && a@.user_root_dir is None && a@.config_root_dir
                is None,
            r matches Err(e) ==> e == CoreError::RandomDataGenerationFailure,
    {
        let sign_sk = match random_bytes(32) {
            Some(b) => b,
            None => {
                return Err(CoreError::RandomDataGenerationFailure);
            },
        };
        let box_pk = match random_bytes(32) {
            Some(b) => b,
            None => {
                return Err(CoreError::RandomDataGenerationFailure);
            },
        };
        let box_sk = match random_bytes(32) {
            Some(b) => b,
            None => {
                return Err(CoreError::RandomDataGenerationFailure);
            },
        };
        let sign_pk = sign_public_key(&sign_sk);
        Ok(
            Account {
                sign_pk,
                sign_sk,
                box_pk,
                box_sk,
                user_root_dir: None,
                config_root_dir: None,
            },
        )
    }

    /// Computes the session packet's network address from keyword and pin.
    pub fn generate_network_id(keyword: &Vec<u8>, pin: &Vec<u8>) -> (r: XorName)
        ensures
            r@ == spec_network_id(keyword@, pin@),
            r.wf(),
    {
        let mut input: Vec<u8> = Vec::new();
        push_bytes(&mut input, keyword);
        push_bytes(&mut input, pin);
        assert(input@ =~= keyword@ + pin@);
        let digest = sha256_hash(&input);
        XorName::from_bytes(digest)
    }

    pub fn public_sign_key(&self) -> (r: &Vec<u8>)
        ensures
            r@ == self@.sign_pk,
    {
        &self.sign_pk
    }

    /// The seed of the maid secret signing key.
    pub fn secret_sign_seed(&self) -> (r: &Vec<u8>)
        ensures
            r@ == self@.sign_sk,
    {
        &self.sign_sk
    }

    pub fn public_box_key(&self) -> (r: &Vec<u8>)
        ensures
            r@ == self@.box_pk,
    {
        &self.box_pk
    }

    pub fn secret_box_key(&self) -> (r: &Vec<u8>)
        ensures
            r@ == self@.box_sk,
    {
        &self.box_sk
    }

    pub fn user_root_dir(&self) -> (r: &Option<(DataIdentifier, Option<Vec<u8>>)>)
        ensures
            opt_dir_id_view(*r) == self@.user_root_dir,
    {
        &self.user_root_dir
    }

    pub fn config_root_dir(&self) -> (r: &Option<(DataIdentifier, Option<Vec<u8>>)>)
        ensures
            opt_dir_id_view(*r) == self@.config_root_dir,
    {
        &self.config_root_dir
    }

    /// Fills the user root-directory slot if it was empty; reports
    /// whether it did.
    pub fn set_user_root_dir_id(&mut self, dir_id: (DataIdentifier, Option<Vec<u8>>)) -> (r:
        bool)
        ensures
            r == (old(self)@.user_root_dir is None),
            r ==> final(self)@ == (AccountV {
                user_root_dir: Some(dir_id_view(dir_id)),
                ..old(self)@
            }),
            !r ==> final(self)@ == old(self)@,
    {
        match &self.user_root_dir {
            Some(_) => false,
            None => {
                self.user_root_dir = Some(dir_id);
                true
            },
        }
    }

    /// Fills the configuration root-directory slot if it was empty;
    /// reports whether it did.
    pub fn set_config_root_dir(&mut self, dir_id: (DataIdentifier, Option<Vec<u8>>)) -> (r:
        bool)
        ensures
            r == (old(self)@.config_root_dir is None),
            r ==> final(self)@ == (AccountV {
                config_root_dir: Some(dir_id_view(dir_id)),
                ..old(self)@
            }),
            !r ==> final(self)@ == old(self)@,
    {
        match &self.config_root_dir {
            Some(_) => false,
            None => {
                self.config_root_dir = Some(dir_id);
                true
            },
        }
    }

    /// Serializes and seals the account under the credentials.
    pub fn encrypt(&self, password: &Vec<u8>, pin: &Vec<u8>) -> (r: Vec<u8>)
        ensures
            r@ == spec_account_cipher(self@, password@, pin@),
    {
        let plain = encode_account(self);
        let key = session_key(password, pin);
        let nonce = session_nonce(password, pin);
        secretbox_seal(&key, &nonce, &plain)
    }

    /// Opens the session packet and decodes the account within.
    ///
    /// Together with `encrypt` this states the round trip: decrypting
    /// under the credentials a packet was encrypted under recovers that
    /// same account (the second `ensures` clause), and every other
    /// input fails with the error that says why.
    pub fn decrypt(cipher: &Vec<u8>, password: &Vec<u8>, pin: &Vec<u8>) -> (r: Result<
        Account,
        CoreError,
    >)
        ensures
            ({
                let k = spec_session_key(password@, pin@);
                let n = spec_session_nonce(password@, pin@);
                match r {
                    Ok(a) => cipher@ == spec_account_cipher(a@, password@, pin@)
                        && account_codec_wf(a@),
                    Err(e) => match e {
                        CoreError::SymmetricDecipherFailure => !(exists|p: Seq<u8>|
                            cipher@ == seal_of(k, n, p)),
                        CoreError::EncodeDecodeError => exists|p: Seq<u8>|
                            cipher@ == seal_of(k, n, p) && sp_dec_account(p) is None,
                        _ => false,
                    },
                }
            }),
            forall|av: AccountV|
                account_codec_wf(av) && #[trigger] spec_account_cipher(av, password@, pin@)
                    == cipher@ ==> (r matches Ok(a) && a@ == av),
    {
        let key = session_key(password, pin);
        let nonce = session_nonce(password, pin);
        let ghost k = spec_session_key(password@, pin@);
        let ghost n = spec_session_nonce(password@, pin@);
        match secretbox_open(&key, &nonce, cipher) {
            None => {
                proof {
                    assert forall|av: AccountV|
                        account_codec_wf(av) && #[trigger] spec_account_cipher(
                            av,
                            password@,
                            pin@,
                        ) == cipher@ implies false by {
                        assert(cipher@ == seal_of(k, n, spec_encode_account(av)));
                    }
                }
                Err(CoreError::SymmetricDecipherFailure)
            },
            Some(plain) => {
                match decode_account(&plain) {
                    Some(a) => {
                        proof {
                            assert forall|av: AccountV|
                                account_codec_wf(av) && #[trigger] spec_account_cipher(
                                    av,
                                    password@,
                                    pin@,
                                ) == cipher@ implies a@ == av by {
                                assert(cipher@ == seal_of(k, n, spec_encode_account(av)));
                                assert(plain@ == spec_encode_account(av));
                                lemma_account_round_trip(av);
                            }
                            assert(sp_dec_account(plain@) == Some(a@));
                            lemma_dec_account_sound(plain@, a@);
                            assert(cipher@ == seal_of(k, n, plain@));
                        }
                        Ok(a)
                    },
                    None => {
                        proof {
                            assert forall|av: AccountV|
                                account_codec_wf(av) && #[trigger] spec_account_cipher(
                                    av,
                                    password@,
                                    pin@,
                                ) == cipher@ implies false by {
                                assert(cipher@ == seal_of(k, n, spec_encode_account(av)));
                                assert(plain@ == spec_encode_account(av));
                                lemma_account_round_trip(av);
                            }
                            assert(cipher@ == seal_of(k, n, plain@) && sp_dec_account(plain@)
                                is None);
                        }
                        Err(CoreError::EncodeDecodeError)
                    },
                }
            },
        }
    }
}

/// The session packet's payload: the account's wire form sealed under
/// the key and nonce derived from the credentials.
pub open spec fn spec_account_cipher(a: AccountV, password: Seq<u8>, pin: Seq<u8>) -> Seq<u8> {
    seal_of(
        spec_session_key(password, pin),
        spec_session_nonce(password, pin),
        spec_encode_account(a),
    )
}

// ------------------------------------------------------------------
// Exec codec
// ------------------------------------------------------------------

fn write_data_id(dst: &mut Vec<u8>, d: &DataIdentifier)
    ensures
        final(dst)@ == old(dst)@ + sp_enc_data_id(d@),
{
    match d {
        DataIdentifier::Immutable(nm) => {
            dst.push(0);
            write_lp(dst, nm.as_bytes());
            assert(dst@ =~= old(dst)@ + sp_enc_data_id(d@));
        },
        DataIdentifier::Structured(nm, tag) => {
            dst.push(1);
            write_lp(dst, nm.as_bytes());
            crate::wire::write_u64(dst, *tag);
            assert(dst@ =~= old(dst)@ + sp_enc_data_id(d@));
        },
        DataIdentifier::PrivAppendable(nm) => {
            dst.push(2);
            write_lp(dst, nm.as_bytes());
            assert(dst@ =~= old(dst)@ + sp_enc_data_id(d@));
        },
        DataIdentifier::PubAppendable(nm) => {
            dst.push(3);
            write_lp(dst, nm.as_bytes());
            assert(dst@ =~= old(dst)@ + sp_enc_data_id(d@));
        },
    }
}

fn write_opt_key(dst: &mut Vec<u8>, k: &Option<Vec<u8>>)
    ensures
        final(dst)@ == old(dst)@ + sp_enc_opt_key(
            match k {
                Some(key) => Some(key@),
                None => None,
            },
        ),
{
    match k {
        None => {
            dst.push(0);
            assert(dst@ =~= old(dst)@ + seq![0u8]);
        },
        Some(key) => {
            dst.push(1);
            write_lp(dst, key);
            assert(dst@ =~= old(dst)@ + (seq![1u8] + sp_lp(key@)));
        },
    }
}

fn write_opt_dir_id(dst: &mut Vec<u8>, d: &Option<(DataIdentifier, Option<Vec<u8>>)>)
    ensures
        final(dst)@ == old(dst)@ + sp_enc_opt_dir_id(opt_dir_id_view(*d)),
{
    match d {
        None => {
            dst.push(0);
            assert(dst@ =~= old(dst)@ + seq![0u8]);
        },
        Some(dir) => {
            dst.push(1);
            write_data_id(dst, &dir.0);
            write_opt_key(dst, &dir.1);
            assert(dst@ =~= old(dst)@ + sp_enc_opt_dir_id(opt_dir_id_view(*d)));
        },
    }
}

/// Serializes an account to its wire form.
pub fn encode_account(a: &Account) -> (r: Vec<u8>)
    ensures
        r@ == spec_encode_account(a@),
{
    let mut out: Vec<u8> = Vec::new();
    write_lp(&mut out, &a.sign_pk);
    write_lp(&mut out, &a.sign_sk);
    write_lp(&mut out, &a.box_pk);
    write_lp(&mut out, &a.box_sk);
    write_opt_dir_id(&mut out, &a.user_root_dir);
    write_opt_dir_id(&mut out, &a.config_root_dir);
    assert(out@ =~= spec_encode_account(a@));
    out
}

fn dec_data_id_at(b: &Vec<u8>, pos: usize) -> (r: Option<(DataIdentifier, usize)>)
    ensures
        match sp_dec_data_id(b@, pos as int) {
            Some(vp) => r matches Some(q) && q.0@ == vp.0 && q.1 == vp.1,
            None => r is None,
        },
{
    match read_u8_at(b, pos) {
        None => None,
        Some((t, p1)) => {
            if t == 0 || t == 2 || t == 3 {
                match read_lp_at(b, p1) {
                    None => None,
                    Some((nm, p2)) => {
                        if nm.len() == XOR_NAME_LEN {
                            let name = XorName::from_bytes(nm);
                            if t == 0 {
                                Some((DataIdentifier::Immutable(name), p2))
                            } else if t == 2 {
                                Some((DataIdentifier::PrivAppendable(name), p2))
                            } else {
                                Some((DataIdentifier::PubAppendable(name), p2))
                            }
                        } else {
                            None
                        }
                    },
                }
            } else if t == 1 {
                match read_lp_at(b, p1) {
                    None => None,
                    Some((nm, p2)) => {
                        if nm.len() == XOR_NAME_LEN {
                            match read_u64_at(b, p2) {
                                None => None,
                                Some((tag, p3)) => {
                                    let name = XorName::from_bytes(nm);
                                    Some((DataIdentifier::Structured(name, tag), p3))
                                },
                            }
                        } else {
                            None
                        }
                    },
                }
            } else {
                None
            }
        },
    }
}

fn dec_opt_key_at(b: &Vec<u8>, pos: usize) -> (r: Option<(Option<Vec<u8>>, usize)>)
    ensures
        match sp_dec_opt_key(b@, pos as int) {
            Some(vp) => r matches Some(q) && (match (q.0, vp.0) {
                (Some(kv), Some(sv)) => kv@ == sv,
                (None, None) => true,
                _ => false,
            }) && q.1 == vp.1,
            None => r is None,
        },
{
    match read_u8_at(b, pos) {
        None => None,
        Some((t, p1)) => {
            if t == 0 {
                Some((None, p1))
            } else if t == 1 {
                match read_lp_at(b, p1) {
                    None => None,
                    Some((key, p2)) => {
                        if key.len() == 32 {
                            Some((Some(key), p2))
                        } else {
                            None
                        }
                    },
                }
            } else {
                None
            }
        },
    }
}

fn dec_opt_dir_id_at(b: &Vec<u8>, pos: usize) -> (r: Option<
    (Option<(DataIdentifier, Option<Vec<u8>>)>, usize),
>)
    ensures
        match sp_dec_opt_dir_id(b@, pos as int) {
            Some(vp) => r matches Some(q) && opt_dir_id_view(q.0) == vp.0 && q.1 == vp.1,
            None => r is None,
        },
{
    match read_u8_at(b, pos) {
        None => None,
        Some((t, p1)) => {
            if t == 0 {
                Some((None, p1))
            } else if t == 1 {
                match dec_data_id_at(b, p1) {
                    None => None,
                    Some((id, p2)) => match dec_opt_key_at(b, p2) {
                        None => None,
                        Some((key, p3)) => Some((Some((id, key)), p3)),
                    },
                }
            } else {
                None
            }
        },
    }
}

/// Recovers an account from its wire form; fails on every other byte
/// string.
pub fn decode_account(b: &Vec<u8>) -> (r: Option<Account>)
    ensures
        match sp_dec_account(b@) {
            Some(av) => r matches Some(a) && a@ == av,
            None => r is None,
        },
{
    let q1 = match read_lp_at(b, 0) {
        Some(q) => q,
        None => {
            return None;
        },
    };
    if q1.0.len() != 32 {
        return None;
    }
    let q2 = match read_lp_at(b, q1.1) {
        Some(q) => q,
        None => {
            return None;
        },
    };
    if q2.0.len() != 32 {
        return None;
    }
    let q3 = match read_lp_at(b, q2.1) {
        Some(q) => q,
        None => {
            return None;
        },
    };
    if q3.0.len() != 32 {
        return None;
    }
    let q4 = match read_lp_at(b, q3.1) {
        Some(q) => q,
        None => {
            return None;
        },
    };
    if q4.0.len() != 32 {
        return None;
    }
    let q5 = match dec_opt_dir_id_at(b, q4.1) {
        Some(q) => q,
        None => {
            return None;
        },
    };
    let q6 = match dec_opt_dir_id_at(b, q5.1) {
        Some(q) => q,
        None => {
            return None;
        },
    };
    if q6.1 != b.len() {
        return None;
    }
    Some(
        Account {
            sign_pk: q1.0,
            sign_sk: q2.0,
            box_pk: q3.0,
            box_sk: q4.0,
            user_root_dir: q5.0,
            config_root_dir: q6.0,
        },
    )
}

} // verus!
