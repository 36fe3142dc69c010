//! Cryptographic primitives, taken on trust from their crates, and the
//! deterministic credential derivation built on them.
//!
//! The primitives are black boxes: each result that is a pure function of
//! its inputs is given a name (`sha256_of`, `seal_of`, `sign_of`,
//! `sign_pk_of`), and the contracts of the library speak through those
//! names.  Everything layered on top — secret expansion, the session-packet
//! key and nonce, the network id — is ordinary verified code.

use vstd::prelude::*;

use crate::types::clone_bytes;
use crypto_secretbox::aead::Aead;
use crypto_secretbox::KeyInit;
use ed25519_dalek::Signer;
use sha2::Digest;
use vstd::string::StrSliceExecFns;
use vstd::string::StringSliceAdditionalSpecFns;

verus! {

/// The SHA-256 digest of a byte string.
pub uninterp spec fn sha256_of(b: Seq<u8>) -> Seq<u8>;

/// The secretbox ciphertext of a plaintext under a 32-byte key and a
/// 24-byte nonce.
pub uninterp spec fn seal_of(key: Seq<u8>, nonce: Seq<u8>, plain: Seq<u8>) -> Seq<u8>;

/// The Ed25519 signature of a message under the signing key with the
/// given 32-byte seed.
pub uninterp spec fn sign_of(seed: Seq<u8>, msg: Seq<u8>) -> Seq<u8>;

/// The Ed25519 public key of the signing key with the given 32-byte seed.
pub uninterp spec fn sign_pk_of(seed: Seq<u8>) -> Seq<u8>;

/// Relies on sha2::Sha256: the 32-byte digest depends on the input bytes
/// alone.
#[verifier::external_body]
pub fn sha256_hash(b: &Vec<u8>) -> (r: Vec<u8>)
    ensures
        r@ == sha256_of(b@),
        r@.len() == 32,
{
    sha2::Sha256::digest(b.as_slice()).to_vec()
}

/// Relies on crypto_secretbox::XSalsa20Poly1305, the NaCl secretbox
/// construction: the ciphertext depends on key, nonce and plaintext alone,
/// and sealing a plaintext into a vector cannot fail.
#[verifier::external_body]
pub fn secretbox_seal(key: &Vec<u8>, nonce: &Vec<u8>, plain: &Vec<u8>) -> (r: Vec<u8>)
    requires
        key@.len() == 32,
        nonce@.len() == 24,
    ensures
        r@ == seal_of(key@, nonce@, plain@),
{
    let cipher = crypto_secretbox::XSalsa20Poly1305::new(
        crypto_secretbox::Key::from_slice(key.as_slice()),
    );
    match cipher.encrypt(
        crypto_secretbox::Nonce::from_slice(nonce.as_slice()),
        plain.as_slice(),
    ) {
        Ok(c) => c,
        // encrypting into a freshly allocated vector cannot fail
        Err(_) => Vec::new(),
    }
}

/// Relies on crypto_secretbox::XSalsa20Poly1305: opening returns the
/// plaintext whose sealing under the same key and nonce produced the
/// ciphertext, and fails on every byte string that is not such a seal.
#[verifier::external_body]
pub fn secretbox_open(key: &Vec<u8>, nonce: &Vec<u8>, cipher: &Vec<u8>) -> (r: Option<Vec<u8>>)
    requires
        key@.len() == 32,
        nonce@.len() == 24,
    ensures
        r is None ==> forall|p: Seq<u8>| cipher@ != seal_of(key@, nonce@, p),
        r matches Some(q) ==> cipher@ == seal_of(key@, nonce@, q@),
        r matches Some(q) ==> forall|p: Seq<u8>| cipher@ == seal_of(key@, nonce@, p) ==> q@ == p,
{
    let sb = crypto_secretbox::XSalsa20Poly1305::new(
        crypto_secretbox::Key::from_slice(key.as_slice()),
    );
    sb.decrypt(
        crypto_secretbox::Nonce::from_slice(nonce.as_slice()),
        cipher.as_slice(),
    ).ok()
}

/// Relies on ed25519_dalek::SigningKey: Ed25519 signing is deterministic,
/// so the 64-byte signature depends on the seed and the message alone.
#[verifier::external_body]
pub fn sign_detached(seed: &Vec<u8>, msg: &Vec<u8>) -> (r: Vec<u8>)
    requires
        seed@.len() == 32,
    ensures
        r@ == sign_of(seed@, msg@),
        r@.len() == 64,
{
    let mut s = [0u8; 32];
    s.copy_from_slice(seed.as_slice());
    let sk = ed25519_dalek::SigningKey::from_bytes(&s);
    sk.sign(msg.as_slice()).to_bytes().to_vec()
}

/// Relies on ed25519_dalek::SigningKey::verifying_key: the 32-byte public
/// key is derived from the seed alone.
#[verifier::external_body]
pub fn sign_public_key(seed: &Vec<u8>) -> (r: Vec<u8>)
    requires
        seed@.len() == 32,
    ensures
        r@ == sign_pk_of(seed@),
        r@.len() == 32,
{
    let mut s = [0u8; 32];
    s.copy_from_slice(seed.as_slice());
    let sk = ed25519_dalek::SigningKey::from_bytes(&s);
    sk.verifying_key().to_bytes().to_vec()
}

/// Relies on getrandom::fill for the system's randomness.  Nothing is
/// promised of the bytes beyond their count.
#[verifier::external_body]
pub fn random_bytes(n: usize) -> (r: Option<Vec<u8>>)
    ensures
        r matches Some(b) ==> b@.len() == n,
{
    let mut buf: Vec<u8> = vec![0u8; n];
    match getrandom::fill(buf.as_mut_slice()) {
        Ok(()) => Some(buf),
        Err(_) => None,
    }
}

/// The two in-memory secrets a registered client keeps for the lifetime
/// of a session, to re-encrypt the session packet on updates.
#[derive(PartialEq, Eq, Debug)]
pub struct UserCred {
    pub pin: Vec<u8>,
    pub password: Vec<u8>,
}

impl UserCred {
    pub fn new(password: Vec<u8>, pin: Vec<u8>) -> (r: UserCred)
        ensures
            r.password@ == password@,
            r.pin@ == pin@,
    {
        UserCred { pin, password }
    }
}

impl Clone for UserCred {
    fn clone(&self) -> (r: Self)
        ensures
            r.password@ == self.password@,
            r.pin@ == self.pin@,
    {
        UserCred { pin: clone_bytes(&self.pin), password: clone_bytes(&self.password) }
    }
}

/// Expansion of the locator secret and the password secret into the
/// password byte string: a domain-separated digest.
pub open spec fn spec_derived_password(l: Seq<u8>, p: Seq<u8>) -> Seq<u8> {
    sha256_of(seq![0u8] + p + l)
}

/// Expansion into the keyword byte string.
pub open spec fn spec_derived_keyword(l: Seq<u8>) -> Seq<u8> {
    sha256_of(seq![1u8] + l)
}

/// Expansion into the pin byte string.
pub open spec fn spec_derived_pin(l: Seq<u8>, p: Seq<u8>) -> Seq<u8> {
    sha256_of(seq![2u8] + l + p)
}

/// Expands the two user-supplied secrets into the `(password, keyword,
/// pin)` byte strings.  The expansion is a pure function of the secrets,
/// so identical inputs reach identical outputs across runs — the property
/// login depends on.
pub fn derive_secrets(acc_locator: &str, acc_password: &str) -> (r: (Vec<u8>, Vec<u8>, Vec<u8>))
    ensures
        r.0@ == spec_derived_password(acc_locator.spec_bytes(), acc_password.spec_bytes()),
        r.1@ == spec_derived_keyword(acc_locator.spec_bytes()),
        r.2@ == spec_derived_pin(acc_locator.spec_bytes(), acc_password.spec_bytes()),
{
    let lb = acc_locator.as_bytes_vec();
    let pb = acc_password.as_bytes_vec();

    let mut pw_in: Vec<u8> = Vec::new();
    pw_in.push(0);
    crate::errors::push_bytes(&mut pw_in, &pb);
    crate::errors::push_bytes(&mut pw_in, &lb);
    assert(pw_in@ =~= seq![0u8] + pb@ + lb@);
    let password = sha256_hash(&pw_in);

    let mut kw_in: Vec<u8> = Vec::new();
    kw_in.push(1);
    crate::errors::push_bytes(&mut kw_in, &lb);
    assert(kw_in@ =~= seq![1u8] + lb@);
    let keyword = sha256_hash(&kw_in);

    let mut pin_in: Vec<u8> = Vec::new();
    pin_in.push(2);
    crate::errors::push_bytes(&mut pin_in, &lb);
    crate::errors::push_bytes(&mut pin_in, &pb);
    assert(pin_in@ =~= seq![2u8] + lb@ + pb@);
    let pin = sha256_hash(&pin_in);

    (password, keyword, pin)
}

/// The network address of the session packet: a digest of keyword and pin.
pub open spec fn spec_network_id(keyword: Seq<u8>, pin: Seq<u8>) -> Seq<u8> {
    sha256_of(keyword + pin)
}

/// The symmetric key the session packet is sealed under.
pub open spec fn spec_session_key(password: Seq<u8>, pin: Seq<u8>) -> Seq<u8> {
    sha256_of(seq![3u8] + password + pin)
}

/// The nonce the session packet is sealed under: a digest truncated to
/// the 24 bytes secretbox asks for.
pub open spec fn spec_session_nonce(password: Seq<u8>, pin: Seq<u8>) -> Seq<u8> {
    sha256_of(seq![4u8] + pin + password).take(24)
}

/// Derives the session-packet key from the user credentials.
pub fn session_key(password: &Vec<u8>, pin: &Vec<u8>) -> (r: Vec<u8>)
    ensures
        r@ == spec_session_key(password@, pin@),
        r@.len() == 32,
{
    let mut input: Vec<u8> = Vec::new();
    input.push(3);
    crate::errors::push_bytes(&mut input, password);
    crate::errors::push_bytes(&mut input, pin);
    assert(input@ =~= seq![3u8] + password@ + pin@);
    sha256_hash(&input)
}

/// Derives the session-packet nonce from the user credentials.
pub fn session_nonce(password: &Vec<u8>, pin: &Vec<u8>) -> (r: Vec<u8>)
    ensures
        r@ == spec_session_nonce(password@, pin@),
        r@.len() == 24,
{
    let mut input: Vec<u8> = Vec::new();
    input.push(4);
    crate::errors::push_bytes(&mut input, pin);
    crate::errors::push_bytes(&mut input, password);
    assert(input@ =~= seq![4u8] + pin@ + password@);
    let mut digest = sha256_hash(&input);
    digest.truncate(24);
    assert(digest@ =~= sha256_of(seq![4u8] + pin@ + password@).take(24));
    digest
}

} // verus!
