//! Trusted bindings to the cryptographic primitives of `ring`.
//!
//! Each primitive whose output is a pure function of its inputs gets an
//! uninterpreted name; the wrappers promise that the call returns that name
//! applied to the arguments, plus the output length the documentation gives.
//! The rest of the crate reasons about the names only.

use vstd::prelude::*;

verus! {

/// The PBKDF2-HMAC-SHA512 derivation of `len` bytes from a secret and a salt.
pub uninterp spec fn pbkdf2_sha512(secret: Seq<char>, salt: Seq<char>, iterations: u32, len: nat) -> Seq<u8>;

/// The HKDF-SHA512 extract-then-expand of `len` bytes.
pub uninterp spec fn hkdf_sha512(salt: Seq<char>, ikm: Seq<u8>, info: Seq<char>, len: nat) -> Seq<u8>;

/// The 64-byte HMAC-SHA512 tag of `data` under `key`.
pub uninterp spec fn hmac_sha512(key: Seq<u8>, data: Seq<u8>) -> Seq<u8>;

/// The ChaCha20-Poly1305 sealing of `msg` under `key` and `nonce` with empty
/// additional data: the ciphertext followed by the 16-byte tag.
pub uninterp spec fn chacha20_poly1305_seal(key: Seq<u8>, nonce: Seq<u8>, msg: Seq<u8>) -> Seq<u8>;

/// Relies on ring::pbkdf2::derive with PBKDF2_HMAC_SHA512: fills the output
/// buffer with the PBKDF2 derivation of the secret and salt, a deterministic
/// function of the inputs.
#[verifier::external_body]
pub(crate) fn pbkdf2_derive(secret: &str, salt: &str, iterations: u32, len: usize) -> (r: Vec<u8>)
    requires
        1 <= iterations,
        len <= 0xffff_ffff,
        secret@.len() <= 0x1000_0000_0000_0000,
        salt@.len() <= 0x1000_0000_0000_0000,
    ensures
        r@ == pbkdf2_sha512(secret@, salt@, iterations, len as nat),
        r@.len() == len,
{
    let mut out = vec![0u8; len];
    ring::pbkdf2::derive(
        ring::pbkdf2::PBKDF2_HMAC_SHA512,
        core::num::NonZeroU32::new(iterations).unwrap(),
        salt.as_bytes(),
        secret.as_bytes(),
        &mut out,
    );
    out
}

/// Relies on ring::hkdf with HKDF_SHA512: extract from the keying material
/// with the salt, then expand 32 bytes under the info label.  The output
/// depends only on the inputs and the requested length, so both wrappers
/// apply the same name.  CHACHA20_POLY1305 serves solely as the 32-byte
/// output-length marker that ring's expand interface asks for.
#[verifier::external_body]
pub(crate) fn hkdf_derive_32(salt: &str, ikm: &[u8], info: &str) -> (r: Vec<u8>)
    requires
        salt@.len() <= 0x1000_0000_0000_0000,
        ikm@.len() <= 0x1000_0000_0000_0000,
        info@.len() <= 0x1000_0000_0000_0000,
    ensures
        r@ == hkdf_sha512(salt@, ikm@, info@, 32),
        r@.len() == 32,
{
    let salt = ring::hkdf::Salt::new(ring::hkdf::HKDF_SHA512, salt.as_bytes());
    let prk = salt.extract(ikm);
    let info = [info.as_bytes()];
    let okm = prk.expand(&info, &ring::aead::CHACHA20_POLY1305).unwrap();
    let mut out = vec![0u8; 32];
    okm.fill(&mut out).unwrap();
    out
}

/// Relies on ring::hkdf with HKDF_SHA512, as hkdf_derive_32 does, for a
/// 16-byte output.  AES_128_GCM serves solely as the 16-byte output-length
/// marker that ring's expand interface asks for.
#[verifier::external_body]
pub(crate) fn hkdf_derive_16(salt: &str, ikm: &[u8], info: &str) -> (r: Vec<u8>)
    requires
        salt@.len() <= 0x1000_0000_0000_0000,
        ikm@.len() <= 0x1000_0000_0000_0000,
        info@.len() <= 0x1000_0000_0000_0000,
    ensures
        r@ == hkdf_sha512(salt@, ikm@, info@, 16),
        r@.len() == 16,
{
    let salt = ring::hkdf::Salt::new(ring::hkdf::HKDF_SHA512, salt.as_bytes());
    let prk = salt.extract(ikm);
    let info = [info.as_bytes()];
    let okm = prk.expand(&info, &ring::aead::AES_128_GCM).unwrap();
    let mut out = vec![0u8; 16];
    okm.fill(&mut out).unwrap();
    out
}

/// Relies on ring::hmac::sign with HMAC_SHA512: the 64-byte tag of `data`
/// under `key`, a deterministic function of both.
#[verifier::external_body]
pub(crate) fn hmac_sign(key: &[u8], data: &[u8]) -> (r: Vec<u8>)
    requires
        key@.len() <= 0x1000_0000_0000_0000,
        data@.len() <= 0x1000_0000_0000_0000,
    ensures
        r@ == hmac_sha512(key@, data@),
        r@.len() == 64,
{
    let key = ring::hmac::Key::new(ring::hmac::HMAC_SHA512, key);
    ring::hmac::sign(&key, data).as_ref().to_vec()
}

/// Relies on ring::hmac::verify with HMAC_SHA512: succeeds exactly when the
/// tag equals the HMAC of `data` under `key`.
#[verifier::external_body]
pub(crate) fn hmac_check(key: &[u8], data: &[u8], tag: &[u8]) -> (r: bool)
    requires
        key@.len() <= 0x1000_0000_0000_0000,
        data@.len() <= 0x1000_0000_0000_0000,
    ensures
        r == (tag@ == hmac_sha512(key@, data@)),
{
    let key = ring::hmac::Key::new(ring::hmac::HMAC_SHA512, key);
    ring::hmac::verify(&key, data, tag).is_ok()
}

/// Relies on ring::aead::LessSafeKey::seal_in_place_append_tag with
/// CHACHA20_POLY1305 and empty additional data: appends the 16-byte tag to
/// the ciphertext, a deterministic function of key, nonce and message.
#[verifier::external_body]
pub(crate) fn aead_seal(key: &[u8], nonce: &[u8], msg: &[u8]) -> (r: Vec<u8>)
    requires
        key@.len() == 32,
        nonce@.len() == 12,
        msg@.len() <= 0xffff_ffff,
    ensures
        r@ == chacha20_poly1305_seal(key@, nonce@, msg@),
        r@.len() == msg@.len() + 16,
{
    let unbound = ring::aead::UnboundKey::new(&ring::aead::CHACHA20_POLY1305, key).unwrap();
    let sealing = ring::aead::LessSafeKey::new(unbound);
    let nonce = ring::aead::Nonce::try_assume_unique_for_key(nonce).unwrap();
    let mut buf = msg.to_vec();
    sealing.seal_in_place_append_tag(nonce, ring::aead::Aad::empty(), &mut buf).unwrap();
    buf
}

/// Relies on ring::aead::LessSafeKey::open_in_place with CHACHA20_POLY1305
/// and empty additional data: returns the message whose sealing under this
/// key and nonce the input is, and fails on anything else.  Success means
/// the tag verified, and resealing the returned payload reproduces the
/// input exactly, so what opens is precisely a genuine sealing.
#[verifier::external_body]
pub(crate) fn aead_open(key: &[u8], nonce: &[u8], sealed: &[u8]) -> (r: Option<Vec<u8>>)
    requires
        key@.len() == 32,
        nonce@.len() == 12,
    ensures
        r matches Some(p) ==> p@.len() + 16 == sealed@.len(),
        r matches Some(p) ==> sealed@ == chacha20_poly1305_seal(key@, nonce@, p@),
        r matches Some(p) ==> forall|m: Seq<u8>|
            sealed@ == #[trigger] chacha20_poly1305_seal(key@, nonce@, m) ==> p@ == m,
        r is None ==> forall|m: Seq<u8>|
            sealed@ != #[trigger] chacha20_poly1305_seal(key@, nonce@, m),
{
    let unbound = ring::aead::UnboundKey::new(&ring::aead::CHACHA20_POLY1305, key).unwrap();
    let opening = ring::aead::LessSafeKey::new(unbound);
    let nonce = ring::aead::Nonce::try_assume_unique_for_key(nonce).unwrap();
    let mut buf = sealed.to_vec();
    match opening.open_in_place(nonce, ring::aead::Aad::empty(), &mut buf) {
        Ok(plaintext) => Some(plaintext.to_vec()),
        Err(_) => None,
    }
}

#[verifier::external_type_specification]
#[verifier::external_body]
pub struct ExEphemeralPrivateKey(ring::agreement::EphemeralPrivateKey);

/// A freshly generated ephemeral X25519 secret.  The field is private, so
/// the only way to obtain one is `x25519_generate`: every value of this
/// type holds a validly generated key.
pub struct EphemeralSecret {
    key: ring::agreement::EphemeralPrivateKey,
}

/// Whether `signature` is a valid Ed25519 signature on `message` under the
/// public key.  A deterministic predicate of the three byte strings.
pub uninterp spec fn ed25519_valid(public_key: Seq<u8>, message: Seq<u8>, signature: Seq<u8>) -> bool;

/// The Ed25519 public key a 32-byte seed derives.
pub uninterp spec fn ed25519_public_key(seed: Seq<u8>) -> Seq<u8>;

/// The Ed25519 signature a 32-byte seed makes on a message.  Ed25519
/// signing is deterministic, so this is a function of the two alone.
pub uninterp spec fn ed25519_signature(seed: Seq<u8>, message: Seq<u8>) -> Seq<u8>;

/// Relies on ring::signature::Ed25519KeyPair::from_seed_unchecked and sign:
/// the 64-byte deterministic Ed25519 signature on the message, valid under
/// the public key the same seed derives.  A 32-byte seed is never rejected.
#[verifier::external_body]
pub(crate) fn ed25519_sign_seed(seed: &[u8], message: &[u8]) -> (r: Vec<u8>)
    requires
        seed@.len() == 32,
        message@.len() <= 0x1000_0000_0000_0000,
    ensures
        r@ == ed25519_signature(seed@, message@),
        r@.len() == 64,
        ed25519_valid(ed25519_public_key(seed@), message@, r@),
{
    let key_pair = ring::signature::Ed25519KeyPair::from_seed_unchecked(seed).unwrap();
    key_pair.sign(message).as_ref().to_vec()
}

/// Relies on ring::signature::UnparsedPublicKey::verify with ED25519:
/// succeeds exactly when the signature is valid for the message under the
/// public key.
#[verifier::external_body]
pub(crate) fn ed25519_verify(public_key: &[u8], message: &[u8], signature: &[u8]) -> (r: bool)
    ensures
        r == ed25519_valid(public_key@, message@, signature@),
{
    ring::signature::UnparsedPublicKey::new(&ring::signature::ED25519, public_key)
        .verify(message, signature)
        .is_ok()
}

/// Whether X25519 agreement accepts a peer public key: it is 32 bytes and
/// not the encoding of a small-order point.  A deterministic predicate of
/// the peer bytes alone -- for any validly generated local secret, the
/// agreement fails on exactly these keys.
pub uninterp spec fn x25519_peer_acceptable(peer_public: Seq<u8>) -> bool;

/// Relies on ring::agreement::EphemeralPrivateKey::generate and
/// compute_public_key with X25519: a fresh random key pair whose public half
/// is 32 bytes.  Nothing more can be said of a random value.
#[verifier::external_body]
pub(crate) fn x25519_generate() -> (r: Option<(EphemeralSecret, Vec<u8>)>)
    ensures
        r matches Some(p) ==> p.1@.len() == 32,
{
    let rng = ring::rand::SystemRandom::new();
    let secret =
        ring::agreement::EphemeralPrivateKey::generate(&ring::agreement::X25519, &rng).ok()?;
    let public = secret.compute_public_key().ok()?;
    Some((EphemeralSecret { key: secret }, public.as_ref().to_vec()))
}

/// Relies on ring::agreement::agree_ephemeral with X25519: the 32-byte
/// shared secret.  With a validly generated local secret -- the only kind
/// an EphemeralSecret holds -- the call succeeds exactly when the peer key
/// is acceptable: 32 bytes and not a small-order point, which ring rejects
/// by its all-zero-output check.  The secret's value depends on the opaque
/// key, so no name is given to it.
#[verifier::external_body]
pub(crate) fn x25519_agree(secret: EphemeralSecret, peer_public: &[u8]) -> (r: Option<Vec<u8>>)
    ensures
        r is Some <==> x25519_peer_acceptable(peer_public@),
        r matches Some(v) ==> v@.len() == 32,
{
    let peer = ring::agreement::UnparsedPublicKey::new(&ring::agreement::X25519, peer_public);
    ring::agreement::agree_ephemeral(secret.key, &peer, |km: &[u8]| km.to_vec()).ok()
}

} // verus!
