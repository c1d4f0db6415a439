//! Ephemeral key agreement over the signalling channel.
//!
//! Both peers send the base64 of an ephemeral X25519 public key and the
//! base64 of its authentication tag, receive the peer's pair, check the tag,
//! and compute the shared key material.  In PSK mode the tag is an
//! HMAC-SHA512 under a key derived from the pre-shared secret with
//! role-separated salts, so each side signs with its own role and checks
//! with the peer's.

use vstd::prelude::*;

use crate::crypto::{hmac_check, hmac_sha512, hmac_sign, pbkdf2_derive, pbkdf2_sha512};
use crate::encoding::{b64_encode, b64_url_decode, b64_url_encode, base64_standard, base64_url_nopad};
use crate::error::TimeoutError;
use crate::signalling::SignalingError;

verus! {

/// PBKDF2 rounds used for every derivation from the pre-shared key.
pub const PBKDF2_ITERATIONS: u32 = 4096;

/// A length bound under which every derivation input stays well clear of the
/// limits of the underlying primitives.
pub const MAX_DERIVE_INPUT: usize = 0x1000_0000;

/// The role half of every derivation salt: the label the key schedule and
/// the PSK derivations separate the two directions with.
pub open spec fn role_label(dialer: bool) -> Seq<char> {
    if dialer {
        "dialer"@
    } else {
        "listener"@
    }
}

/// The executable role label.
pub fn role_name(dialer: bool) -> (r: String)
    ensures
        r@ == role_label(dialer),
{
    if dialer {
        "dialer".to_owned()
    } else {
        "listener".to_owned()
    }
}

/// What `PskAuthentication::derive_len` computes: PBKDF2-HMAC-SHA512 of the
/// base key, salted with `"<role>:<salt>"`, at 4096 rounds.
pub open spec fn psk_derive(basekey: Seq<char>, dialer: bool, salt: Seq<char>, len: nat) -> Seq<
    u8,
> {
    pbkdf2_sha512(basekey, role_label(dialer) + ":"@ + salt, PBKDF2_ITERATIONS, len)
}

/// The HMAC key a peer in the given role signs its public key with.
pub open spec fn auth_key(psk: Seq<char>, dialer: bool) -> Seq<u8> {
    psk_derive(psk, dialer, "keymaterial_check"@, 32)
}

/// Errors of the agreement phase.
#[derive(Debug, PartialEq)]
pub enum AgreementError {
    /// The underlying transport failed.
    Io(String),
    /// The liveness clock ran out.
    Timeout(TimeoutError),
    /// The signalling channel failed in a way that is not Io or timeout,
    /// including a received message that is not valid base64: a malformed
    /// message is a protocol violation.
    SignalingError(SignalingError),
    /// A cryptographic operation failed.
    CryptoError,
    /// The peer's signature did not check out against its public key.
    BadAuth(Box<AgreementError>),
}

impl From<SignalingError> for AgreementError {
    fn from(value: SignalingError) -> (r: AgreementError) {
        match value {
            SignalingError::Timeout(e) => AgreementError::Timeout(e),
            SignalingError::Io(e) => AgreementError::Io(e),
            SignalingError::ProtocolError(e) => AgreementError::SignalingError(
                SignalingError::ProtocolError(e),
            ),
        }
    }
}

impl vstd::std_specs::convert::FromSpecImpl<SignalingError> for AgreementError {
    open spec fn obeys_from_spec() -> bool {
        true
    }

    open spec fn from_spec(v: SignalingError) -> Self {
        match v {
            SignalingError::Timeout(e) => AgreementError::Timeout(e),
            SignalingError::Io(e) => AgreementError::Io(e),
            SignalingError::ProtocolError(e) => AgreementError::SignalingError(
                SignalingError::ProtocolError(e),
            ),
        }
    }
}

/// A decode failure of an agreement message: a malformed message is a
/// signalling protocol violation.
pub open spec fn is_malformed_message_error(e: AgreementError) -> bool {
    &&& e matches AgreementError::SignalingError(se)
    &&& se matches SignalingError::ProtocolError(m)
    &&& m@ == "message is not valid base64"@
}

/// A failed authentication check, wrapped the way the agreement reports it.
pub open spec fn is_bad_auth_error(e: AgreementError) -> bool {
    &&& e matches AgreementError::BadAuth(inner)
    &&& *inner == AgreementError::CryptoError
}

/// The error for a message that is not valid base64.
fn malformed_message_error() -> (r: AgreementError)
    ensures
        is_malformed_message_error(r),
{
    AgreementError::SignalingError(
        SignalingError::ProtocolError("message is not valid base64".to_owned()),
    )
}

/// Pre-shared-key authentication: both peers hold the same secret string and
/// know their own role.
pub struct PskAuthentication {
    pub psk: String,
    pub dialer: bool,
}

impl PskAuthentication {
    /// Derive `len` bytes from a base key, salted with `"<role>:<salt>"`.
    pub fn derive_len(basekey: &str, dialer: bool, salt: &str, len: usize) -> (r: Vec<u8>)
        requires
            len <= 0xffff_ffff,
            basekey@.len() <= MAX_DERIVE_INPUT,
            salt@.len() <= MAX_DERIVE_INPUT,
        ensures
            r@ == psk_derive(basekey@, dialer, salt@, len as nat),
            r@.len() == len,
    {
        proof {
            // The role labels are short, so the combined salt stays far
            // below the derivation input bound.
            reveal_strlit("dialer");
            reveal_strlit("listener");
            reveal_strlit(":");
        }
        let mut salted = role_name(dialer);
        salted.append(":");
        salted.append(salt);
        pbkdf2_derive(basekey, salted.as_str(), PBKDF2_ITERATIONS, len)
    }

    /// The URL-safe unpadded base64 of a 32-byte derivation: used for the
    /// channel name both peers must compute identically.
    pub fn derive_text(basekey: &str, dialer: bool, salt: &str) -> (r: String)
        requires
            basekey@.len() <= MAX_DERIVE_INPUT,
            salt@.len() <= MAX_DERIVE_INPUT,
        ensures
            r@ == base64_url_nopad(psk_derive(basekey@, dialer, salt@, 32)),
    {
        let raw = Self::derive_len(basekey, dialer, salt, 32);
        b64_url_encode(raw.as_slice())
    }

    /// Law: decoding the text form gives back exactly the raw derivation;
    /// `derive_text` loses nothing.
    pub fn derive_text_roundtrip(basekey: &str, dialer: bool, salt: &str) -> (r: Vec<u8>)
        requires
            basekey@.len() <= MAX_DERIVE_INPUT,
            salt@.len() <= MAX_DERIVE_INPUT,
        ensures
            r@ == psk_derive(basekey@, dialer, salt@, 32),
    {
        let text = Self::derive_text(basekey, dialer, salt);
        match b64_url_decode(text.as_str()) {
            Some(raw) => raw,
            None => {
                // The text is the encoding of the derived bytes, so the
                // decoder's contract rules this branch out.
                proof {
                    assert(base64_url_nopad(psk_derive(basekey@, dialer, salt@, 32)) == text@);
                }
                vstd::pervasive::unreached()
            },
        }
    }

    pub fn new(psk: String, dialer: bool) -> (r: PskAuthentication)
        ensures
            r.psk == psk,
            r.dialer == dialer,
    {
        PskAuthentication { psk, dialer }
    }

    /// Tag `data` with the HMAC key of the local role.
    pub fn sign(&self, data: &[u8]) -> (r: Vec<u8>)
        requires
            self.psk@.len() <= MAX_DERIVE_INPUT,
            data@.len() <= MAX_DERIVE_INPUT,
        ensures
            r@ == hmac_sha512(auth_key(self.psk@, self.dialer), data@),
            r@.len() == 64,
    {
        proof {
            reveal_strlit("keymaterial_check");
        }
        let key = Self::derive_len(self.psk.as_str(), self.dialer, "keymaterial_check", 32);
        hmac_sign(key.as_slice(), data)
    }

    /// Check the peer's tag with the HMAC key of the peer's role: succeeds
    /// exactly when the tag is the peer-role HMAC of `data`.
    pub fn check_peer(&self, data: &[u8], signature: &[u8]) -> (r: Result<(), AgreementError>)
        requires
            self.psk@.len() <= MAX_DERIVE_INPUT,
            data@.len() <= MAX_DERIVE_INPUT,
        ensures
            r is Ok <==> signature@ == hmac_sha512(auth_key(self.psk@, !self.dialer), data@),
            r matches Err(e) ==> e == AgreementError::CryptoError,
    {
        proof {
            reveal_strlit("keymaterial_check");
        }
        let key = Self::derive_len(self.psk.as_str(), !self.dialer, "keymaterial_check", 32);
        if hmac_check(key.as_slice(), data, signature) {
            Ok(())
        } else {
            Err(AgreementError::CryptoError)
        }
    }
}

/// Key-pair authentication: the seed of the local long-term Ed25519 pair
/// and the peer's known public key, supplied out of band.
pub struct Ed25519PairAndPeer {
    pub seed: Vec<u8>,
    pub peer_public_key: Vec<u8>,
}

impl Ed25519PairAndPeer {
    /// Sign `data` with the local long-term key: the deterministic 64-byte
    /// Ed25519 signature of the seed on `data`, valid under the public key
    /// the seed derives.
    pub fn sign(&self, data: &[u8]) -> (r: Vec<u8>)
        requires
            self.seed@.len() == 32,
            data@.len() <= MAX_DERIVE_INPUT,
        ensures
            r@ == crate::crypto::ed25519_signature(self.seed@, data@),
            r@.len() == 64,
            crate::crypto::ed25519_valid(
                crate::crypto::ed25519_public_key(self.seed@),
                data@,
                r@,
            ),
    {
        crate::crypto::ed25519_sign_seed(self.seed.as_slice(), data)
    }

    /// Check the peer's signature against its known public key: succeeds
    /// exactly when the signature is valid.
    pub fn check_peer(&self, data: &[u8], signature: &[u8]) -> (r: Result<(), AgreementError>)
        ensures
            r is Ok <==> crate::crypto::ed25519_valid(
                self.peer_public_key@,
                data@,
                signature@,
            ),
            r matches Err(e) ==> e == AgreementError::CryptoError,
    {
        if crate::crypto::ed25519_verify(
            self.peer_public_key.as_slice(),
            data,
            signature,
        ) {
            Ok(())
        } else {
            Err(AgreementError::CryptoError)
        }
    }

    /// The two messages this peer sends: the base64 of its ephemeral public
    /// key and the base64 of the seed's signature on that key.
    pub fn offer(&self, public_key: &[u8]) -> (r: (String, String))
        requires
            self.seed@.len() == 32,
            public_key@.len() <= MAX_DERIVE_INPUT,
        ensures
            r.0@ == base64_standard(public_key@),
            r.1@ == base64_standard(crate::crypto::ed25519_signature(self.seed@, public_key@)),
    {
        let key_text = b64_encode(public_key);
        let signature = self.sign(public_key);
        let signature_text = b64_encode(signature.as_slice());
        (key_text, signature_text)
    }

    /// Decode and check the peer's two messages.  Success is owed exactly
    /// when both decode and the decoded signature is valid for the decoded
    /// public key under the peer's known key; a message that is no
    /// encoding is a protocol violation, and a failing check is BadAuth.
    pub fn accept(&self, peer_public_key_b64: &str, peer_signature_b64: &str) -> (r: Result<
        Vec<u8>,
        AgreementError,
    >)
        ensures
            r matches Ok(pk) ==> base64_standard(pk@) == peer_public_key_b64@ && (exists|
                sig: Seq<u8>,
            |
                #[trigger] base64_standard(sig) == peer_signature_b64@ && crate::crypto::ed25519_valid(
                    self.peer_public_key@,
                    pk@,
                    sig,
                )),
            forall|pk: Seq<u8>, sig: Seq<u8>|
                #[trigger] base64_standard(pk) == peer_public_key_b64@ && #[trigger] base64_standard(
                    sig,
                ) == peer_signature_b64@ && crate::crypto::ed25519_valid(
                    self.peer_public_key@,
                    pk,
                    sig,
                ) ==> r is Ok,
            r matches Err(e) ==> is_malformed_message_error(e) || is_bad_auth_error(e),
            (forall|b: Seq<u8>| #[trigger] base64_standard(b) != peer_public_key_b64@) ==> (r
                matches Err(e) && is_malformed_message_error(e)),
            (forall|b: Seq<u8>| #[trigger] base64_standard(b) != peer_signature_b64@) ==> (r
                matches Err(e) && is_malformed_message_error(e)),
            ((exists|b: Seq<u8>| #[trigger] base64_standard(b) == peer_public_key_b64@) && (exists|
                b: Seq<u8>,
            | #[trigger] base64_standard(b) == peer_signature_b64@) && !(exists|
                pk: Seq<u8>,
                sig: Seq<u8>,
            |
                #[trigger] base64_standard(pk) == peer_public_key_b64@ && #[trigger] base64_standard(
                    sig,
                ) == peer_signature_b64@ && crate::crypto::ed25519_valid(
                    self.peer_public_key@,
                    pk,
                    sig,
                ))) ==> (r matches Err(e) && is_bad_auth_error(e)),
    {
        let peer_public_key = match crate::encoding::b64_decode(peer_public_key_b64) {
            Some(v) => v,
            None => {
                return Err(malformed_message_error());
            },
        };
        let peer_signature = match crate::encoding::b64_decode(peer_signature_b64) {
            Some(v) => v,
            None => {
                return Err(malformed_message_error());
            },
        };
        match self.check_peer(peer_public_key.as_slice(), peer_signature.as_slice()) {
            Ok(_) => Ok(peer_public_key),
            Err(e) => Err(AgreementError::BadAuth(Box::new(e))),
        }
    }
}

/// The agreement protocol around an authentication capability: what each
/// peer sends, and how a peer's messages are checked and accepted.
pub struct Agreement {
    pub auth: PskAuthentication,
}

impl Agreement {
    pub fn new(auth: PskAuthentication) -> (r: Agreement)
        ensures
            r.auth.psk == auth.psk,
            r.auth.dialer == auth.dialer,
    {
        Agreement { auth }
    }

    /// The two messages a peer sends: the base64 of its ephemeral public key
    /// and the base64 of that key's tag under the local signing key.
    pub fn offer(&self, public_key: &[u8]) -> (r: (String, String))
        requires
            self.auth.psk@.len() <= MAX_DERIVE_INPUT,
            public_key@.len() <= MAX_DERIVE_INPUT,
        ensures
            r.0@ == base64_standard(public_key@),
            r.1@ == base64_standard(
                hmac_sha512(auth_key(self.auth.psk@, self.auth.dialer), public_key@),
            ),
    {
        let key_text = b64_encode(public_key);
        let tag = self.auth.sign(public_key);
        let tag_text = b64_encode(tag.as_slice());
        (key_text, tag_text)
    }

    /// Decode and check the peer's two messages.  Succeeds exactly when the
    /// first message decodes to a public key whose peer-role tag encodes to
    /// the second message; then the decoded public key is returned.  A
    /// message that is no encoding is a protocol violation, and a failing
    /// tag check is BadAuth.
    pub fn accept(&self, peer_public_key_b64: &str, peer_signature_b64: &str) -> (r: Result<
        Vec<u8>,
        AgreementError,
    >)
        requires
            self.auth.psk@.len() <= MAX_DERIVE_INPUT,
            peer_public_key_b64@.len() <= MAX_DERIVE_INPUT,
        ensures
            r is Ok <==> exists|pk: Seq<u8>|
                #[trigger] base64_standard(pk) == peer_public_key_b64@ && base64_standard(
                    hmac_sha512(auth_key(self.auth.psk@, !self.auth.dialer), pk),
                ) == peer_signature_b64@,
            r matches Ok(pk) ==> base64_standard(pk@) == peer_public_key_b64@ && base64_standard(
                hmac_sha512(auth_key(self.auth.psk@, !self.auth.dialer), pk@),
            ) == peer_signature_b64@,
            r matches Err(e) ==> is_malformed_message_error(e) || is_bad_auth_error(e),
            (forall|b: Seq<u8>| #[trigger] base64_standard(b) != peer_public_key_b64@) ==> (r
                matches Err(e) && is_malformed_message_error(e)),
            (forall|b: Seq<u8>| #[trigger] base64_standard(b) != peer_signature_b64@) ==> (r
                matches Err(e) && is_malformed_message_error(e)),
            ((exists|b: Seq<u8>| #[trigger] base64_standard(b) == peer_public_key_b64@) && (exists|
                b: Seq<u8>,
            | #[trigger] base64_standard(b) == peer_signature_b64@) && !(exists|pk: Seq<u8>|
                #[trigger] base64_standard(pk) == peer_public_key_b64@ && base64_standard(
                    hmac_sha512(auth_key(self.auth.psk@, !self.auth.dialer), pk),
                ) == peer_signature_b64@)) ==> (r matches Err(e) && is_bad_auth_error(e)),
    {
        let peer_public_key = match crate::encoding::b64_decode(peer_public_key_b64) {
            Some(v) => v,
            None => {
                return Err(malformed_message_error());
            },
        };
        let peer_signature = match crate::encoding::b64_decode(peer_signature_b64) {
            Some(v) => v,
            None => {
                return Err(malformed_message_error());
            },
        };
        match self.auth.check_peer(peer_public_key.as_slice(), peer_signature.as_slice()) {
            Ok(_) => Ok(peer_public_key),
            Err(e) => Err(AgreementError::BadAuth(Box::new(e))),
        }
    }

    /// A fresh ephemeral X25519 key pair; the public half is what `offer`
    /// publishes.
    pub fn generate_keys() -> (r: Result<
        (crate::crypto::EphemeralSecret, Vec<u8>),
        AgreementError,
    >)
        ensures
            r matches Ok(p) ==> p.1@.len() == 32,
            r matches Err(e) ==> e == AgreementError::CryptoError,
    {
        match crate::crypto::x25519_generate() {
            Some(pair) => Ok(pair),
            None => Err(AgreementError::CryptoError),
        }
    }

    /// The shared key material: X25519 of the local ephemeral secret and
    /// the peer's accepted public key.  Succeeds exactly when the peer key
    /// is acceptable to the agreement (32 bytes and not a small-order
    /// point); never on anything else.
    pub fn agree_secret(
        secret: crate::crypto::EphemeralSecret,
        peer_public_key: &[u8],
    ) -> (r: Result<Vec<u8>, AgreementError>)
        ensures
            r is Ok <==> crate::crypto::x25519_peer_acceptable(peer_public_key@),
            r matches Ok(v) ==> v@.len() == 32,
            r matches Err(e) ==> e == AgreementError::CryptoError,
    {
        match crate::crypto::x25519_agree(secret, peer_public_key) {
            Some(v) => Ok(v),
            None => Err(AgreementError::CryptoError),
        }
    }
}

} // verus!
