use base64::Engine;
use icepipe::agreement::{Agreement, AgreementError, PskAuthentication};
use icepipe::signalling::SignalingError;
use ring::signature::KeyPair;

fn pair(psk_a: &str, psk_b: &str) -> (Agreement, Agreement) {
    let a = Agreement::new(PskAuthentication::new(psk_a.to_string(), true));
    let b = Agreement::new(PskAuthentication::new(psk_b.to_string(), false));
    (a, b)
}

#[test]
fn matching_psks_accept_each_other() {
    let (a, b) = pair("swordfish", "swordfish");
    let (sk_a, pk_a) = Agreement::generate_keys().expect("key generation");
    let (sk_b, pk_b) = Agreement::generate_keys().expect("key generation");
    let (pk_text_a, sig_text_a) = a.offer(&pk_a);
    let (pk_text_b, sig_text_b) = b.offer(&pk_b);
    let peer_at_b = b.accept(&pk_text_a, &sig_text_a).expect("b accepts a's offer");
    let peer_at_a = a.accept(&pk_text_b, &sig_text_b).expect("a accepts b's offer");
    assert_eq!(peer_at_b, pk_a);
    assert_eq!(peer_at_a, pk_b);
    let secret_a = Agreement::agree_secret(sk_a, &peer_at_a).expect("a computes the secret");
    let secret_b = Agreement::agree_secret(sk_b, &peer_at_b).expect("b computes the secret");
    assert_eq!(secret_a, secret_b);
    assert_eq!(secret_a.len(), 32);
}

#[test]
fn mismatched_psks_fail_with_bad_auth() {
    // The pre-shared keys differ by one byte.
    let (a, b) = pair("swordfish", "swordfisi");
    let (_sk_a, pk_a) = Agreement::generate_keys().expect("key generation");
    let (pk_text_a, sig_text_a) = a.offer(&pk_a);
    let rejected = b.accept(&pk_text_a, &sig_text_a);
    assert!(matches!(rejected, Err(AgreementError::BadAuth(_))));
}

#[test]
fn same_role_on_both_sides_fails_with_bad_auth() {
    // Both sides believe they are the dialer, so the verifying key of one
    // never matches the signing key of the other.
    let a = Agreement::new(PskAuthentication::new("swordfish".to_string(), true));
    let b = Agreement::new(PskAuthentication::new("swordfish".to_string(), true));
    let (_sk, pk) = Agreement::generate_keys().expect("key generation");
    let (pk_text, sig_text) = a.offer(&pk);
    assert!(matches!(b.accept(&pk_text, &sig_text), Err(AgreementError::BadAuth(_))));
}

#[test]
fn garbage_base64_is_a_protocol_violation() {
    let (_a, b) = pair("swordfish", "swordfish");
    let rejected = b.accept(&"not base64!".to_string(), &"also not!".to_string());
    assert!(matches!(
        rejected,
        Err(AgreementError::SignalingError(SignalingError::ProtocolError(_)))
    ));
}

#[test]
fn garbage_signature_text_is_a_protocol_violation() {
    let (a, b) = pair("swordfish", "swordfish");
    let (_sk, pk) = Agreement::generate_keys().expect("key generation");
    let (pk_text, _sig_text) = a.offer(&pk);
    assert!(matches!(
        b.accept(&pk_text, &"///not valid///".to_string()),
        Err(AgreementError::SignalingError(SignalingError::ProtocolError(_)))
    ));
}

#[test]
fn stray_role_text_instead_of_a_key_is_a_protocol_violation() {
    // A duplicated role assignment leaking into the message stream: the
    // text "DIALER" where a base64 public key was expected.
    let (_a, b) = pair("swordfish", "swordfish");
    let rejected = b.accept(&"DIALER".to_string(), &"DIALER".to_string());
    assert!(matches!(
        rejected,
        Err(AgreementError::SignalingError(SignalingError::ProtocolError(_)))
    ));
}

#[test]
fn tampered_public_key_fails_with_bad_auth() {
    let (a, b) = pair("swordfish", "swordfish");
    let (_sk, mut pk) = Agreement::generate_keys().expect("key generation");
    let (_pk_text, sig_text) = a.offer(&pk);
    pk[0] ^= 1;
    let tampered_text = base64::prelude::BASE64_STANDARD.encode(&pk);
    assert!(matches!(b.accept(&tampered_text, &sig_text), Err(AgreementError::BadAuth(_))));
}

#[test]
fn sign_and_check_peer_agree_across_roles() {
    let dialer = PskAuthentication::new("swordfish".to_string(), true);
    let listener = PskAuthentication::new("swordfish".to_string(), false);
    let data = b"some key bytes";
    let tag = dialer.sign(data);
    assert_eq!(tag.len(), 64);
    assert!(listener.check_peer(data, &tag).is_ok());
    // The dialer's own verifying key is the listener's signing key, not its
    // own: a tag does not verify on the side that made it.
    assert!(dialer.check_peer(data, &tag).is_err());
}

fn ed25519_public(seed: &[u8; 32]) -> Vec<u8> {
    let key_pair = ring::signature::Ed25519KeyPair::from_seed_unchecked(seed).unwrap();
    key_pair.public_key().as_ref().to_vec()
}

#[test]
fn key_mode_offer_is_accepted_by_the_peer() {
    let side_a = icepipe::agreement::Ed25519PairAndPeer {
        seed: vec![1u8; 32],
        peer_public_key: ed25519_public(&[2u8; 32]),
    };
    let side_b = icepipe::agreement::Ed25519PairAndPeer {
        seed: vec![2u8; 32],
        peer_public_key: ed25519_public(&[1u8; 32]),
    };
    let (sk_a, pk_a) = Agreement::generate_keys().expect("key generation");
    let (sk_b, pk_b) = Agreement::generate_keys().expect("key generation");
    let (key_text_a, sig_text_a) = side_a.offer(&pk_a);
    let (key_text_b, sig_text_b) = side_b.offer(&pk_b);
    let seen_at_b = side_b.accept(&key_text_a, &sig_text_a).expect("b accepts a");
    let seen_at_a = side_a.accept(&key_text_b, &sig_text_b).expect("a accepts b");
    assert_eq!(seen_at_b, pk_a);
    assert_eq!(seen_at_a, pk_b);
    let secret_a = Agreement::agree_secret(sk_a, &seen_at_a).expect("secret at a");
    let secret_b = Agreement::agree_secret(sk_b, &seen_at_b).expect("secret at b");
    assert_eq!(secret_a, secret_b);
}

#[test]
fn key_mode_rejects_a_signature_from_the_wrong_key() {
    // Side B expects messages signed by a third key, not by A's.
    let side_a = icepipe::agreement::Ed25519PairAndPeer {
        seed: vec![1u8; 32],
        peer_public_key: ed25519_public(&[2u8; 32]),
    };
    let side_b = icepipe::agreement::Ed25519PairAndPeer {
        seed: vec![2u8; 32],
        peer_public_key: ed25519_public(&[3u8; 32]),
    };
    let (_sk_a, pk_a) = Agreement::generate_keys().expect("key generation");
    let (key_text_a, sig_text_a) = side_a.offer(&pk_a);
    assert!(matches!(
        side_b.accept(&key_text_a, &sig_text_a),
        Err(AgreementError::BadAuth(_))
    ));
}

#[test]
fn key_mode_rejects_garbage_base64() {
    let side = icepipe::agreement::Ed25519PairAndPeer {
        seed: vec![1u8; 32],
        peer_public_key: ed25519_public(&[1u8; 32]),
    };
    assert!(matches!(
        side.accept(&"!!".to_string(), &"??".to_string()),
        Err(AgreementError::SignalingError(SignalingError::ProtocolError(_)))
    ));
}

#[test]
fn key_mode_signing_is_deterministic() {
    let side = icepipe::agreement::Ed25519PairAndPeer {
        seed: vec![7u8; 32],
        peer_public_key: ed25519_public(&[8u8; 32]),
    };
    let first = side.sign(b"the same message");
    let second = side.sign(b"the same message");
    assert_eq!(first, second);
    assert_eq!(first.len(), 64);
    assert_ne!(first, side.sign(b"another message"));
}

#[test]
fn invalid_peer_key_fails_to_agree() {
    let (sk, _pk) = Agreement::generate_keys().expect("key generation");
    let bad_peer = [0u8; 7];
    assert_eq!(Agreement::agree_secret(sk, &bad_peer), Err(AgreementError::CryptoError));
}

#[test]
fn small_order_peer_key_fails_to_agree() {
    // All zeroes encodes a small-order point; the agreement must refuse it
    // even though the length is right.
    let (sk, _pk) = Agreement::generate_keys().expect("key generation");
    let small_order = [0u8; 32];
    assert_eq!(
        Agreement::agree_secret(sk, &small_order),
        Err(AgreementError::CryptoError)
    );
}
