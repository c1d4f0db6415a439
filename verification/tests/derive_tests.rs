use base64::Engine;
use icepipe::agreement::PskAuthentication;
use icepipe::connect::channel_text;
use icepipe::crypto_stream::Chacha20Stream;

#[test]
fn derive_len_is_deterministic() {
    let a = PskAuthentication::derive_len("swordfish", true, "channel", 32);
    let b = PskAuthentication::derive_len("swordfish", true, "channel", 32);
    assert_eq!(a, b);
    assert_eq!(a.len(), 32);
}

#[test]
fn derive_len_separates_roles_and_salts() {
    let dialer = PskAuthentication::derive_len("swordfish", true, "channel", 32);
    let listener = PskAuthentication::derive_len("swordfish", false, "channel", 32);
    let other_salt = PskAuthentication::derive_len("swordfish", true, "keymaterial_check", 32);
    assert_ne!(dialer, listener);
    assert_ne!(dialer, other_salt);
}

#[test]
fn derive_len_honours_requested_length() {
    assert_eq!(PskAuthentication::derive_len("k", true, "s", 16).len(), 16);
    assert_eq!(PskAuthentication::derive_len("k", true, "s", 64).len(), 64);
}

#[test]
fn derive_text_decodes_back_to_derive_len() {
    let text = PskAuthentication::derive_text("swordfish", true, "channel");
    let raw = PskAuthentication::derive_len("swordfish", true, "channel", 32);
    let decoded = base64::prelude::BASE64_URL_SAFE_NO_PAD
        .decode(text.as_bytes())
        .expect("derived text must be valid unpadded url-safe base64");
    assert_eq!(decoded, raw);
}

#[test]
fn derive_text_roundtrip_matches_derive_len() {
    let raw = PskAuthentication::derive_text_roundtrip("swordfish", false, "channel");
    assert_eq!(raw, PskAuthentication::derive_len("swordfish", false, "channel", 32));
}

#[test]
fn channel_text_is_the_dialer_channel_derivation() {
    let channel = channel_text("swordfish");
    assert_eq!(
        channel,
        PskAuthentication::derive_text("swordfish", true, "channel")
    );
    let again = channel_text("swordfish");
    assert_eq!(channel, again);
}

#[test]
fn channel_text_depends_on_the_password() {
    assert_ne!(channel_text("swordfish"), channel_text("swordfisi"));
}

#[test]
fn hkdf_derivation_is_deterministic_and_role_separated() {
    let basekey = [7u8; 32];
    let a = Chacha20Stream::derive(&basekey, true, "key", 32);
    let b = Chacha20Stream::derive(&basekey, true, "key", 32);
    let c = Chacha20Stream::derive(&basekey, false, "key", 32);
    let d = Chacha20Stream::derive(&basekey, true, "seq", 16);
    assert_eq!(a, b);
    assert_eq!(a.len(), 32);
    assert_ne!(a, c);
    assert_eq!(d.len(), 16);
}

#[test]
fn key_schedule_is_symmetric_between_roles() {
    let basekey = [42u8; 32];
    let dialer = Chacha20Stream::new(&basekey, true);
    let listener = Chacha20Stream::new(&basekey, false);
    assert_eq!(dialer.sealing_key, listener.opening_key);
    assert_eq!(dialer.opening_key, listener.sealing_key);
    assert_eq!(dialer.sealing_seq.0, listener.opening_seq.0);
    assert_eq!(dialer.opening_seq.0, listener.sealing_seq.0);
    assert_ne!(dialer.sealing_key, dialer.opening_key);
}

#[test]
fn hex_text_encodes_low_nibble_last() {
    assert_eq!(icepipe::encoding::hex_text(&[]), "");
    assert_eq!(icepipe::encoding::hex_text(&[0x00]), "00");
    assert_eq!(icepipe::encoding::hex_text(&[0xab, 0x01, 0xf0]), "ab01f0");
    assert_eq!(icepipe::encoding::hex_text(&[255]), "ff");
}
