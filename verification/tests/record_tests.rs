use icepipe::crypto_stream::{Chacha20Error, Chacha20Stream, Sequential};

#[test]
fn nonce_is_big_endian_low_96_bits() {
    let mut seq = Sequential(0x0102030405060708090a0b0cu128);
    let nonce = seq.advance();
    assert_eq!(nonce, vec![1, 2, 3, 4, 5, 6, 7, 8, 9, 10, 11, 12]);
    assert_eq!(seq.0, 0x0102030405060708090a0b0du128);
}

#[test]
fn nonce_drops_the_high_32_bits() {
    let mut seq = Sequential(0xffff_ffff_0000_0000_0000_0000_0000_0001u128);
    let nonce = seq.advance();
    assert_eq!(nonce, vec![0, 0, 0, 0, 0, 0, 0, 0, 0, 0, 0, 1]);
}

#[test]
fn counter_increments_by_one_per_record() {
    let mut seq = Sequential(0);
    assert_eq!(seq.advance(), vec![0u8; 12]);
    let second = seq.advance();
    assert_eq!(second, vec![0, 0, 0, 0, 0, 0, 0, 0, 0, 0, 0, 1]);
    assert_eq!(seq.0, 2);
}

#[test]
fn counter_wraps_at_the_end() {
    let mut seq = Sequential(u128::MAX);
    let _ = seq.advance();
    assert_eq!(seq.0, 0);
}

fn peers() -> (Chacha20Stream, Chacha20Stream) {
    let basekey = [9u8; 32];
    (Chacha20Stream::new(&basekey, true), Chacha20Stream::new(&basekey, false))
}

#[test]
fn sealed_record_opens_on_the_peer() {
    let (mut a, mut b) = peers();
    let sealed = a.seal_next(b"hello record");
    assert_eq!(sealed.len(), b"hello record".len() + 16);
    let opened = b.open_next(&sealed).expect("the peer must open the record");
    assert_eq!(opened, b"hello record");
}

#[test]
fn zero_byte_payload_round_trips() {
    let (mut a, mut b) = peers();
    let sealed = a.seal_next(b"");
    assert_eq!(sealed.len(), 16);
    let opened = b.open_next(&sealed).expect("empty payloads are permitted");
    assert_eq!(opened, Vec::<u8>::new());
}

#[test]
fn payload_at_the_message_limit_round_trips() {
    let (mut a, mut b) = peers();
    let message = vec![0x5au8; 8160];
    let sealed = a.seal_next(&message);
    assert_eq!(sealed.len(), 8176);
    let opened = b.open_next(&sealed).expect("an 8160-byte payload seals and opens");
    assert_eq!(opened, message);
}

#[test]
fn records_must_arrive_in_order() {
    let (mut a, mut b) = peers();
    let first = a.seal_next(b"one");
    let second = a.seal_next(b"two");
    // Delivering the second record first desynchronizes the counters.
    assert_eq!(b.open_next(&second), Err(Chacha20Error::CryptoError));
    // The failed attempt consumed a nonce, so even the first record is now
    // rejected: the session is dead, as a fatal error demands.
    assert_eq!(b.open_next(&first), Err(Chacha20Error::CryptoError));
}

#[test]
fn payloads_concatenate_in_order() {
    let (mut a, mut b) = peers();
    let chunks: [&[u8]; 3] = [b"ab", b"", b"cde"];
    let mut sent: Vec<u8> = Vec::new();
    let mut delivered: Vec<u8> = Vec::new();
    for chunk in chunks {
        sent.extend_from_slice(chunk);
        let sealed = a.seal_next(chunk);
        delivered.extend_from_slice(&b.open_next(&sealed).expect("in-order records open"));
    }
    assert_eq!(delivered, sent);
}

#[test]
fn round_trip_helper_returns_the_message() {
    let basekey = [3u8; 32];
    assert_eq!(
        icepipe::crypto_stream::seal_open_roundtrip(&basekey, true, b"through and back"),
        b"through and back"
    );
    assert_eq!(
        icepipe::crypto_stream::seal_open_roundtrip(&basekey, false, b""),
        b""
    );
}

#[test]
fn tampered_record_is_rejected() {
    let (mut a, mut b) = peers();
    let mut sealed = a.seal_next(b"payload");
    sealed[0] ^= 1;
    assert_eq!(b.open_next(&sealed), Err(Chacha20Error::CryptoError));
}

#[test]
fn wrong_direction_does_not_open() {
    let (mut a, _b) = peers();
    let sealed = a.seal_next(b"to the listener");
    // The dialer's own opening key is the listener-direction key; its own
    // records are not addressed to it.
    assert_eq!(a.open_next(&sealed), Err(Chacha20Error::CryptoError));
}

#[test]
fn sealing_does_not_advance_the_opening_direction() {
    let (mut a, _) = peers();
    let opening_before = a.opening_seq.0;
    let _ = a.seal_next(b"x");
    let _ = a.seal_next(b"y");
    assert_eq!(a.opening_seq.0, opening_before);
}

#[test]
fn opening_does_not_advance_the_sealing_direction() {
    let (mut a, mut b) = peers();
    let sealing_before = b.sealing_seq.0;
    let sealed = a.seal_next(b"x");
    let _ = b.open_next(&sealed);
    assert_eq!(b.sealing_seq.0, sealing_before);
}
