//! Trusted bindings to the base64 engines the protocol uses.
//!
//! The two encodings get uninterpreted names; the decode wrappers promise the
//! round trip the crate documents: decoding the encoding of any byte string
//! gives those bytes back, and whatever decodes successfully re-encodes to
//! the input (the default engines decode canonically).

use vstd::prelude::*;

verus! {

/// The standard base64 encoding (with padding) of a byte string.
pub uninterp spec fn base64_standard(data: Seq<u8>) -> Seq<char>;

/// The URL-safe base64 encoding without padding of a byte string.
pub uninterp spec fn base64_url_nopad(data: Seq<u8>) -> Seq<char>;

/// Relies on base64's BASE64_STANDARD engine: Engine::encode is the standard
/// padded encoding, a deterministic function of the bytes.
#[verifier::external_body]
pub(crate) fn b64_encode(data: &[u8]) -> (r: String)
    ensures
        r@ == base64_standard(data@),
{
    base64::Engine::encode(&base64::prelude::BASE64_STANDARD, data)
}

/// Relies on base64's BASE64_STANDARD engine: Engine::decode inverts encode,
/// and accepts only canonical encodings.
#[verifier::external_body]
pub(crate) fn b64_decode(text: &str) -> (r: Option<Vec<u8>>)
    ensures
        r matches Some(v) ==> v@.len() <= text@.len(),
        r matches Some(v) ==> base64_standard(v@) == text@,
        r matches Some(v) ==> forall|b: Seq<u8>| #[trigger] base64_standard(b) == text@ ==> v@
            == b,
        r is None ==> forall|b: Seq<u8>| #[trigger] base64_standard(b) != text@,
{
    base64::Engine::decode(&base64::prelude::BASE64_STANDARD, text).ok()
}

/// Relies on base64's BASE64_URL_SAFE_NO_PAD engine: Engine::encode is the
/// URL-safe unpadded encoding, a deterministic function of the bytes.
#[verifier::external_body]
pub(crate) fn b64_url_encode(data: &[u8]) -> (r: String)
    ensures
        r@ == base64_url_nopad(data@),
{
    base64::Engine::encode(&base64::prelude::BASE64_URL_SAFE_NO_PAD, data)
}

/// Relies on base64's BASE64_URL_SAFE_NO_PAD engine: Engine::decode inverts
/// encode, and accepts only canonical unpadded encodings.
#[verifier::external_body]
pub(crate) fn b64_url_decode(text: &str) -> (r: Option<Vec<u8>>)
    ensures
        r matches Some(v) ==> v@.len() <= text@.len(),
        r matches Some(v) ==> base64_url_nopad(v@) == text@,
        r matches Some(v) ==> forall|b: Seq<u8>| #[trigger] base64_url_nopad(b) == text@ ==> v@
            == b,
        r is None ==> forall|b: Seq<u8>| #[trigger] base64_url_nopad(b) != text@,
{
    base64::Engine::decode(&base64::prelude::BASE64_URL_SAFE_NO_PAD, text).ok()
}

/// The lower-case hex digit of a value below 16.
pub open spec fn hex_digit(value: u8) -> char {
    if value == 0 {
        '0'
    } else if value == 1 {
        '1'
    } else if value == 2 {
        '2'
    } else if value == 3 {
        '3'
    } else if value == 4 {
        '4'
    } else if value == 5 {
        '5'
    } else if value == 6 {
        '6'
    } else if value == 7 {
        '7'
    } else if value == 8 {
        '8'
    } else if value == 9 {
        '9'
    } else if value == 10 {
        'a'
    } else if value == 11 {
        'b'
    } else if value == 12 {
        'c'
    } else if value == 13 {
        'd'
    } else if value == 14 {
        'e'
    } else {
        'f'
    }
}

/// The lower-case hex encoding of a byte string: two digits per byte, high
/// nibble first.
pub open spec fn hex_of(data: Seq<u8>) -> Seq<char> {
    Seq::new(2 * data.len(), |i: int| hex_digit(
        if i % 2 == 0 {
            data[i / 2] / 16
        } else {
            data[i / 2] % 16
        },
    ))
}

fn hex_digit_str(value: u8) -> (r: &'static str)
    requires
        value < 16,
    ensures
        r@ =~= seq![hex_digit(value)],
{
    proof {
        reveal_strlit("0");
        reveal_strlit("1");
        reveal_strlit("2");
        reveal_strlit("3");
        reveal_strlit("4");
        reveal_strlit("5");
        reveal_strlit("6");
        reveal_strlit("7");
        reveal_strlit("8");
        reveal_strlit("9");
        reveal_strlit("a");
        reveal_strlit("b");
        reveal_strlit("c");
        reveal_strlit("d");
        reveal_strlit("e");
        reveal_strlit("f");
    }
    match value {
        0 => "0",
        1 => "1",
        2 => "2",
        3 => "3",
        4 => "4",
        5 => "5",
        6 => "6",
        7 => "7",
        8 => "8",
        9 => "9",
        10 => "a",
        11 => "b",
        12 => "c",
        13 => "d",
        14 => "e",
        _ => "f",
    }
}

/// The lower-case hex encoding of a byte string, as the key-mode channel
/// name uses it.
pub fn hex_text(data: &[u8]) -> (r: String)
    requires
        data@.len() <= 0x1000_0000,
    ensures
        r@ == hex_of(data@),
{
    let mut out = String::new();
    let mut i: usize = 0;
    while i < data.len()
        invariant
            i <= data@.len(),
            data@.len() <= 0x1000_0000,
            out@ =~= hex_of(data@.take(i as int)),
        decreases data@.len() - i,
    {
        let byte = data[i];
        out.append(hex_digit_str(byte / 16));
        out.append(hex_digit_str(byte % 16));
        proof {
            assert(out@ =~= hex_of(data@.take(i + 1)));
        }
        i = i + 1;
    }
    proof {
        assert(data@.take(data@.len() as int) =~= data@);
    }
    out
}

} // verus!
