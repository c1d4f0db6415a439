//! The authenticated record layer: ChaCha20-Poly1305 with a deterministic,
//! role-separated key schedule.
//!
//! From the shared key material each peer derives, per direction, a 32-byte
//! key and a 128-bit nonce-counter seed (HKDF-SHA512, salted with the label
//! and keyed by the role).  Sealing uses the local role, opening the peer's,
//! so the two sides agree on both directions without negotiation.  Nonces
//! are the big-endian low 96 bits of the counter, which advances by one per
//! record; the nonce is never transmitted.

use vstd::prelude::*;

use crate::agreement::{role_label, role_name, MAX_DERIVE_INPUT};
use crate::crypto::{aead_open, aead_seal, chacha20_poly1305_seal, hkdf_derive_16, hkdf_derive_32, hkdf_sha512};
use crate::error::TimeoutError;
use crate::pipe_stream::StreamError;
use crate::signalling::SignalingError;

verus! {

/// The nonce a counter value encodes to: the big-endian low 96 bits.
pub open spec fn nonce_bytes(counter: u128) -> Seq<u8> {
    Seq::new(12, |i: int| (counter >> (8 * (11 - i))) as u8)
}

/// How the counter advances after each record.
pub open spec fn next_counter(counter: u128) -> u128 {
    if counter == u128::MAX {
        0
    } else {
        (counter + 1) as u128
    }
}

/// A sequential nonce source: a 128-bit counter that hands out the
/// big-endian low 96 bits and then advances by one.
pub struct Sequential(pub u128);

impl Sequential {
    /// The nonce for the current counter value; the counter advances.
    pub fn advance(&mut self) -> (r: Vec<u8>)
        ensures
            r@ == nonce_bytes(old(self).0),
            r@.len() == 12,
            final(self).0 == next_counter(old(self).0),
    {
        let counter = self.0;
        let mut nonce: Vec<u8> = Vec::new();
        let mut i: usize = 0;
        while i < 12
            invariant
                i <= 12,
                nonce@.len() == i,
                forall|j: int| 0 <= j < i ==> nonce@[j] == nonce_bytes(counter)[j],
            decreases 12 - i,
        {
            let shift: u32 = (8 * (11 - i)) as u32;
            let byte: u8 = #[verifier::truncate] ((counter >> shift) as u8);
            nonce.push(byte);
            i = i + 1;
        }
        proof {
            assert(nonce@ =~= nonce_bytes(counter));
        }
        if self.0 == u128::MAX {
            self.0 = 0;
        } else {
            self.0 = self.0 + 1;
        }
        nonce
    }
}

/// The per-direction record key: HKDF-SHA512 with salt `"key"`, keyed by
/// the role label.
pub open spec fn derived_key(basekey: Seq<u8>, dialer: bool) -> Seq<u8> {
    hkdf_sha512("key"@, basekey, role_label(dialer), 32)
}

/// The 16 bytes the per-direction counter seed is read from: HKDF-SHA512
/// with salt `"seq"`, keyed by the role label.
pub open spec fn derived_seq_bytes(basekey: Seq<u8>, dialer: bool) -> Seq<u8> {
    hkdf_sha512("seq"@, basekey, role_label(dialer), 16)
}

/// A byte string read as a big-endian number.
pub open spec fn be_value(s: Seq<u8>) -> int
    decreases s.len(),
{
    if s.len() == 0 {
        0
    } else {
        be_value(s.drop_last()) * 256 + s.last()
    }
}

/// The per-direction counter seed as a number.
pub open spec fn derived_seq(basekey: Seq<u8>, dialer: bool) -> u128 {
    be_value(derived_seq_bytes(basekey, dialer)) as u128
}

/// A big-endian byte string of length `n` is below 256^n.
proof fn lemma_be_value_bound(s: Seq<u8>)
    ensures
        0 <= be_value(s) < vstd::arithmetic::power::pow(256, s.len()),
    decreases s.len(),
{
    vstd::arithmetic::power::lemma_pow_positive(256, s.len());
    if s.len() == 0 {
    } else {
        let prefix = s.drop_last();
        lemma_be_value_bound(prefix);
        vstd::arithmetic::power::lemma_pow_positive(256, prefix.len());
        assert(be_value(prefix) * 256 + s.last() < vstd::arithmetic::power::pow(
            256,
            prefix.len(),
        ) * 256) by (nonlinear_arith)
            requires
                0 <= be_value(prefix) < vstd::arithmetic::power::pow(256, prefix.len()),
                0 <= s.last() < 256,
        ;
        assert(vstd::arithmetic::power::pow(256, s.len()) == 256 * vstd::arithmetic::power::pow(
            256,
            prefix.len(),
        )) by {
            vstd::arithmetic::power::lemma_pow1(256);
            vstd::arithmetic::power::lemma_pow_adds(256, 1, prefix.len());
        }
    }
}

/// Read 16 bytes as a big-endian 128-bit number.
fn be_u128(bytes: &Vec<u8>) -> (r: u128)
    requires
        bytes@.len() == 16,
    ensures
        r == be_value(bytes@),
{
    let mut value: u128 = 0;
    let mut i: usize = 0;
    proof {
        assert(bytes@.take(0) =~= Seq::<u8>::empty());
    }
    while i < 16
        invariant
            i <= 16,
            bytes@.len() == 16,
            value == be_value(bytes@.take(i as int)),
        decreases 16 - i,
    {
        proof {
            lemma_be_value_bound(bytes@.take(i as int));
            assert(vstd::arithmetic::power::pow(256, i as nat) <= vstd::arithmetic::power::pow(
                256,
                15,
            )) by {
                vstd::arithmetic::power::lemma_pow_increases(256, i as nat, 15);
            }
            assert(vstd::arithmetic::power::pow(256, 15) == 0x1000000000000000000000000000000) by {
                reveal_with_fuel(vstd::arithmetic::power::pow, 16);
            }
            assert(bytes@.take(i + 1).drop_last() =~= bytes@.take(i as int));
            assert(bytes@.take(i + 1).last() == bytes@[i as int]);
        }
        value = value * 256 + (bytes[i] as u128);
        i = i + 1;
    }
    proof {
        assert(bytes@.take(16) =~= bytes@);
    }
    value
}

/// Errors of the record layer.
#[derive(Debug, Clone, PartialEq)]
pub enum Chacha20Error {
    /// The underlying transport failed.
    Io(String),
    /// A liveness or drain deadline elapsed.
    Timeout(TimeoutError),
    /// The signalling channel failed in a way that is not Io or timeout.
    SignalingError(SignalingError),
    /// The layer beneath failed with its own kind.
    StreamError(StreamError),
    /// A record failed to open: it was not sealed with the expected key and
    /// counter.  Fatal.
    CryptoError,
}

impl From<SignalingError> for Chacha20Error {
    fn from(value: SignalingError) -> (r: Chacha20Error) {
        match value {
            SignalingError::Io(e) => Chacha20Error::Io(e),
            SignalingError::Timeout(e) => Chacha20Error::Timeout(e),
            SignalingError::ProtocolError(e) => Chacha20Error::SignalingError(
                SignalingError::ProtocolError(e),
            ),
        }
    }
}

impl vstd::std_specs::convert::FromSpecImpl<SignalingError> for Chacha20Error {
    open spec fn obeys_from_spec() -> bool {
        true
    }

    open spec fn from_spec(v: SignalingError) -> Self {
        match v {
            SignalingError::Io(e) => Chacha20Error::Io(e),
            SignalingError::Timeout(e) => Chacha20Error::Timeout(e),
            SignalingError::ProtocolError(e) => Chacha20Error::SignalingError(
                SignalingError::ProtocolError(e),
            ),
        }
    }
}

impl From<StreamError> for Chacha20Error {
    fn from(value: StreamError) -> (r: Chacha20Error) {
        match value {
            StreamError::Io(e) => Chacha20Error::Io(e),
            StreamError::Timeout(e) => Chacha20Error::Timeout(e),
            StreamError::SignalingError(e) => Chacha20Error::SignalingError(e),
            StreamError::Other(e) => Chacha20Error::StreamError(StreamError::Other(e)),
        }
    }
}

impl vstd::std_specs::convert::FromSpecImpl<StreamError> for Chacha20Error {
    open spec fn obeys_from_spec() -> bool {
        true
    }

    open spec fn from_spec(v: StreamError) -> Self {
        match v {
            StreamError::Io(e) => Chacha20Error::Io(e),
            StreamError::Timeout(e) => Chacha20Error::Timeout(e),
            StreamError::SignalingError(e) => Chacha20Error::SignalingError(e),
            StreamError::Other(e) => Chacha20Error::StreamError(StreamError::Other(e)),
        }
    }
}

impl Chacha20Error {
    /// The stream-level view of this error: Io, timeout and signalling
    /// failures keep their identity, a wrapped stream error is unwrapped,
    /// and a crypto failure is carried as text.
    pub fn into_stream(self) -> (r: StreamError)
        ensures
            self matches Chacha20Error::Io(e) ==> r == StreamError::Io(e),
            self matches Chacha20Error::Timeout(e) ==> r == StreamError::Timeout(e),
            self matches Chacha20Error::SignalingError(e) ==> r == StreamError::SignalingError(e),
            self matches Chacha20Error::StreamError(e) ==> r == e,
            self matches Chacha20Error::CryptoError ==> (r matches StreamError::Other(m) && m@
                == "record failed to open"@),
    {
        match self {
            Chacha20Error::Io(e) => StreamError::Io(e),
            Chacha20Error::Timeout(e) => StreamError::Timeout(e),
            Chacha20Error::SignalingError(e) => StreamError::SignalingError(e),
            Chacha20Error::StreamError(e) => e,
            Chacha20Error::CryptoError => StreamError::Other("record failed to open".to_owned()),
        }
    }
}

/// The record layer state of one peer: one sealing direction, one opening
/// direction, and the ghost transcript of both.
pub struct Chacha20Stream {
    pub sealing_key: Vec<u8>,
    pub sealing_seq: Sequential,
    pub opening_key: Vec<u8>,
    pub opening_seq: Sequential,
    /// Every payload sealed so far, in order.
    pub sent: Ghost<Seq<Seq<u8>>>,
    /// Every payload opened so far, in order.
    pub delivered: Ghost<Seq<Seq<u8>>>,
}

impl Chacha20Stream {
    /// Key material was derived and has the right shapes.
    pub open spec fn wf(self) -> bool {
        self.sealing_key@.len() == 32 && self.opening_key@.len() == 32
    }

    /// Derive `len` bytes from the shared key material for one direction:
    /// HKDF-SHA512 with the label as salt and the role label as info.
    pub fn derive(basekey: &[u8], dialer: bool, salt: &str, len: usize) -> (r: Vec<u8>)
        requires
            len == 16 || len == 32,
            basekey@.len() <= MAX_DERIVE_INPUT,
            salt@.len() <= MAX_DERIVE_INPUT,
        ensures
            r@ == hkdf_sha512(salt@, basekey@, role_label(dialer), len as nat),
            r@.len() == len,
    {
        proof {
            // Either role label is a handful of characters, far below the
            // derivation input bound.
            reveal_strlit("dialer");
            reveal_strlit("listener");
        }
        let info = role_name(dialer);
        if len == 32 {
            hkdf_derive_32(salt, basekey, info.as_str())
        } else {
            hkdf_derive_16(salt, basekey, info.as_str())
        }
    }

    /// The sealing (or, for the opposite role, opening) key.
    fn get_key(basekey: &[u8], dialer: bool) -> (r: Vec<u8>)
        requires
            basekey@.len() <= MAX_DERIVE_INPUT,
        ensures
            r@ == derived_key(basekey@, dialer),
            r@.len() == 32,
    {
        proof {
            reveal_strlit("key");
        }
        Self::derive(basekey, dialer, "key", 32)
    }

    /// The counter seed for one direction.
    fn get_seq(basekey: &[u8], dialer: bool) -> (r: Sequential)
        requires
            basekey@.len() <= MAX_DERIVE_INPUT,
        ensures
            r.0 == derived_seq(basekey@, dialer),
    {
        proof {
            reveal_strlit("seq");
        }
        let seed = Self::derive(basekey, dialer, "seq", 16);
        proof {
            lemma_be_value_bound(seed@);
            assert(vstd::arithmetic::power::pow(256, 16) == 0x100000000000000000000000000000000)
                by {
                reveal_with_fuel(vstd::arithmetic::power::pow, 17);
            }
        }
        Sequential(be_u128(&seed))
    }

    /// Both directions of the schedule, from the shared key material: the
    /// local role seals, the peer's role opens.
    pub fn new(basekey: &[u8], dialer: bool) -> (r: Chacha20Stream)
        requires
            basekey@.len() <= MAX_DERIVE_INPUT,
        ensures
            r.wf(),
            r.sealing_key@ == derived_key(basekey@, dialer),
            r.sealing_seq.0 == derived_seq(basekey@, dialer),
            r.opening_key@ == derived_key(basekey@, !dialer),
            r.opening_seq.0 == derived_seq(basekey@, !dialer),
            r.sent@ == Seq::<Seq<u8>>::empty(),
            r.delivered@ == Seq::<Seq<u8>>::empty(),
    {
        Chacha20Stream {
            sealing_key: Self::get_key(basekey, dialer),
            sealing_seq: Self::get_seq(basekey, dialer),
            opening_key: Self::get_key(basekey, !dialer),
            opening_seq: Self::get_seq(basekey, !dialer),
            sent: Ghost(Seq::empty()),
            delivered: Ghost(Seq::empty()),
        }
    }

    /// Seal one payload under the current sealing counter, which advances.
    /// The opening direction is untouched: the two directions are isolated.
    pub fn seal_next(&mut self, data: &[u8]) -> (r: Vec<u8>)
        requires
            old(self).wf(),
            data@.len() <= 0xffff_0000,
        ensures
            final(self).wf(),
            r@ == chacha20_poly1305_seal(
                old(self).sealing_key@,
                nonce_bytes(old(self).sealing_seq.0),
                data@,
            ),
            r@.len() == data@.len() + 16,
            final(self).sealing_key == old(self).sealing_key,
            final(self).sealing_seq.0 == next_counter(old(self).sealing_seq.0),
            final(self).opening_key == old(self).opening_key,
            final(self).opening_seq == old(self).opening_seq,
            final(self).sent@ == old(self).sent@.push(data@),
            final(self).delivered == old(self).delivered,
    {
        let nonce = self.sealing_seq.advance();
        let sealed = aead_seal(self.sealing_key.as_slice(), nonce.as_slice(), data);
        proof {
            self.sent@ = self.sent@.push(data@);
        }
        sealed
    }

    /// Open one record under the current opening counter, which advances
    /// either way.  Exactly the record sealed with the matching key and
    /// counter opens back to its payload; anything else -- tampered, sealed
    /// under another key, or out of sequence -- is a fatal crypto error.
    /// The sealing direction is untouched.
    pub fn open_next(&mut self, sealed: &[u8]) -> (r: Result<Vec<u8>, Chacha20Error>)
        requires
            old(self).wf(),
        ensures
            final(self).wf(),
            forall|m: Seq<u8>|
                sealed@ == #[trigger] chacha20_poly1305_seal(
                    old(self).opening_key@,
                    nonce_bytes(old(self).opening_seq.0),
                    m,
                ) ==> (r matches Ok(p) && p@ == m),
            r matches Ok(p) ==> sealed@ == chacha20_poly1305_seal(
                old(self).opening_key@,
                nonce_bytes(old(self).opening_seq.0),
                p@,
            ),
            r is Err <==> (forall|m: Seq<u8>|
                sealed@ != #[trigger] chacha20_poly1305_seal(
                    old(self).opening_key@,
                    nonce_bytes(old(self).opening_seq.0),
                    m,
                )),
            r matches Ok(p) ==> p@.len() + 16 == sealed@.len() && final(self).delivered@ == old(
                self,
            ).delivered@.push(p@),
            r matches Err(e) ==> e == Chacha20Error::CryptoError && final(self).delivered == old(
                self,
            ).delivered,
            final(self).sealing_key == old(self).sealing_key,
            final(self).sealing_seq == old(self).sealing_seq,
            final(self).opening_key == old(self).opening_key,
            final(self).opening_seq.0 == next_counter(old(self).opening_seq.0),
            final(self).sent == old(self).sent,
    {
        let nonce = self.opening_seq.advance();
        match aead_open(self.opening_key.as_slice(), nonce.as_slice(), sealed) {
            Some(payload) => {
                proof {
                    self.delivered@ = self.delivered@.push(payload@);
                }
                Ok(payload)
            },
            None => Err(Chacha20Error::CryptoError),
        }
    }
}

/// Law: the key derivation is deterministic.  The same salt, keying
/// material, info and length give the same bytes, on any machine and in any
/// process; nothing about the derivation is negotiated or random.
pub proof fn lemma_hkdf_determinism(
    salt_a: Seq<char>,
    ikm_a: Seq<u8>,
    info_a: Seq<char>,
    len_a: nat,
    salt_b: Seq<char>,
    ikm_b: Seq<u8>,
    info_b: Seq<char>,
    len_b: nat,
)
    requires
        salt_a == salt_b,
        ikm_a == ikm_b,
        info_a == info_b,
        len_a == len_b,
    ensures
        hkdf_sha512(salt_a, ikm_a, info_a, len_a) == hkdf_sha512(salt_b, ikm_b, info_b, len_b),
{
}

/// Law: the record round trip.  A record sealed on one role's fresh state
/// opens on the opposite role's fresh state from the same key material, and
/// gives back exactly the payload: open(seal(m)) = m.
pub fn seal_open_roundtrip(basekey: &[u8], dialer: bool, message: &[u8]) -> (r: Vec<u8>)
    requires
        basekey@.len() <= MAX_DERIVE_INPUT,
        message@.len() <= 0xffff_0000,
    ensures
        r@ == message@,
{
    let mut sender = Chacha20Stream::new(basekey, dialer);
    let mut receiver = Chacha20Stream::new(basekey, !dialer);
    let sealed = sender.seal_next(message);
    match receiver.open_next(sealed.as_slice()) {
        Ok(payload) => payload,
        Err(_) => {
            // The receiver's opening key and counter equal the sender's
            // sealing key and counter, so the open contract rules this out.
            vstd::pervasive::unreached()
        },
    }
}

/// The sealing schedule of one role, as `new` derives it.
pub open spec fn sealing_schedule(basekey: Seq<u8>, dialer: bool) -> (Seq<u8>, u128) {
    (derived_key(basekey, dialer), derived_seq(basekey, dialer))
}

/// The opening schedule of one role, as `new` derives it.
pub open spec fn opening_schedule(basekey: Seq<u8>, dialer: bool) -> (Seq<u8>, u128) {
    (derived_key(basekey, !dialer), derived_seq(basekey, !dialer))
}

/// Law: the key schedule is symmetric.  For any shared key material, what
/// one role seals with is exactly what the opposite role opens with -- key
/// and counter seed both -- so the peers need no negotiation.
pub proof fn lemma_key_schedule_symmetry(basekey: Seq<u8>, dialer: bool)
    ensures
        sealing_schedule(basekey, dialer) == opening_schedule(basekey, !dialer),
        opening_schedule(basekey, dialer) == sealing_schedule(basekey, !dialer),
{
}

/// Two record layers mirror each other: each side's sealing direction is
/// the other side's opening direction, counters included.
pub open spec fn paired(a: Chacha20Stream, b: Chacha20Stream) -> bool {
    a.sealing_key@ == b.opening_key@ && a.sealing_seq.0 == b.opening_seq.0 && b.sealing_key@
        == a.opening_key@ && b.sealing_seq.0 == a.opening_seq.0
}

/// Law: the states `new` establishes for the two roles of one session are
/// paired, whichever side is the dialer.
pub proof fn lemma_roles_pair(
    basekey: Seq<u8>,
    dialer: bool,
    a: Chacha20Stream,
    b: Chacha20Stream,
)
    requires
        a.sealing_key@ == derived_key(basekey, dialer),
        a.sealing_seq.0 == derived_seq(basekey, dialer),
        a.opening_key@ == derived_key(basekey, !dialer),
        a.opening_seq.0 == derived_seq(basekey, !dialer),
        b.sealing_key@ == derived_key(basekey, !dialer),
        b.sealing_seq.0 == derived_seq(basekey, !dialer),
        b.opening_key@ == derived_key(basekey, dialer),
        b.opening_seq.0 == derived_seq(basekey, dialer),
    ensures
        paired(a, b),
{
}

/// The bytes a transcript carries, in order.
pub open spec fn concat_payloads(s: Seq<Seq<u8>>) -> Seq<u8>
    decreases s.len(),
{
    if s.len() == 0 {
        Seq::empty()
    } else {
        s.first() + concat_payloads(s.drop_first())
    }
}

/// Concatenating two transcripts concatenates their bytes.
pub proof fn lemma_concat_payloads_append(a: Seq<Seq<u8>>, b: Seq<Seq<u8>>)
    ensures
        concat_payloads(a + b) == concat_payloads(a) + concat_payloads(b),
    decreases a.len(),
{
    if a.len() == 0 {
        assert(a + b =~= b);
        assert(concat_payloads(a) + concat_payloads(b) =~= concat_payloads(b));
    } else {
        assert((a + b).first() == a.first());
        assert((a + b).drop_first() =~= a.drop_first() + b);
        lemma_concat_payloads_append(a.drop_first(), b);
        assert(a.first() + (concat_payloads(a.drop_first()) + concat_payloads(b)) =~= (a.first()
            + concat_payloads(a.drop_first())) + concat_payloads(b));
    }
}

/// Law: ordering.  While one side has delivered some prefix of the records
/// the other side sealed, the bytes it has delivered are, byte for byte,
/// a prefix of the bytes handed to the sealer -- and once everything sealed
/// was delivered, the two byte strings are equal.
pub proof fn lemma_ordered_delivery(sent: Seq<Seq<u8>>, delivered: Seq<Seq<u8>>)
    requires
        delivered.is_prefix_of(sent),
    ensures
        concat_payloads(delivered).is_prefix_of(concat_payloads(sent)),
        delivered.len() == sent.len() ==> concat_payloads(delivered) == concat_payloads(sent),
{
    let rest = sent.skip(delivered.len() as int);
    assert(sent =~= delivered + rest);
    lemma_concat_payloads_append(delivered, rest);
    if delivered.len() == sent.len() {
        assert(rest =~= Seq::<Seq<u8>>::empty());
        assert(concat_payloads(delivered) + concat_payloads(rest) =~= concat_payloads(delivered));
    } else {
        assert(concat_payloads(delivered).is_prefix_of(
            concat_payloads(delivered) + concat_payloads(rest),
        ));
    }
}

} // verus!
