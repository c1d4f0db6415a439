//! The reliable transport layer: one association, one stream, and the
//! decisions its read and shutdown paths make.
//!
//! The association and its socket live outside; this module owns the
//! receive-shutdown flag, interprets what a read or a connection-state
//! change means, and decides backpressure and drain.

use vstd::prelude::*;

use crate::error::TimeoutError;
use crate::pipe_stream::StreamError;
use crate::signalling::SignalingError;

verus! {

/// Bytes the association may buffer before the sender suspends.
pub const MAX_BUFFERED_AMOUNT: usize = 4 * 1024 * 1024;

/// The receive-buffer size the association is configured with.
pub const MAX_RECEIVE_BUFFER_SIZE: usize = 4 * 1024 * 1024;

/// The largest message the association carries.
pub const MAX_MESSAGE_SIZE: usize = 8 * 1024;

/// The size of the read buffer.
pub const READ_BUFFER_SIZE: usize = 8096;

/// The connectivity agent's connection state, as the transport observes it.
#[derive(Debug, Clone, Copy, PartialEq, Eq, Structural)]
pub enum IceConnectionState {
    Unspecified,
    New,
    Checking,
    Connected,
    Completed,
    Failed,
    Disconnected,
    Closed,
}

/// The payload protocol identifier of a received message, reduced to what
/// the transport reads of it.
#[derive(Debug, Clone, Copy, PartialEq, Eq, Structural)]
pub enum PayloadKind {
    /// Application data.
    Binary,
    /// The one-byte probe both sides send at stream establishment.
    StringEmpty,
    /// Anything else: treated as a keepalive.
    Other,
}

/// What the transport's `wait` surfaced: the watched connection state
/// changed, or a read completed with a length and a payload kind.
#[derive(Debug, Clone, PartialEq)]
pub enum SctpValue {
    StateChange(IceConnectionState),
    Read(usize, PayloadKind),
}

/// Errors of the transport layer.
#[derive(Debug, Clone, PartialEq)]
pub enum SctpError {
    /// The underlying transport failed.
    Io(String),
    /// A deadline elapsed.
    Timeout(TimeoutError),
    /// The signalling channel failed in a way that is not Io or timeout.
    SignalingError(SignalingError),
    /// The layer beneath failed with its own kind.
    StreamError(StreamError),
    /// The listener's association ended before the peer opened its stream.
    AssociationClosedWithoutStream,
    /// The association failed; the payload describes the failure.
    WebrtcSctpError(String),
}

impl From<SignalingError> for SctpError {
    fn from(value: SignalingError) -> (r: SctpError) {
        match value {
            SignalingError::Io(e) => SctpError::Io(e),
            SignalingError::Timeout(e) => SctpError::Timeout(e),
            SignalingError::ProtocolError(e) => SctpError::SignalingError(
                SignalingError::ProtocolError(e),
            ),
        }
    }
}

impl vstd::std_specs::convert::FromSpecImpl<SignalingError> for SctpError {
    open spec fn obeys_from_spec() -> bool {
        true
    }

    open spec fn from_spec(v: SignalingError) -> Self {
        match v {
            SignalingError::Io(e) => SctpError::Io(e),
            SignalingError::Timeout(e) => SctpError::Timeout(e),
            SignalingError::ProtocolError(e) => SctpError::SignalingError(
                SignalingError::ProtocolError(e),
            ),
        }
    }
}

impl From<StreamError> for SctpError {
    fn from(value: StreamError) -> (r: SctpError) {
        match value {
            StreamError::Io(e) => SctpError::Io(e),
            StreamError::Timeout(e) => SctpError::Timeout(e),
            StreamError::SignalingError(e) => SctpError::SignalingError(e),
            StreamError::Other(e) => SctpError::StreamError(StreamError::Other(e)),
        }
    }
}

impl vstd::std_specs::convert::FromSpecImpl<StreamError> for SctpError {
    open spec fn obeys_from_spec() -> bool {
        true
    }

    open spec fn from_spec(v: StreamError) -> Self {
        match v {
            StreamError::Io(e) => SctpError::Io(e),
            StreamError::Timeout(e) => SctpError::Timeout(e),
            StreamError::SignalingError(e) => SctpError::SignalingError(e),
            StreamError::Other(e) => SctpError::StreamError(StreamError::Other(e)),
        }
    }
}

impl SctpError {
    /// The stream-level view of this error.
    pub fn into_stream(self) -> (r: StreamError)
        ensures
            self matches SctpError::Io(e) ==> r == StreamError::Io(e),
            self matches SctpError::Timeout(e) ==> r == StreamError::Timeout(e),
            self matches SctpError::SignalingError(e) ==> r == StreamError::SignalingError(e),
            self matches SctpError::StreamError(e) ==> r == e,
            self matches SctpError::AssociationClosedWithoutStream ==> (r matches
                StreamError::Other(m) && m@ == "association closed when waiting for stream"@),
            self matches SctpError::WebrtcSctpError(m) ==> r == StreamError::Other(m),
    {
        match self {
            SctpError::Io(e) => StreamError::Io(e),
            SctpError::Timeout(e) => StreamError::Timeout(e),
            SctpError::SignalingError(e) => StreamError::SignalingError(e),
            SctpError::StreamError(e) => e,
            SctpError::AssociationClosedWithoutStream => StreamError::Other(
                "association closed when waiting for stream".to_owned(),
            ),
            SctpError::WebrtcSctpError(m) => StreamError::Other(m),
        }
    }
}

/// The transport's own state: whether a zero-length read closed the receive
/// half.
#[derive(Debug, Clone, PartialEq, Eq, Structural)]
pub struct Sctp {
    pub rx_shut: bool,
}

impl Sctp {
    /// A freshly established stream: the receive half is open.
    pub fn new() -> (r: Sctp)
        ensures
            !r.rx_shut,
    {
        Sctp { rx_shut: false }
    }

    /// Whether a connection state means the path is gone: everything from
    /// Completed on counts as closed for the receive half.
    pub fn connection_closed(state: IceConnectionState) -> (r: bool)
        ensures
            r == (state == IceConnectionState::Completed || state == IceConnectionState::Failed
                || state == IceConnectionState::Disconnected || state
                == IceConnectionState::Closed),
    {
        match state {
            IceConnectionState::Unspecified => false,
            IceConnectionState::New => false,
            IceConnectionState::Checking => false,
            IceConnectionState::Connected => false,
            IceConnectionState::Completed => true,
            IceConnectionState::Failed => true,
            IceConnectionState::Disconnected => true,
            IceConnectionState::Closed => true,
        }
    }

    /// Interpret what `wait` surfaced.  A state change carries no payload; a
    /// zero-length read closes the receive half; a non-binary message is a
    /// keepalive; a binary read of `n` bytes yields the first `n` bytes of
    /// the read buffer.
    pub fn on_value(&mut self, value: &SctpValue, buf: &Vec<u8>) -> (r: Option<Vec<u8>>)
        requires
            value matches SctpValue::Read(n, _) ==> n <= buf@.len(),
        ensures
            value matches SctpValue::StateChange(_) ==> r is None && *final(self) == *old(self),
            value matches SctpValue::Read(n, kind) ==> {
                &&& n == 0 ==> r is None && final(self).rx_shut
                &&& n > 0 && kind != PayloadKind::Binary ==> r is None && *final(self) == *old(
                    self,
                )
                &&& n > 0 && kind == PayloadKind::Binary ==> (r matches Some(payload) && payload@
                    == buf@.subrange(0, n as int) && *final(self) == *old(self))
            },
    {
        match value {
            SctpValue::StateChange(_) => None,
            SctpValue::Read(n, kind) => {
                if *n == 0 {
                    self.rx_shut = true;
                    return None;
                }
                if *kind != PayloadKind::Binary {
                    return None;
                }
                let mut payload: Vec<u8> = Vec::new();
                let mut i: usize = 0;
                while i < *n
                    invariant
                        i <= *n,
                        *n <= buf@.len(),
                        payload@ =~= buf@.subrange(0, i as int),
                    decreases *n - i,
                {
                    payload.push(buf[i]);
                    proof {
                        assert(payload@ =~= buf@.subrange(0, i + 1));
                    }
                    i = i + 1;
                }
                Some(payload)
            },
        }
    }

    /// The receive half is closed once a zero-length read arrived or the
    /// connectivity path is gone.
    pub fn rx_closed(&self, state: IceConnectionState) -> (r: bool)
        ensures
            r == (self.rx_shut || state == IceConnectionState::Completed || state
                == IceConnectionState::Failed || state == IceConnectionState::Disconnected || state
                == IceConnectionState::Closed),
    {
        self.rx_shut || Self::connection_closed(state)
    }

    /// Whether the sender must keep suspending: the association still
    /// buffers more than the backpressure limit.
    pub fn needs_backpressure(buffered_amount: usize) -> (r: bool)
        ensures
            r == (buffered_amount > MAX_BUFFERED_AMOUNT),
    {
        buffered_amount > MAX_BUFFERED_AMOUNT
    }

    /// Whether the closing drain must keep waiting: bytes are still
    /// buffered and the drain deadline has not passed.
    pub fn drain_pending(buffered_amount: usize, now_ms: u64, deadline_ms: u64) -> (r: bool)
        ensures
            r == (buffered_amount > 0 && now_ms < deadline_ms),
    {
        buffered_amount > 0 && now_ms < deadline_ms
    }
}

} // verus!
