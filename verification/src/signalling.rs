//! Errors of the rendezvous signalling channel.

use vstd::prelude::*;

use crate::error::TimeoutError;

verus! {

/// What can go wrong on the signalling channel.  Transport failures and
/// liveness timeouts are kept apart from protocol violations so that the
/// layers above can rewrap them without losing the distinction.
#[derive(Debug, Clone, PartialEq)]
pub enum SignalingError {
    /// The underlying transport failed; the payload describes the failure.
    Io(String),
    /// No pong arrived within the liveness window.
    Timeout(TimeoutError),
    /// The peer or the server broke the signalling protocol.
    ProtocolError(String),
}

impl From<TimeoutError> for SignalingError {
    fn from(value: TimeoutError) -> (r: SignalingError) {
        SignalingError::Timeout(value)
    }
}

impl vstd::std_specs::convert::FromSpecImpl<TimeoutError> for SignalingError {
    open spec fn obeys_from_spec() -> bool {
        true
    }

    open spec fn from_spec(v: TimeoutError) -> Self {
        SignalingError::Timeout(v)
    }
}

} // verus!
