//! The error type shared by every layer of the stream stack.

use vstd::prelude::*;

use crate::error::TimeoutError;
use crate::signalling::SignalingError;

verus! {

/// The error a stacked stream reports upward.  Io and Timeout keep their
/// identity through every rewrapping; everything else is carried as the
/// layer-specific kind it arose as.
#[derive(Debug, Clone, PartialEq)]
pub enum StreamError {
    /// The underlying transport failed.
    Io(String),
    /// A liveness or drain deadline elapsed.
    Timeout(TimeoutError),
    /// The signalling channel failed in a way that is not an Io failure.
    SignalingError(SignalingError),
    /// Any other layer-specific failure, described in text.
    Other(String),
}

impl From<TimeoutError> for StreamError {
    fn from(value: TimeoutError) -> (r: StreamError) {
        StreamError::Timeout(value)
    }
}

impl vstd::std_specs::convert::FromSpecImpl<TimeoutError> for StreamError {
    open spec fn obeys_from_spec() -> bool {
        true
    }

    open spec fn from_spec(v: TimeoutError) -> Self {
        StreamError::Timeout(v)
    }
}

impl From<SignalingError> for StreamError {
    fn from(value: SignalingError) -> (r: StreamError) {
        match value {
            SignalingError::Io(e) => StreamError::Io(e),
            SignalingError::Timeout(e) => StreamError::Timeout(e),
            SignalingError::ProtocolError(e) => StreamError::SignalingError(
                SignalingError::ProtocolError(e),
            ),
        }
    }
}

impl vstd::std_specs::convert::FromSpecImpl<SignalingError> for StreamError {
    open spec fn obeys_from_spec() -> bool {
        true
    }

    open spec fn from_spec(v: SignalingError) -> Self {
        match v {
            SignalingError::Io(e) => StreamError::Io(e),
            SignalingError::Timeout(e) => StreamError::Timeout(e),
            SignalingError::ProtocolError(e) => StreamError::SignalingError(
                SignalingError::ProtocolError(e),
            ),
        }
    }
}

} // verus!
