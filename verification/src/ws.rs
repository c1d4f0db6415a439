//! The signalling WebSocket, modelled over plain frames.
//!
//! The transport delivers frames; this module decides what each frame means:
//! the first text frame assigns the dialer/listener role, later text frames
//! are application messages, pings and pongs feed the liveness clock, and
//! anything else is a protocol violation.  The transport performs the
//! replies this module asks for.

use vstd::prelude::*;

use crate::error::TimeoutError;
use crate::ping::{MustPing, Ping};
use crate::signalling::SignalingError;

verus! {

/// A received WebSocket frame, reduced to what the protocol reads of it.
#[derive(Debug, Clone, PartialEq)]
pub enum Frame {
    /// An application (or role-assignment) text frame.
    Text(String),
    /// A ping control frame with its payload.
    Ping(Vec<u8>),
    /// A pong control frame with its payload.
    Pong(Vec<u8>),
    /// Any other frame kind: binary, close, or a raw frame.
    Other,
}

/// What the signalling `wait` surfaced: a frame arrived, or the liveness
/// clock says a ping is owed.
#[derive(Debug, Clone, PartialEq)]
pub enum WebsocketValue {
    Incoming(Frame),
    MustPing(MustPing),
}

/// The frame kind that was expected when an unexpected one arrived.
#[derive(Debug, Clone, PartialEq)]
pub enum Expected {
    MessageText(String),
    MessageTextOrPong,
}

/// A violation of the signalling protocol: the offending frame and what was
/// expected in its place.
#[derive(Debug, Clone, PartialEq)]
pub enum ProtocolError {
    Unexpected(Frame, Expected),
}

/// Errors of the signalling WebSocket layer.
#[derive(Debug, Clone, PartialEq)]
pub enum WebsocketError {
    /// The protocol was broken.
    ProtocolError(ProtocolError),
    /// The transport beneath failed; the payload describes the failure.
    WebsocketError(String),
    /// The liveness clock ran out.
    Timeout(TimeoutError),
}

impl From<ProtocolError> for WebsocketError {
    fn from(value: ProtocolError) -> (r: WebsocketError) {
        WebsocketError::ProtocolError(value)
    }
}

impl vstd::std_specs::convert::FromSpecImpl<ProtocolError> for WebsocketError {
    open spec fn obeys_from_spec() -> bool {
        true
    }

    open spec fn from_spec(v: ProtocolError) -> Self {
        WebsocketError::ProtocolError(v)
    }
}

impl From<TimeoutError> for WebsocketError {
    fn from(value: TimeoutError) -> (r: WebsocketError) {
        WebsocketError::Timeout(value)
    }
}

impl vstd::std_specs::convert::FromSpecImpl<TimeoutError> for WebsocketError {
    open spec fn obeys_from_spec() -> bool {
        true
    }

    open spec fn from_spec(v: TimeoutError) -> Self {
        WebsocketError::Timeout(v)
    }
}

impl WebsocketError {
    /// The signalling-level view of this error, as the layers above see it:
    /// transport failures become Io, the timeout stays a timeout, and a
    /// protocol violation is carried as protocol text.
    pub fn into_signaling(self) -> (r: SignalingError)
        ensures
            self matches WebsocketError::ProtocolError(_) ==> (r matches
                SignalingError::ProtocolError(m) && m@ == "unexpected frame"@),
            self matches WebsocketError::WebsocketError(e) ==> r == SignalingError::Io(e),
            self matches WebsocketError::Timeout(e) ==> r == SignalingError::Timeout(e),
    {
        match self {
            WebsocketError::ProtocolError(_) => SignalingError::ProtocolError(
                "unexpected frame".to_owned(),
            ),
            WebsocketError::WebsocketError(e) => SignalingError::Io(e),
            WebsocketError::Timeout(e) => SignalingError::Timeout(e),
        }
    }
}

/// The reply the transport must perform after a frame was interpreted.
#[derive(Debug, Clone, PartialEq)]
pub enum WsReply {
    /// Answer a peer ping with a pong carrying the same payload.
    SendPong(Vec<u8>),
    /// Send a ping with an empty payload.
    SendPing,
    /// Nothing to send.
    NoReply,
}

/// The role a first text frame assigns, when it assigns one.
pub open spec fn assigned_role(text: Seq<char>) -> Option<bool> {
    if text == "DIALER"@ {
        Some(true)
    } else if text == "LISTENER"@ {
        Some(false)
    } else {
        None
    }
}

/// Law: role uniqueness.  The server hands the two labels out one each, so
/// whichever side got which, exactly one of the two peers is the dialer.
pub proof fn lemma_role_uniqueness(a: Seq<char>, b: Seq<char>)
    requires
        a == "DIALER"@ && b == "LISTENER"@ || a == "LISTENER"@ && b == "DIALER"@,
    ensures
        assigned_role(a) is Some,
        assigned_role(b) is Some,
        assigned_role(a)->0 == !assigned_role(b)->0,
{
    reveal_strlit("DIALER");
    reveal_strlit("LISTENER");
    assert("DIALER"@.len() == 6);
    assert("LISTENER"@.len() == 8);
}

/// The role the server assigns with its first text frame: `true` for the
/// dialer, `false` for the listener.  Anything else breaks the protocol.
pub fn parse_role(first: &Frame) -> (r: Result<bool, ProtocolError>)
    ensures
        (first matches Frame::Text(t) && t@ == "DIALER"@) ==> r == Ok::<bool, ProtocolError>(true),
        (first matches Frame::Text(t) && t@ == "LISTENER"@) ==> r == Ok::<bool, ProtocolError>(
            false,
        ),
        r is Ok <==> (first matches Frame::Text(t) && (t@ == "DIALER"@ || t@ == "LISTENER"@)),
        first matches Frame::Text(t) ==> match assigned_role(t@) {
            Some(role) => r == Ok::<bool, ProtocolError>(role),
            None => r is Err,
        },
{
    proof {
        // The two role labels differ (already in length), so the branches
        // below cannot both apply to one frame.
        reveal_strlit("DIALER");
        reveal_strlit("LISTENER");
        assert("DIALER"@.len() == 6);
        assert("LISTENER"@.len() == 8);
    }
    match first {
        Frame::Text(t) => {
            if *t == "DIALER".to_owned() {
                Ok(true)
            } else if *t == "LISTENER".to_owned() {
                Ok(false)
            } else {
                Err(ProtocolError::Unexpected(
                    Frame::Text(t.clone()),
                    Expected::MessageText("DIALER or LISTENER".to_owned()),
                ))
            }
        },
        _ => Err(ProtocolError::Unexpected(
            first.clone(),
            Expected::MessageText("DIALER or LISTENER".to_owned()),
        )),
    }
}

/// Interpret what `wait` surfaced, updating the liveness clock, and return
/// the reply the transport owes and the application payload, if any.
pub fn on_value(ping: &mut Ping, now: u64, value: WebsocketValue) -> (r: Result<
    (WsReply, Option<String>),
    ProtocolError,
>)
    ensures
        value matches WebsocketValue::Incoming(Frame::Text(t)) ==> (r == Ok::<
            (WsReply, Option<String>),
            ProtocolError,
        >((WsReply::NoReply, Some(t))) && *final(ping) == *old(ping)),
        value matches WebsocketValue::Incoming(Frame::Ping(a)) ==> (r == Ok::<
            (WsReply, Option<String>),
            ProtocolError,
        >((WsReply::SendPong(a), None)) && *final(ping) == (Ping { last_ping: now, last_pong: now })),
        value matches WebsocketValue::Incoming(Frame::Pong(_)) ==> (r == Ok::<
            (WsReply, Option<String>),
            ProtocolError,
        >((WsReply::NoReply, None)) && *final(ping) == (Ping { last_ping: now, last_pong: now })),
        value matches WebsocketValue::Incoming(Frame::Other) ==> (r matches Err(e) && e
            == ProtocolError::Unexpected(Frame::Other, Expected::MessageTextOrPong) && *final(ping)
            == *old(ping)),
        value matches WebsocketValue::MustPing(_) ==> (r == Ok::<
            (WsReply, Option<String>),
            ProtocolError,
        >((WsReply::SendPing, None)) && *final(ping) == (Ping {
            last_ping: now,
            last_pong: old(ping).last_pong,
        })),
{
    match value {
        WebsocketValue::Incoming(frame) => match frame {
            Frame::Text(t) => Ok((WsReply::NoReply, Some(t))),
            Frame::Ping(a) => {
                ping.received_pong(now);
                Ok((WsReply::SendPong(a), None))
            },
            Frame::Pong(_) => {
                ping.received_pong(now);
                Ok((WsReply::NoReply, None))
            },
            Frame::Other => Err(ProtocolError::Unexpected(
                Frame::Other,
                Expected::MessageTextOrPong,
            )),
        },
        WebsocketValue::MustPing(_) => {
            ping.sent_ping(now);
            Ok((WsReply::SendPing, None))
        },
    }
}

} // verus!
