//! Candidate exchange over signalling, and the credentials the connectivity
//! agent is configured with.
//!
//! After the `"Icepipe"` sentinel is exchanged, each side forwards its local
//! candidates to the peer verbatim and feeds the peer's candidates into the
//! agent, until the `"Close"` marker shuts the receive half down.  The
//! asynchronous plumbing (the agent, the bounded candidate channel, the
//! signalling transport) lives outside; this module owns the state and the
//! decisions.

use vstd::prelude::*;

use crate::error::TimeoutError;
use crate::pipe_stream::StreamError;
use crate::signalling::SignalingError;

verus! {

/// The sentinel text both peers must send first.
pub open spec fn protocol_start() -> Seq<char> {
    "Icepipe"@
}

/// The close marker: the text that shuts the peer's receive half down.
pub open spec fn protocol_close() -> Seq<char> {
    "Close"@
}

/// Errors of the candidate-exchange layer.
#[derive(Debug, Clone, PartialEq)]
pub enum IceError {
    /// The underlying transport failed.
    Io(String),
    /// The liveness clock ran out.
    Timeout(TimeoutError),
    /// The signalling channel failed in a way that is not Io or timeout.
    SignalingError(SignalingError),
    /// The first message was not the expected sentinel; it is carried here.
    BadHandshake(String),
    /// The connectivity agent failed; the payload describes the failure.
    IceError(String),
}

impl From<SignalingError> for IceError {
    fn from(value: SignalingError) -> (r: IceError) {
        match value {
            SignalingError::Io(e) => IceError::Io(e),
            SignalingError::Timeout(e) => IceError::Timeout(e),
            SignalingError::ProtocolError(e) => IceError::SignalingError(
                SignalingError::ProtocolError(e),
            ),
        }
    }
}

impl vstd::std_specs::convert::FromSpecImpl<SignalingError> for IceError {
    open spec fn obeys_from_spec() -> bool {
        true
    }

    open spec fn from_spec(v: SignalingError) -> Self {
        match v {
            SignalingError::Io(e) => IceError::Io(e),
            SignalingError::Timeout(e) => IceError::Timeout(e),
            SignalingError::ProtocolError(e) => IceError::SignalingError(
                SignalingError::ProtocolError(e),
            ),
        }
    }
}

impl IceError {
    /// The stream-level view of this error: Io, timeout and signalling
    /// failures keep their identity; the rest is carried as text.
    pub fn into_stream(self) -> (r: StreamError)
        ensures
            self matches IceError::Io(e) ==> r == StreamError::Io(e),
            self matches IceError::Timeout(e) ==> r == StreamError::Timeout(e),
            self matches IceError::SignalingError(e) ==> r == StreamError::SignalingError(e),
            self matches IceError::BadHandshake(_) ==> r is Other,
            self matches IceError::IceError(m) ==> r == StreamError::Other(m),
    {
        match self {
            IceError::Io(e) => StreamError::Io(e),
            IceError::Timeout(e) => StreamError::Timeout(e),
            IceError::SignalingError(e) => StreamError::SignalingError(e),
            IceError::BadHandshake(_) => StreamError::Other("bad handshake".to_owned()),
            IceError::IceError(m) => StreamError::Other(m),
        }
    }
}

/// What the exchange's `wait` surfaced: a local candidate left the agent's
/// callback, or the signalling layer interpreted an incoming frame.
#[derive(Debug, Clone, PartialEq)]
pub enum ExchangeEvent {
    /// A candidate of our own, already marshalled, to forward to the peer.
    LocalCandidate(String),
    /// What signalling made of an incoming frame: a message, or nothing.
    SignalMessage(Option<String>),
}

/// The action the surrounding transport must carry out after an event was
/// interpreted.
#[derive(Debug, Clone, PartialEq)]
pub enum ExchangeAction {
    /// Send this candidate to the peer over signalling, verbatim.
    ForwardCandidate(String),
    /// Hand this remote candidate to the connectivity agent.
    AddRemoteCandidate(String),
    /// Nothing to do.
    Ignore,
}

/// The half-duplex state of the candidate exchange.
#[derive(Debug, Clone, PartialEq, Eq, Structural)]
pub struct CandidateExchange {
    /// The close marker was sent; nothing further goes out.
    pub tx_shut: bool,
    /// The close marker was received; nothing further is surfaced.
    pub rx_shut: bool,
}

impl CandidateExchange {
    /// Check the peer's first message: anything but the sentinel is a bad
    /// handshake carrying the offending text.
    pub fn check_handshake(received: &String) -> (r: Result<CandidateExchange, IceError>)
        ensures
            r is Ok <==> received@ == protocol_start(),
            r matches Ok(e) ==> e == (CandidateExchange { tx_shut: false, rx_shut: false }),
            r matches Err(e) ==> e == IceError::BadHandshake(*received),
    {
        if *received == "Icepipe".to_owned() {
            Ok(CandidateExchange { tx_shut: false, rx_shut: false })
        } else {
            Err(IceError::BadHandshake(received.clone()))
        }
    }

    /// Interpret one event.  A local candidate is forwarded verbatim; the
    /// close marker shuts the receive half; any other message is a remote
    /// candidate for the agent; an empty signal changes nothing.
    pub fn on_event(&mut self, event: ExchangeEvent) -> (r: ExchangeAction)
        ensures
            final(self).tx_shut == old(self).tx_shut,
            event matches ExchangeEvent::LocalCandidate(c) ==> r == ExchangeAction::ForwardCandidate(
                c,
            ) && final(self).rx_shut == old(self).rx_shut,
            event matches ExchangeEvent::SignalMessage(None) ==> r == ExchangeAction::Ignore
                && final(self).rx_shut == old(self).rx_shut,
            event matches ExchangeEvent::SignalMessage(Some(m)) ==> if m@ == protocol_close() {
                r == ExchangeAction::Ignore && final(self).rx_shut
            } else {
                r == ExchangeAction::AddRemoteCandidate(m) && final(self).rx_shut == old(
                    self,
                ).rx_shut
            },
    {
        match event {
            ExchangeEvent::LocalCandidate(candidate) => ExchangeAction::ForwardCandidate(
                candidate,
            ),
            ExchangeEvent::SignalMessage(None) => ExchangeAction::Ignore,
            ExchangeEvent::SignalMessage(Some(message)) => {
                if message == "Close".to_owned() {
                    self.rx_shut = true;
                    ExchangeAction::Ignore
                } else {
                    ExchangeAction::AddRemoteCandidate(message)
                }
            },
        }
    }

    /// Begin closing the transmit half.  The first call asks the transport
    /// to send the close marker; later calls change nothing and ask for
    /// nothing: close is idempotent.
    pub fn close_request(&mut self) -> (send_close: bool)
        ensures
            send_close == !old(self).tx_shut,
            final(self).tx_shut,
            final(self).rx_shut == old(self).rx_shut,
    {
        let send_close = !self.tx_shut;
        self.tx_shut = true;
        send_close
    }

    /// The receive half has seen the peer's close marker.
    pub fn rx_closed(&self) -> (r: bool)
        ensures
            r == self.rx_shut,
    {
        self.rx_shut
    }
}

/// The credential (both username fragment and password) a peer uses for its
/// local side of the connectivity agent, by role.
pub open spec fn local_credential(dialer: bool) -> Seq<char> {
    if dialer {
        "locallocallocallocal"@
    } else {
        "remoteremoteremoteremote"@
    }
}

/// The local agent credential for this role.
pub fn get_local(dialer: bool) -> (r: String)
    ensures
        r@ == local_credential(dialer),
{
    if dialer {
        "locallocallocallocal".to_owned()
    } else {
        "remoteremoteremoteremote".to_owned()
    }
}

/// The credential expected from the peer: the opposite role's local one.
pub fn get_remote(dialer: bool) -> (r: String)
    ensures
        r@ == local_credential(!dialer),
{
    get_local(!dialer)
}

} // verus!
