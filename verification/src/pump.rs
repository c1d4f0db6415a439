//! The top-level pump: what the event loop does with each delivery.
//!
//! The loop outside races the peer stack's `wait` against the local
//! stream's, interprets the winner, and hands the outcome here: whatever one
//! side delivered is sent to the other side, unchanged; an internal event
//! forwards nothing.  The loop runs while both receive halves are open, and
//! closes both sides when it stops.

use vstd::prelude::*;

verus! {

/// A payload (or internal event) one side delivered.
#[derive(Debug, Clone, PartialEq)]
pub enum PumpEvent {
    /// The peer stack delivered; `None` was an internal event.
    Peer(Option<Vec<u8>>),
    /// The local stream delivered; `None` was an internal event.
    Local(Option<Vec<u8>>),
}

/// What the loop must do next.
#[derive(Debug, Clone, PartialEq)]
pub enum PumpAction {
    /// Write these bytes to the local stream.
    SendToLocal(Vec<u8>),
    /// Send these bytes to the peer.
    SendToPeer(Vec<u8>),
    /// Nothing to forward.
    Nothing,
}

/// Forward a delivery to the opposite side, verbatim; internal events
/// forward nothing.
pub fn pump_step(event: PumpEvent) -> (r: PumpAction)
    ensures
        event matches PumpEvent::Peer(Some(data)) ==> r == PumpAction::SendToLocal(data),
        event matches PumpEvent::Local(Some(data)) ==> r == PumpAction::SendToPeer(data),
        (event == PumpEvent::Peer(None::<Vec<u8>>) || event == PumpEvent::Local(None::<Vec<u8>>))
            ==> r == PumpAction::Nothing,
{
    match event {
        PumpEvent::Peer(Some(data)) => PumpAction::SendToLocal(data),
        PumpEvent::Local(Some(data)) => PumpAction::SendToPeer(data),
        PumpEvent::Peer(None) => PumpAction::Nothing,
        PumpEvent::Local(None) => PumpAction::Nothing,
    }
}

/// The loop continues exactly while both receive halves are open.
pub fn pump_running(peer_rx_closed: bool, local_rx_closed: bool) -> (r: bool)
    ensures
        r == (!peer_rx_closed && !local_rx_closed),
{
    !peer_rx_closed && !local_rx_closed
}

} // verus!
