use icepipe::error::TimeoutError;
use icepipe::ice::{CandidateExchange, ExchangeAction, ExchangeEvent, IceError};
use icepipe::ice::{get_local, get_remote};
use icepipe::ping::Ping;
use icepipe::pump::{pump_running, pump_step, PumpAction, PumpEvent};
use icepipe::sctp::{IceConnectionState, PayloadKind, Sctp, SctpValue};
use icepipe::signalling::SignalingError;
use icepipe::ws::{on_value, parse_role, Frame, ProtocolError, WebsocketError, WebsocketValue, WsReply};

#[test]
fn first_frame_assigns_the_role() {
    assert_eq!(parse_role(&Frame::Text("DIALER".to_string())), Ok(true));
    assert_eq!(parse_role(&Frame::Text("LISTENER".to_string())), Ok(false));
}

#[test]
fn any_other_first_frame_is_a_protocol_error() {
    assert!(parse_role(&Frame::Text("dialer".to_string())).is_err());
    assert!(parse_role(&Frame::Text(String::new())).is_err());
    assert!(parse_role(&Frame::Other).is_err());
}

#[test]
fn text_frames_pass_through_unchanged() {
    let mut ping = Ping::new(0);
    let r = on_value(&mut ping, 10, WebsocketValue::Incoming(Frame::Text("hi".to_string())));
    assert_eq!(r, Ok((WsReply::NoReply, Some("hi".to_string()))));
    assert_eq!(ping.last_ping, 0);
}

#[test]
fn peer_ping_is_answered_with_its_own_payload() {
    let mut ping = Ping::new(0);
    let r = on_value(&mut ping, 10, WebsocketValue::Incoming(Frame::Ping(vec![7, 8])));
    assert_eq!(r, Ok((WsReply::SendPong(vec![7, 8]), None)));
    assert_eq!(ping.last_pong, 10);
}

#[test]
fn pong_resets_the_clock_and_forwards_nothing() {
    let mut ping = Ping::new(0);
    let r = on_value(&mut ping, 20, WebsocketValue::Incoming(Frame::Pong(vec![])));
    assert_eq!(r, Ok((WsReply::NoReply, None)));
    assert_eq!(ping.last_ping, 20);
    assert_eq!(ping.last_pong, 20);
}

#[test]
fn unexpected_frame_kind_is_fatal() {
    let mut ping = Ping::new(0);
    let r = on_value(&mut ping, 20, WebsocketValue::Incoming(Frame::Other));
    assert!(r.is_err());
}

#[test]
fn ping_due_sends_a_ping_and_stamps_the_clock() {
    let mut ping = Ping::new(0);
    let r = on_value(
        &mut ping,
        15_000,
        WebsocketValue::MustPing(icepipe::ping::MustPing),
    );
    assert_eq!(r, Ok((WsReply::SendPing, None)));
    assert_eq!(ping.last_ping, 15_000);
    assert_eq!(ping.last_pong, 0);
}

#[test]
fn handshake_accepts_the_sentinel_only() {
    assert!(CandidateExchange::check_handshake(&"Icepipe".to_string()).is_ok());
    let rejected = CandidateExchange::check_handshake(&"icepipe".to_string());
    assert_eq!(rejected, Err(IceError::BadHandshake("icepipe".to_string())));
}

#[test]
fn local_candidates_are_forwarded_verbatim() {
    let mut exchange = CandidateExchange::check_handshake(&"Icepipe".to_string()).unwrap();
    let candidate = "candidate:1 1 udp 2130706431 192.0.2.1 54400 typ host".to_string();
    let action = exchange.on_event(ExchangeEvent::LocalCandidate(candidate.clone()));
    assert_eq!(action, ExchangeAction::ForwardCandidate(candidate));
    assert!(!exchange.rx_closed());
}

#[test]
fn remote_candidates_go_to_the_agent() {
    let mut exchange = CandidateExchange::check_handshake(&"Icepipe".to_string()).unwrap();
    let action = exchange.on_event(ExchangeEvent::SignalMessage(Some("candidate:2".to_string())));
    assert_eq!(action, ExchangeAction::AddRemoteCandidate("candidate:2".to_string()));
}

#[test]
fn empty_signal_events_change_nothing() {
    let mut exchange = CandidateExchange::check_handshake(&"Icepipe".to_string()).unwrap();
    assert_eq!(exchange.on_event(ExchangeEvent::SignalMessage(None)), ExchangeAction::Ignore);
    assert!(!exchange.rx_closed());
}

#[test]
fn close_marker_shuts_the_receive_half() {
    let mut exchange = CandidateExchange::check_handshake(&"Icepipe".to_string()).unwrap();
    let action = exchange.on_event(ExchangeEvent::SignalMessage(Some("Close".to_string())));
    assert_eq!(action, ExchangeAction::Ignore);
    assert!(exchange.rx_closed());
}

#[test]
fn close_is_idempotent() {
    let mut exchange = CandidateExchange::check_handshake(&"Icepipe".to_string()).unwrap();
    assert!(exchange.close_request());
    assert!(!exchange.close_request());
    assert!(!exchange.close_request());
}

#[test]
fn closing_rx_does_not_close_tx() {
    let mut exchange = CandidateExchange::check_handshake(&"Icepipe".to_string()).unwrap();
    let _ = exchange.on_event(ExchangeEvent::SignalMessage(Some("Close".to_string())));
    assert!(exchange.rx_closed());
    // The transmit half still owes its own close marker.
    assert!(exchange.close_request());
}

#[test]
fn agent_credentials_are_role_symmetric() {
    assert_eq!(get_local(true), "locallocallocallocal");
    assert_eq!(get_local(false), "remoteremoteremoteremote");
    assert_eq!(get_remote(true), get_local(false));
    assert_eq!(get_remote(false), get_local(true));
}

#[test]
fn zero_length_read_closes_the_receive_half() {
    let mut sctp = Sctp::new();
    let buf = vec![1u8, 2, 3];
    let r = sctp.on_value(&SctpValue::Read(0, PayloadKind::Binary), &buf);
    assert_eq!(r, None);
    assert!(sctp.rx_closed(IceConnectionState::Connected));
}

#[test]
fn non_binary_messages_are_keepalives() {
    let mut sctp = Sctp::new();
    let buf = vec![0u8; 8];
    let r = sctp.on_value(&SctpValue::Read(1, PayloadKind::StringEmpty), &buf);
    assert_eq!(r, None);
    assert!(!sctp.rx_closed(IceConnectionState::Connected));
}

#[test]
fn binary_reads_yield_the_prefix_read() {
    let mut sctp = Sctp::new();
    let buf = vec![9u8, 8, 7, 6, 5];
    let r = sctp.on_value(&SctpValue::Read(3, PayloadKind::Binary), &buf);
    assert_eq!(r, Some(vec![9, 8, 7]));
}

#[test]
fn state_changes_carry_no_payload() {
    let mut sctp = Sctp::new();
    let buf = Vec::new();
    let r = sctp.on_value(&SctpValue::StateChange(IceConnectionState::Failed), &buf);
    assert_eq!(r, None);
}

#[test]
fn terminal_connection_states_close_rx() {
    let sctp = Sctp::new();
    assert!(!sctp.rx_closed(IceConnectionState::Unspecified));
    assert!(!sctp.rx_closed(IceConnectionState::New));
    assert!(!sctp.rx_closed(IceConnectionState::Checking));
    assert!(!sctp.rx_closed(IceConnectionState::Connected));
    assert!(sctp.rx_closed(IceConnectionState::Completed));
    assert!(sctp.rx_closed(IceConnectionState::Failed));
    assert!(sctp.rx_closed(IceConnectionState::Disconnected));
    assert!(sctp.rx_closed(IceConnectionState::Closed));
}

#[test]
fn backpressure_starts_above_four_mebibytes() {
    assert!(!Sctp::needs_backpressure(4 * 1024 * 1024));
    assert!(Sctp::needs_backpressure(4 * 1024 * 1024 + 1));
}

#[test]
fn drain_waits_only_while_buffered_and_before_deadline() {
    assert!(Sctp::drain_pending(1, 0, 5_000));
    assert!(!Sctp::drain_pending(0, 0, 5_000));
    assert!(!Sctp::drain_pending(1, 5_000, 5_000));
}

#[test]
fn pump_forwards_each_side_to_the_other() {
    assert_eq!(
        pump_step(PumpEvent::Peer(Some(vec![1, 2]))),
        PumpAction::SendToLocal(vec![1, 2])
    );
    assert_eq!(
        pump_step(PumpEvent::Local(Some(vec![3]))),
        PumpAction::SendToPeer(vec![3])
    );
    assert_eq!(pump_step(PumpEvent::Peer(None)), PumpAction::Nothing);
    assert_eq!(pump_step(PumpEvent::Local(None)), PumpAction::Nothing);
}

#[test]
fn pump_runs_only_while_both_receive_halves_live() {
    assert!(pump_running(false, false));
    assert!(!pump_running(true, false));
    assert!(!pump_running(false, true));
    assert!(!pump_running(true, true));
}

#[test]
fn websocket_errors_map_to_signalling_kinds() {
    let io = WebsocketError::WebsocketError("broken pipe".to_string());
    assert_eq!(io.into_signaling(), SignalingError::Io("broken pipe".to_string()));
    let timeout = WebsocketError::Timeout(TimeoutError);
    assert_eq!(timeout.into_signaling(), SignalingError::Timeout(TimeoutError));
    let protocol = WebsocketError::ProtocolError(ProtocolError::Unexpected(
        Frame::Other,
        icepipe::ws::Expected::MessageTextOrPong,
    ));
    assert!(matches!(protocol.into_signaling(), SignalingError::ProtocolError(_)));
}
