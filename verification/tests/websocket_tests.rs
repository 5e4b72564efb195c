use pusher_rs::websocket::{
    state_for, Frame, ReconnectStep, Reconnector, SessionAction, SessionInput, PING_INTERVAL_SECS,
    PONG_TIMEOUT_SECS,
};
use pusher_rs::{ConnectionState, WebSocketCommand, WsSession};

#[test]
fn session_starts_connected() {
    let s = WsSession::new();
    assert!(s.is_running());
    assert_eq!(s.connection_state(), ConnectionState::Connected);
}

#[test]
fn ping_pong_cycle() {
    let mut s = WsSession::new();
    assert!(matches!(s.step(SessionInput::PongTimeout), SessionAction::Ignore));
    assert!(s.is_running());
    assert!(matches!(s.step(SessionInput::PingTick), SessionAction::SendPing));
    assert!(matches!(s.step(SessionInput::Received(Frame::Pong)), SessionAction::Ignore));
    assert!(matches!(s.step(SessionInput::PongTimeout), SessionAction::Ignore));
    assert!(s.is_running());
    assert!(matches!(s.step(SessionInput::PingTick), SessionAction::SendPing));
    assert!(matches!(s.step(SessionInput::PongTimeout), SessionAction::ConnectionLost));
    assert!(!s.is_running());
    assert!(s.is_lost());
    assert_eq!(s.connection_state(), ConnectionState::Reconnecting);
}

#[test]
fn frames_and_commands() {
    let mut s = WsSession::new();
    match s.step(SessionInput::Received(Frame::Text("{}".to_string()))) {
        SessionAction::Deliver(t) => assert_eq!(t, "{}"),
        _ => panic!("expected delivery"),
    }
    assert!(matches!(s.step(SessionInput::Received(Frame::Ping)), SessionAction::SendPong));
    assert!(matches!(s.step(SessionInput::Received(Frame::Binary)), SessionAction::Ignore));
    assert!(matches!(s.step(SessionInput::Received(Frame::Other)), SessionAction::Ignore));
    match s.step(SessionInput::Command(WebSocketCommand::Send("m".to_string()))) {
        SessionAction::SendText(t) => assert_eq!(t, "m"),
        _ => panic!("expected a send"),
    }
    assert!(s.is_running());
    assert!(matches!(
        s.step(SessionInput::Command(WebSocketCommand::Close)),
        SessionAction::CloseSocket
    ));
    assert!(!s.is_running());
    assert!(!s.is_lost());
    assert_eq!(s.connection_state(), ConnectionState::Disconnected);
}

#[test]
fn session_ends_on_failures() {
    for input in [
        SessionInput::PingSendFailed,
        SessionInput::Received(Frame::Close),
        SessionInput::StreamError,
        SessionInput::StreamEnded,
    ] {
        let mut s = WsSession::new();
        assert!(matches!(s.step(input), SessionAction::ConnectionLost));
        assert!(!s.is_running());
        assert_eq!(s.connection_state(), ConnectionState::Reconnecting);
    }
}

#[test]
fn timer_settings() {
    assert_eq!(PING_INTERVAL_SECS, 30);
    assert_eq!(PONG_TIMEOUT_SECS, 10);
}

#[test]
fn reconnection_backs_off_exponentially_then_gives_up() {
    let mut r = Reconnector::new(4, 1000);
    assert_eq!(r.next_attempt(), ReconnectStep::Wait(1000));
    assert_eq!(r.next_attempt(), ReconnectStep::Wait(2000));
    assert_eq!(r.next_attempt(), ReconnectStep::Wait(4000));
    assert_eq!(r.next_attempt(), ReconnectStep::Wait(8000));
    assert_eq!(r.next_attempt(), ReconnectStep::GiveUp);
    assert_eq!(r.next_attempt(), ReconnectStep::GiveUp);
    assert_eq!(state_for(ReconnectStep::GiveUp), ConnectionState::Failed);
    assert_eq!(state_for(ReconnectStep::Wait(5)), ConnectionState::Reconnecting);
    r.reset();
    assert_eq!(r.next_attempt(), ReconnectStep::Wait(1000));
}

#[test]
fn reconnection_without_attempts_gives_up_at_once() {
    let mut r = Reconnector::new(0, 1000);
    assert_eq!(r.next_attempt(), ReconnectStep::GiveUp);
}

#[test]
fn reconnection_delay_is_capped() {
    let mut r = Reconnector::new(70, u64::MAX / 2);
    assert_eq!(r.next_attempt(), ReconnectStep::Wait(u64::MAX / 2));
    assert_eq!(r.next_attempt(), ReconnectStep::Wait(u64::MAX - 1));
    assert_eq!(r.next_attempt(), ReconnectStep::Wait(u64::MAX));
    let mut r = Reconnector::new(70, 3);
    for _ in 0..69 {
        r.next_attempt();
    }
    assert_eq!(r.next_attempt(), ReconnectStep::Wait(u64::MAX));
    assert_eq!(r.next_attempt(), ReconnectStep::GiveUp);
}
