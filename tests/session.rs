use lansend::messages::{
    MailDataOutline, MailWithReceivers, PostOfficeMessage, WsMessageToClient, WsMessageToServer,
    WsSessionMessage,
};
use lansend::presence::ConnectionHandle;
use lansend::session::{HeartbeatConfig, SessionAction, SessionEvent, SessionPhase, WsSession};

fn config() -> HeartbeatConfig {
    HeartbeatConfig { interval_ms: 500, timeout_ms: 3000 }
}

fn started(now: u64) -> WsSession {
    let mut s = WsSession::new("u1".to_string(), config(), now);
    let a = s.handle(SessionEvent::Started { now, addr: ConnectionHandle { id: 4 } });
    match a {
        Some(SessionAction::Office(PostOfficeMessage::Connect { user_id, session_id, session_addr })) => {
            assert_eq!(user_id, "u1");
            assert_eq!(session_id, s.session_id);
            assert_eq!(session_addr, ConnectionHandle { id: 4 });
        }
        other => panic!("unexpected {:?}", other),
    }
    s
}

fn is_disconnect(a: &Option<SessionAction>) -> bool {
    matches!(a, Some(SessionAction::Office(PostOfficeMessage::Disconnect { .. })))
}

#[test]
fn new_session_has_fresh_id() {
    let a = WsSession::new("u1".to_string(), config(), 10);
    let b = WsSession::new("u1".to_string(), config(), 10);
    assert_eq!(a.session_id.chars().count(), 21);
    assert_ne!(a.session_id, b.session_id);
    assert_eq!(a.phase, SessionPhase::Starting);
}

#[test]
fn silent_client_times_out_with_one_disconnect() {
    let mut s = started(0);
    assert!(matches!(s.handle(SessionEvent::HeartbeatTick { now: 500 }), Some(SessionAction::Ping)));
    assert!(matches!(s.handle(SessionEvent::HeartbeatTick { now: 3001 }), Some(SessionAction::Stop)));
    assert_eq!(s.phase, SessionPhase::Stopping);
    let a = s.handle(SessionEvent::Stopped);
    assert!(is_disconnect(&a));
    assert_eq!(s.phase, SessionPhase::Stopped);
    assert!(s.handle(SessionEvent::Stopped).is_none());
    assert!(s.handle(SessionEvent::HeartbeatTick { now: 9000 }).is_none());
}

#[test]
fn activity_defers_the_timeout() {
    let mut s = started(0);
    assert!(s.handle(SessionEvent::Pong { now: 2500 }).is_none());
    assert!(matches!(s.handle(SessionEvent::HeartbeatTick { now: 5000 }), Some(SessionAction::Ping)));
    assert!(s.is_timed_out(5501));
    assert!(!s.is_timed_out(5500));
}

#[test]
fn ping_is_answered() {
    let mut s = started(0);
    match s.handle(SessionEvent::Ping { now: 10, payload: vec![1, 2] }) {
        Some(SessionAction::Pong(p)) => assert_eq!(p, vec![1, 2]),
        other => panic!("unexpected {:?}", other),
    }
    assert_eq!(s.heartbeat_time, 10);
}

#[test]
fn text_mail_is_forwarded_and_malformed_ignored() {
    let mut s = started(0);
    let mail = MailWithReceivers {
        receivers: vec!["u2".to_string()],
        data: MailDataOutline::Text("hi".to_string()),
    };
    match s.handle(SessionEvent::Text { now: 5, time: 77, message: Some(WsMessageToServer::Mail(mail)) }) {
        Some(SessionAction::Office(PostOfficeMessage::Mail { sender_id, time, mail })) => {
            assert_eq!(sender_id, "u1");
            assert_eq!(time, 77);
            assert_eq!(mail.receivers, vec!["u2".to_string()]);
        }
        other => panic!("unexpected {:?}", other),
    }
    assert!(s.handle(SessionEvent::Text { now: 6, time: 78, message: None }).is_none());
    assert_eq!(s.phase, SessionPhase::Active);
    assert_eq!(s.heartbeat_time, 6);
}

#[test]
fn close_is_echoed_then_disconnects() {
    let mut s = started(0);
    assert!(matches!(s.handle(SessionEvent::Close { now: 1 }), Some(SessionAction::Close)));
    assert_eq!(s.phase, SessionPhase::Stopping);
    assert!(is_disconnect(&s.handle(SessionEvent::Stopped)));
}

#[test]
fn pushes_are_written() {
    let mut s = started(0);
    match s.handle(SessionEvent::Push(WsSessionMessage::WsMessage(WsMessageToClient::Users(vec![])))) {
        Some(SessionAction::Write(WsMessageToClient::Users(u))) => assert!(u.is_empty()),
        other => panic!("unexpected {:?}", other),
    }
}

#[test]
fn transport_loss_before_start_disconnects_once() {
    let mut s = WsSession::new("u1".to_string(), config(), 0);
    assert!(is_disconnect(&s.handle(SessionEvent::Stopped)));
    assert!(s.handle(SessionEvent::Started { now: 1, addr: ConnectionHandle { id: 1 } }).is_none());
}
