use ecoblock_api::registry::{AlreadyRegistered, ConnectionRegistry, Session};
use ecoblock_api::session::{
    block_created_envelope, envelope, network_event_envelope, network_update_envelope,
    SessionAction, SessionEvent, SessionLoop, SessionState, WebSocketManager,
};

fn tick(ts: &str) -> SessionEvent {
    SessionEvent::TimerElapsed { timestamp: ts.to_string(), snapshot: "{\"peers\":[]}".to_string() }
}

#[test]
fn envelope_has_type_timestamp_and_data() {
    assert_eq!(
        envelope("network_update", "2024-01-01T00:00:00+00:00", "{}"),
        "{\"type\":\"network_update\",\"timestamp\":\"2024-01-01T00:00:00+00:00\",\"data\":{}}"
    );
}

#[test]
fn envelope_escapes_strings() {
    assert_eq!(
        network_update_envelope("a\"b", "1"),
        "{\"type\":\"network_update\",\"timestamp\":\"a\\\"b\",\"data\":1}"
    );
}

#[test]
fn hook_envelopes() {
    assert_eq!(
        block_created_envelope("t", "{\"hash\":\"h\"}"),
        "{\"type\":\"block_created\",\"timestamp\":\"t\",\"data\":{\"hash\":\"h\"}}"
    );
    assert_eq!(
        network_event_envelope("peer_joined", "t", "null"),
        "{\"type\":\"network_event\",\"event\":\"peer_joined\",\"timestamp\":\"t\",\"data\":null}"
    );
}

#[test]
fn registry_counts_registrations() {
    let mut reg = ConnectionRegistry::new();
    assert_eq!(reg.count(), 0);
    assert_eq!(reg.register(Session { id: 1, connected_at: 10 }), Ok(()));
    assert_eq!(reg.register(Session { id: 2, connected_at: 11 }), Ok(()));
    assert_eq!(reg.count(), 2);
    assert_eq!(reg.register(Session { id: 1, connected_at: 12 }), Err(AlreadyRegistered));
    assert_eq!(reg.count(), 2);
    assert!(reg.deregister(1));
    assert!(!reg.deregister(1));
    assert_eq!(reg.count(), 1);
    assert!(!reg.contains(1));
    assert!(reg.contains(2));
    assert!(reg.deregister(2));
    assert_eq!(reg.count(), 0);
    assert!(!reg.deregister(3));
    assert_eq!(reg.count(), 0);
}

#[test]
fn two_ticks_send_two_updates() {
    let mut hub = WebSocketManager::new();
    let mut s = hub.accept(1000).unwrap();
    assert_eq!(s.state, SessionState::Active);
    assert_eq!(hub.connection_count(), 1);
    let mut sent = Vec::new();
    for ts in ["t1", "t2"] {
        match hub.handle_event(&mut s, tick(ts)) {
            SessionAction::Send(text) => sent.push(text),
            _ => panic!("expected a send"),
        }
    }
    assert_eq!(sent.len(), 2);
    for text in &sent {
        assert!(text.starts_with("{\"type\":\"network_update\","));
    }
    assert_eq!(
        sent[0],
        "{\"type\":\"network_update\",\"timestamp\":\"t1\",\"data\":{\"peers\":[]}}"
    );
    assert_eq!(hub.connection_count(), 1);
    assert!(hub.connections.contains(s.id));
}

#[test]
fn timer_uses_current_time() {
    let mut hub = WebSocketManager::new();
    let mut s = hub.accept(0).unwrap();
    match hub.on_timer(&mut s, "{}".to_string()) {
        SessionAction::Send(text) => {
            assert!(text.starts_with("{\"type\":\"network_update\",\"timestamp\":\""));
            assert!(text.ends_with(",\"data\":{}}"));
        }
        _ => panic!("expected a send"),
    }
}

#[test]
fn close_frame_deregisters_and_stops_sending() {
    let mut hub = WebSocketManager::new();
    let mut s = hub.accept(0).unwrap();
    assert!(matches!(hub.handle_event(&mut s, SessionEvent::CloseFrame), SessionAction::Release));
    assert_eq!(s.state, SessionState::Closed);
    assert_eq!(hub.connection_count(), 0);
    assert!(matches!(hub.handle_event(&mut s, tick("t")), SessionAction::Nothing));
    assert!(matches!(hub.on_timer(&mut s, "{}".to_string()), SessionAction::Nothing));
}

#[test]
fn every_exit_path_deregisters() {
    let exits = [
        SessionEvent::CloseFrame,
        SessionEvent::InboundError,
        SessionEvent::InboundEnded,
        SessionEvent::SendFailed,
    ];
    let mut hub = WebSocketManager::new();
    let mut other = SessionLoop::new(99, 0);
    hub.activate(&mut other).unwrap();
    for (i, exit) in exits.into_iter().enumerate() {
        let mut s = SessionLoop::new(i as u128, 5);
        assert_eq!(hub.activate(&mut s), Ok(()));
        assert!(hub.connections.contains(s.id));
        assert!(matches!(hub.handle_event(&mut s, exit), SessionAction::Release));
        assert!(!hub.connections.contains(s.id));
        assert_eq!(s.state, SessionState::Closed);
    }
    assert_eq!(hub.connection_count(), 1);
}

#[test]
fn data_frame_changes_nothing() {
    let mut hub = WebSocketManager::new();
    let mut s = SessionLoop::new(4, 0);
    assert!(matches!(hub.handle_event(&mut s, tick("t")), SessionAction::Nothing));
    assert_eq!(s.state, SessionState::Connecting);
    hub.activate(&mut s).unwrap();
    let action = hub.handle_event(&mut s, SessionEvent::DataFrame("hello".to_string()));
    assert!(matches!(action, SessionAction::Nothing));
    assert_eq!(s.state, SessionState::Active);
    assert_eq!(hub.connection_count(), 1);
}

#[test]
fn activating_a_live_identifier_fails() {
    let mut hub = WebSocketManager::default();
    let mut a = SessionLoop::new(8, 0);
    let mut b = SessionLoop::new(8, 1);
    assert_eq!(hub.activate(&mut a), Ok(()));
    assert_eq!(hub.activate(&mut b), Err(AlreadyRegistered));
    assert_eq!(b.state, SessionState::Connecting);
    assert_eq!(hub.connection_count(), 1);
}

#[test]
fn broadcast_hooks_build_envelopes() {
    let hub = WebSocketManager::new();
    let b = hub.broadcast_block_created("{}");
    assert!(b.starts_with("{\"type\":\"block_created\",\"timestamp\":\""));
    let e = hub.broadcast_network_event("peer_left", "1");
    assert!(e.starts_with("{\"type\":\"network_event\",\"event\":\"peer_left\",\"timestamp\":\""));
    assert!(e.ends_with(",\"data\":1}"));
}
