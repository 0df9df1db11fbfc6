use quant_exchange::auth::AuthenticationStatus;
use quant_exchange::connection::{ConnectionState, WebSocketConnection, WebSocketConnectionManager};
use quant_exchange::operation::WebSocketChannelType;

#[test]
fn authentication_success_clears_failures() {
    let mut s = AuthenticationStatus::default();
    s.mark_failed(1);
    s.mark_failed(2);
    s.mark_authenticated(3);
    assert!(s.is_authenticated);
    assert_eq!(s.failure_count, 0);
    assert_eq!(s.authenticated_at, Some(3));
    assert!(!s.should_retry());
}

#[test]
fn three_failures_stop_retries() {
    let mut s = AuthenticationStatus::default();
    assert!(s.should_retry());
    s.mark_failed(1);
    s.mark_failed(2);
    assert!(s.should_retry());
    s.mark_failed(3);
    assert!(!s.should_retry());
    assert_eq!(s.failure_count, 3);
    s.reset();
    assert!(s.should_retry());
    assert_eq!(s.last_attempt, None);
}

#[test]
fn attempts_are_spaced_by_a_minute() {
    let mut s = AuthenticationStatus::default();
    assert!(s.can_attempt_auth(0));
    s.record_attempt(1_000);
    assert!(!s.can_attempt_auth(1_000));
    assert!(!s.can_attempt_auth(61_000));
    assert!(s.can_attempt_auth(61_001));
    assert!(!s.can_attempt_auth(500));
}

#[test]
fn connection_state_machine() {
    let mut c: WebSocketConnection<&str> = WebSocketConnection::new();
    assert!(!c.is_connected());
    assert!(c.should_reconnect());
    c.begin_connect();
    assert!(matches!(c.state, ConnectionState::Connecting));
    c.set_connection("socket", 10);
    assert!(c.is_connected());
    assert_eq!(c.transport, Some("socket"));
    assert_eq!(c.last_ping, Some(10));
    c.set_authenticated();
    assert!(matches!(c.state, ConnectionState::Connected));
    c.begin_authentication();
    assert!(matches!(c.state, ConnectionState::Authenticating));
    assert!(!c.is_connected());
    c.authentication_refused();
    assert!(matches!(c.state, ConnectionState::Connected));
    c.begin_authentication();
    c.set_authenticated();
    assert!(c.is_authenticated());
    assert!(c.is_connected());
    assert!(!c.should_reconnect());
    c.increment_reconnect_count();
    c.set_error("boom".to_string());
    assert_eq!(c.get_error_message().map(|s| s.as_str()), Some("boom"));
    assert_eq!(c.transport, None);
    assert_eq!(c.reconnect_count, 0);
    c.increment_reconnect_count();
    c.increment_reconnect_count();
    assert!(c.should_reconnect());
    c.increment_reconnect_count();
    assert!(!c.should_reconnect());
    c.reset_reconnect_count();
    assert!(c.should_reconnect());
    c.disconnect();
    assert!(matches!(c.state, ConnectionState::Disconnected));
}

#[test]
fn reconnect_closes_a_live_connection_first() {
    let mut c: WebSocketConnection<u8> = WebSocketConnection::new();
    c.begin_connect();
    c.set_connection(1, 0);
    c.begin_connect();
    assert!(matches!(c.state, ConnectionState::Connecting));
    assert_eq!(c.transport, None);
}

#[test]
fn manager_dispatches_by_kind() {
    let mut m: WebSocketConnectionManager<u8> = WebSocketConnectionManager::new();
    assert!(m.get_connection(&WebSocketChannelType::Error).is_err());
    assert!(m.get_connection_mut(&WebSocketChannelType::Error).is_err());
    {
        let c = m.get_connection_mut(&WebSocketChannelType::Business).unwrap();
        c.begin_connect();
        c.set_connection(9, 0);
    }
    let h = m.health_check();
    assert!(!h.public_active && !h.private_active && h.business_active);
    assert!(h.any_active() && !h.all_active());
    assert!(m.get_connection(&WebSocketChannelType::Business).unwrap().is_connected());
    m.disconnect_all();
    assert!(!m.health_check().any_active());
}
