use base64::Engine;
use hmac::Mac;
use quant_exchange::args::{WsArg, WsPublicArg, WsPublicInstIdArg};
use quant_exchange::auth::AuthenticationStatus;
use quant_exchange::client::{ping_failure, InboundFrame, OkexWebSocketClient, PumpAction, PumpEvent};
use quant_exchange::config::{Credentials, Protocol};
use quant_exchange::connection::ConnectionState;
use quant_exchange::error::Error;
use quant_exchange::operation::{Operation, WebSocketChannelType};
use quant_exchange::response::WsResponseMessage;
use quant_exchange::signer::{canonical, generate_signature, login_signature};

fn credentials() -> Credentials {
    Credentials {
        api_key: "k".to_string(),
        secret_key: "s".to_string(),
        passphrase: "p".to_string(),
        use_testnet: None,
        protocol: Some(Protocol::WSS),
        http_urls: vec!["https://example".to_string()],
        testnet_http_urls: None,
        testnet_ws_urls: None,
        ws_urls: vec!["wss://example/ws/v5".to_string()],
    }
}

fn connected_client() -> (OkexWebSocketClient<u8>, quant_exchange::queue::MessageQueueReceivers) {
    let (mut client, receivers) = OkexWebSocketClient::<u8>::new("c1".to_string());
    client.set_credentials(credentials());
    for kind in [WebSocketChannelType::Public, WebSocketChannelType::Private, WebSocketChannelType::Business] {
        client.begin_connect(&kind).unwrap();
        client.connect_succeeded(&kind, 7, 0);
    }
    (client, receivers)
}

fn response(event: Option<Operation>, code: Option<&str>, msg: Option<&str>) -> WsResponseMessage {
    let mut m = WsResponseMessage::default();
    m.event = event;
    m.code = code.map(|c| c.to_string());
    m.msg = msg.map(|c| c.to_string());
    m.conn_id = Some("c1".to_string());
    m
}

fn hmac_base64(secret: &str, message: &str) -> String {
    let mut mac = hmac::Hmac::<sha2::Sha256>::new_from_slice(secret.as_bytes()).unwrap();
    mac.update(message.as_bytes());
    base64::engine::general_purpose::STANDARD.encode(mac.finalize().into_bytes())
}

#[test]
fn websocket_urls_per_channel() {
    let (mut client, _rx) = OkexWebSocketClient::<u8>::new("c1".to_string());
    match client.get_websocket_url(&WebSocketChannelType::Public) {
        Err(Error::Other(m)) => assert_eq!(m, "Credentials not loaded"),
        other => panic!("unexpected {:?}", other),
    }
    client.set_credentials(credentials());
    assert_eq!(client.get_websocket_url(&WebSocketChannelType::Public).unwrap(), "wss://example/ws/v5/public");
    assert_eq!(client.get_websocket_url(&WebSocketChannelType::Private).unwrap(), "wss://example/ws/v5/private");
    assert_eq!(client.get_websocket_url(&WebSocketChannelType::Business).unwrap(), "wss://example/ws/v5/business");
    let mut ws = credentials();
    ws.protocol = Some(Protocol::WS);
    client.set_credentials(ws);
    match client.get_websocket_url(&WebSocketChannelType::Public) {
        Err(Error::Other(m)) => assert_eq!(m, "Protocol is not WSS"),
        other => panic!("unexpected {:?}", other),
    }
    let mut none = credentials();
    none.ws_urls.clear();
    client.set_credentials(none);
    match client.get_websocket_url(&WebSocketChannelType::Public) {
        Err(Error::Other(m)) => assert_eq!(m, "No WebSocket URL found in credentials"),
        other => panic!("unexpected {:?}", other),
    }
}

#[test]
fn error_channel_has_no_connection() {
    let (mut client, _rx) = OkexWebSocketClient::<u8>::new("c1".to_string());
    client.set_credentials(credentials());
    match client.begin_connect(&WebSocketChannelType::Error) {
        Err(Error::ConfigError(m)) => assert_eq!(m, "Error channel is not supported"),
        other => panic!("unexpected {:?}", other),
    }
}

#[test]
fn connect_failure_records_error() {
    let (mut client, _rx) = OkexWebSocketClient::<u8>::new("c1".to_string());
    client.set_credentials(credentials());
    client.begin_connect(&WebSocketChannelType::Public).unwrap();
    assert!(matches!(client.connection_manager.public_connection.state, ConnectionState::Connecting));
    let e = client.connect_failed(&WebSocketChannelType::Public, "refused".to_string());
    assert!(matches!(e, Error::WsError(ref m) if m == "refused"));
    assert_eq!(
        client.connection_manager.public_connection.get_error_message().unwrap(),
        "Failed to connect to /public: refused"
    );
}

#[test]
fn subscribe_frame_on_open_connection() {
    let (client, _rx) = connected_client();
    let args = vec![WsArg::Public(WsPublicArg::MarkPrice(WsPublicInstIdArg { inst_id: "BTC-USD-SWAP".to_string() }))];
    assert!(!client.needs_authentication(&WebSocketChannelType::Public));
    assert_eq!(
        client.operation_frame(&Operation::Subscribe, &args, &WebSocketChannelType::Public).unwrap(),
        r#"{"id":null,"op":"subscribe","args":[{"channel":"mark-price","instId":"BTC-USD-SWAP"}]}"#
    );
}

#[test]
fn subscribe_without_connection_fails() {
    let (mut client, _rx) = connected_client();
    client.shutdown();
    let args = vec![WsArg::Public(WsPublicArg::MarkPrice(WsPublicInstIdArg { inst_id: "X".to_string() }))];
    match client.operation_frame(&Operation::Subscribe, &args, &WebSocketChannelType::Public) {
        Err(e) => assert_eq!(e.message(), "Error: /public connection not available"),
        other => panic!("unexpected {:?}", other),
    }
    assert!(client.pump_transport(&WebSocketChannelType::Public).is_err());
    assert!(client.connection_manager.health_check().any_active() == false);
}

#[test]
fn login_signature_matches_hmac() {
    assert_eq!(canonical(1700000000, "GET", "/users/self/verify", ""), "1700000000GET/users/self/verify");
    let expected = hmac_base64("s", "1700000000GET/users/self/verify");
    assert_eq!(login_signature(1700000000, "s").unwrap(), expected);
    assert_eq!(
        generate_signature("POST", "/api/v5/trade/order", "{}", 5, "secret").unwrap(),
        hmac_base64("secret", "5POST/api/v5/trade/order{}")
    );
    assert!(matches!(generate_signature("GET", "/", "", 1, ""), Err(Error::InvalidLength)));
}

#[test]
fn login_success() {
    let (mut client, _rx) = connected_client();
    let frame = client.prepare_login(1700000000, 1_000).unwrap().unwrap();
    let sign = hmac_base64("s", "1700000000GET/users/self/verify");
    assert_eq!(
        frame,
        format!(
            r#"{{"id":null,"op":"login","args":[{{"channel":"login","apiKey":"k","passphrase":"p","timestamp":1700000000,"sign":"{}"}}]}}"#,
            sign
        )
    );
    client.login_sent(1_000);
    let r = client.handle_received_message(&WebSocketChannelType::Private, response(Some(Operation::Login), Some("0"), None), 2_000);
    assert!(r.is_ok());
    assert!(client.auth_status.is_authenticated);
    assert_eq!(client.auth_status.failure_count, 0);
    assert_eq!(client.prepare_login(1700000001, 3_000).unwrap(), None);
    assert!(!client.needs_authentication(&WebSocketChannelType::Private));
}

#[test]
fn login_failure() {
    let (mut client, _rx) = connected_client();
    let r = client.handle_received_message(
        &WebSocketChannelType::Private,
        response(Some(Operation::Login), Some("60009"), Some("login failed")),
        10_000,
    );
    match r {
        Err(e) => assert_eq!(e.message(), "Error: Authentication failed: login failed"),
        Ok(()) => panic!("login failure accepted"),
    }
    assert_eq!(client.auth_status.failure_count, 1);
    assert!(!client.auth_status.is_authenticated);
    assert!(client.needs_authentication(&WebSocketChannelType::Private));
    match client.prepare_login(1700000000, 20_000) {
        Err(Error::Other(m)) => assert_eq!(m, "Too many authentication attempts, please wait"),
        other => panic!("unexpected {:?}", other),
    }
    assert!(client.prepare_login(1700000000, 70_001).unwrap().is_some());
}

#[test]
fn login_without_message_reports_unknown_error() {
    let (mut client, _rx) = connected_client();
    let r = client.handle_received_message(&WebSocketChannelType::Private, response(Some(Operation::Login), None, None), 0);
    assert_eq!(r.unwrap_err().message(), "Error: Authentication failed: Unknown error");
}

#[test]
fn server_error_on_private_channel_ends_pump() {
    let (mut client, _rx) = connected_client();
    let r = client.handle_received_message(&WebSocketChannelType::Private, response(Some(Operation::Error), Some("50110"), Some("blocked")), 0);
    assert_eq!(r.unwrap_err().message(), "Error: Error from server: blocked");
    let before = client.auth_status;
    let r = client.handle_received_message(&WebSocketChannelType::Public, response(Some(Operation::Error), Some("1"), Some("x")), 0);
    assert!(r.is_ok());
    assert_eq!(client.auth_status.failure_count, before.failure_count);
}

#[test]
fn received_messages_are_queued_in_order() {
    let (mut client, rx) = connected_client();
    for i in 0..3u64 {
        let mut m = response(Some(Operation::Subscribe), None, None);
        m.id = Some(i);
        let action = client.pump_event(&WebSocketChannelType::Public, PumpEvent::Frame(InboundFrame::Text(Ok(m))), 0);
        assert_eq!(action.unwrap(), PumpAction::Delivered);
    }
    let ids: Vec<Option<u64>> = rx.public_receiver.try_iter().map(|m| m.id).collect();
    assert_eq!(ids, vec![Some(0), Some(1), Some(2)]);
    assert_eq!(client.get_status().message_queue_state.public_queue_size, 0);
}

#[test]
fn ping_is_answered_with_pong_first() {
    let (mut client, rx) = connected_client();
    let action = client.pump_event(&WebSocketChannelType::Business, PumpEvent::Frame(InboundFrame::Ping), 0);
    assert_eq!(action.unwrap(), PumpAction::ReplyPong);
    assert!(rx.business_receiver.is_empty());
    let action = client.pump_event(&WebSocketChannelType::Business, PumpEvent::PongSent, 0);
    assert_eq!(action.unwrap(), PumpAction::Delivered);
    let m = rx.business_receiver.try_recv().unwrap();
    assert_eq!(m.event, Some(Operation::Pong));
    assert_eq!(m.code.as_deref(), Some("0"));
    assert_eq!(m.conn_id.as_deref(), Some("c1"));
    let action = client.pump_event(&WebSocketChannelType::Business, PumpEvent::Frame(InboundFrame::Pong), 0);
    assert_eq!(action.unwrap(), PumpAction::Delivered);
    assert_eq!(client.get_message_queue_state().business_queue_size, 1);
}

#[test]
fn timers_ask_for_ping_and_status() {
    let (mut client, _rx) = connected_client();
    assert_eq!(client.pump_event(&WebSocketChannelType::Public, PumpEvent::PingTick, 0).unwrap(), PumpAction::SendPing);
    assert_eq!(client.pump_event(&WebSocketChannelType::Public, PumpEvent::StatusTick, 0).unwrap(), PumpAction::ReportStatus);
    assert_eq!(ping_failure("broken pipe".to_string()).message(), "Error: Failed to send ping: broken pipe");
}

#[test]
fn pump_errors() {
    let (mut client, _rx) = connected_client();
    let kind = WebSocketChannelType::Public;
    let msg = |r: Result<PumpAction, Error>| r.unwrap_err().message();
    assert_eq!(msg(client.pump_event(&kind, PumpEvent::Frame(InboundFrame::Close), 0)), "WebSocket connection closed");
    assert_eq!(msg(client.pump_event(&kind, PumpEvent::Frame(InboundFrame::Ended), 0)), "WebSocket connection closed");
    assert_eq!(msg(client.pump_event(&kind, PumpEvent::Frame(InboundFrame::Unsupported), 0)), "Unsupported message type");
    assert_eq!(
        msg(client.pump_event(&kind, PumpEvent::Frame(InboundFrame::Text(Err("EOF while parsing".to_string()))), 0)),
        "Error: Failed to parse message: EOF while parsing"
    );
    assert_eq!(
        msg(client.pump_event(&kind, PumpEvent::Frame(InboundFrame::Failed("reset".to_string())), 0)),
        "Error: WebSocket error: reset"
    );
}

#[test]
fn pump_failure_marks_connection() {
    let (mut client, _rx) = connected_client();
    client.record_pump_failure(&WebSocketChannelType::Private, &Error::Other("WebSocket connection closed".to_string()));
    assert_eq!(
        client.connection_manager.private_connection.get_error_message().unwrap(),
        "Private channel error: WebSocket connection closed"
    );
    assert!(client.connection_manager.private_connection.transport.is_none());
    let health = client.get_status().connection_health;
    assert!(health.public_active && !health.private_active && health.business_active);
    assert!(!health.all_active());
}

#[test]
fn closed_queue_fails_the_pump() {
    let (mut client, rx) = connected_client();
    drop(rx);
    let r = client.pump_event(&WebSocketChannelType::Public, PumpEvent::Frame(InboundFrame::Pong), 0);
    assert_eq!(r.unwrap_err().message(), "sending on a closed channel");
}

#[test]
fn shutdown_resets_everything() {
    let (mut client, _rx) = connected_client();
    client.auth_status.mark_authenticated(5);
    client.shutdown();
    assert!(!client.get_status().connection_health.any_active());
    assert!(!client.auth_status.is_authenticated);
    assert_eq!(client.auth_status.last_attempt, None);
    let fresh = AuthenticationStatus::default();
    assert_eq!(client.auth_status.failure_count, fresh.failure_count);
}

#[test]
fn error_messages() {
    assert_eq!(Error::InvalidLength.message(), "Invalid Length");
    assert_eq!(Error::ConfigError("x".to_string()).message(), "Exchange not found in config: x");
    assert_eq!(Error::WsError("x".to_string()).message(), "WebSocket error: x");
    assert_eq!(Error::SerdeError("x".to_string()).message(), "x");
    assert_eq!(WsResponseMessage::error("1".to_string(), "m".to_string()).event, Some(Operation::Error));
}

#[test]
fn pump_failure_leaves_a_closed_connection_closed() {
    let (mut client, _rx) = connected_client();
    client.shutdown();
    client.record_pump_failure(&WebSocketChannelType::Public, &Error::Other("x".to_string()));
    assert!(matches!(client.connection_manager.public_connection.state, ConnectionState::Disconnected));
    assert_eq!(client.connection_id, "c1");
}

#[test]
fn failed_connect_leaves_other_connections() {
    let (mut client, _rx) = connected_client();
    client.begin_connect(&WebSocketChannelType::Private).unwrap();
    client.connect_failed(&WebSocketChannelType::Private, "refused".to_string());
    assert!(client.connection_manager.public_connection.is_connected());
    assert!(client.connection_manager.business_connection.is_connected());
    assert!(client.credentials.is_some());
    assert_eq!(quant_exchange::client::connection_kinds().len(), 3);
}

#[test]
fn each_kind_has_its_own_queue() {
    let (mut client, rx) = connected_client();
    let m = response(Some(Operation::Error), Some("1"), Some("x"));
    client.message_queue_manager.send_message(&WebSocketChannelType::Error, m).unwrap();
    client.handle_received_message(&WebSocketChannelType::Business, response(None, None, None), 0).unwrap();
    assert_eq!(rx.error_receiver.try_recv().unwrap().msg.as_deref(), Some("x"));
    assert!(rx.public_receiver.is_empty() && rx.private_receiver.is_empty());
    assert_eq!(rx.business_receiver.len(), 1);
    let refused = response(Some(Operation::Login), Some("60009"), Some("no"));
    assert!(client.handle_received_message(&WebSocketChannelType::Private, refused, 0).is_err());
    assert!(rx.private_receiver.is_empty());
}
