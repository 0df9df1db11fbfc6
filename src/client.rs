//! The client: what it decides when connecting, logging in, sending
//! requests, and handling each event of a connection's pump. The socket
//! reads and writes, the timers and the concurrency are the caller's: it
//! hands each outcome back and performs the action returned.

use crate::args::{LoginArgs, WsArg, WsPrivateArg};
use crate::auth::AuthenticationStatus;
use crate::config::{Credentials, Protocol};
use crate::connection::{
    ConnectionHealthCheck, ConnectionState, WebSocketConnection, WebSocketConnectionManager,
};
use crate::error::{is_other, is_other_error, other, Error};
use crate::json::decimal;
use crate::operation::{Operation, WebSocketChannelType};
use crate::queue::{
    handed_one, queue_outcome, MessageQueueManager, MessageQueueReceivers, MessageQueueState,
};
use crate::request::{arg_jsons, encode_request, request_refusal, request_text};
use crate::response::WsResponseMessage;
use crate::signer::{login_canonical, login_signature, signature_of};
use crate::text::str_eq;
use vstd::prelude::*;
use vstd::string::StringExecFns;

verus! {

pub type ConnId = String;

/// Milliseconds between two pings sent on a connection.
pub const PING_INTERVAL_MS: u64 = 30000;

/// Milliseconds to wait before reconnecting.
pub const RECONNECT_DELAY_MS: u64 = 5000;

/// Milliseconds allowed for connecting or sending.
pub const TIMEOUT_DURATION_MS: u64 = 5000;

/// Milliseconds between two status records of a pump.
pub const STATUS_INTERVAL_MS: u64 = 5000;

/// What a pump read from its connection.
#[derive(Debug)]
pub enum InboundFrame {
    /// A text frame, decoded as a response, or the reason it could not be.
    Text(Result<WsResponseMessage, String>),
    Ping,
    Pong,
    Close,
    /// A binary or other frame.
    Unsupported,
    /// The transport failed, for the reason given.
    Failed(String),
    /// The stream ended.
    Ended,
}

/// What happened to a pump.
#[derive(Debug)]
pub enum PumpEvent {
    Frame(InboundFrame),
    /// The pong answering an inbound ping was written.
    PongSent,
    /// The ping timer fired.
    PingTick,
    /// The status timer fired.
    StatusTick,
}

/// What the pump must do next.
#[derive(Clone, Copy, Debug, PartialEq, Eq, Structural)]
pub enum PumpAction {
    /// Nothing: the frame was handled and queued.
    Delivered,
    /// Write a pong with an empty payload, then report `PongSent`.
    ReplyPong,
    /// Write a ping with an empty payload.
    SendPing,
    /// Record the client's status.
    ReportStatus,
}

/// A snapshot of the client.
#[derive(Clone, Debug)]
pub struct ClientStatus {
    pub connection_id: ConnId,
    pub connection_health: ConnectionHealthCheck,
    pub auth_status: AuthenticationStatus,
    pub message_queue_state: MessageQueueState,
}

/// The name of a kind of channel in diagnostics.
pub open spec fn label(kind: WebSocketChannelType) -> Seq<char> {
    match kind {
        WebSocketChannelType::Public => "Public"@,
        WebSocketChannelType::Private => "Private"@,
        WebSocketChannelType::Business => "Business"@,
        WebSocketChannelType::Error => "Error"@,
    }
}

fn label_of(kind: &WebSocketChannelType) -> (r: &'static str)
    ensures
        r@ == label(*kind),
{
    match kind {
        WebSocketChannelType::Public => "Public",
        WebSocketChannelType::Private => "Private",
        WebSocketChannelType::Business => "Business",
        WebSocketChannelType::Error => "Error",
    }
}

/// The server's message, or `Unknown error` when it sent none.
pub open spec fn msg_or_unknown(msg: Option<String>) -> Seq<char> {
    match msg {
        Some(m) => m@,
        None => "Unknown error"@,
    }
}

fn message_or_unknown(msg: &Option<String>) -> (r: String)
    ensures
        r@ == msg_or_unknown(*msg),
{
    match msg {
        Some(m) => m.clone(),
        None => "Unknown error".to_owned(),
    }
}

/// What handling a decoded response `m` on `kind` at `now` does, to the
/// authentication status (`before` to `after`) and the outbound queues
/// (`qb` to `qa`). On the private connection an accepted login marks the
/// status authenticated and is queued; a refused login counts a failure and
/// ends the pump; a server error ends the pump; neither is queued. Anything
/// else leaves the status alone and is queued on the queue of `kind`. A
/// message is handed to its queue's channel whatever happens there, and the
/// handling fails then only when the application has dropped that queue.
pub open spec fn reception(
    kind: WebSocketChannelType,
    m: WsResponseMessage,
    now: u64,
    before: AuthenticationStatus,
    after: AuthenticationStatus,
    qb: MessageQueueManager,
    qa: MessageQueueManager,
    r: Result<(), Error>,
) -> bool {
    if kind == WebSocketChannelType::Private && is_login(m) {
        if code_is_zero(m) {
            after == before.after_success(now) && queue_outcome(qb, qa, kind, m, r)
        } else {
            after == before.after_failure(now) && qa == qb && (r matches Err(e) && is_other_error(
                e,
                "Authentication failed: "@ + msg_or_unknown(m.msg),
            ))
        }
    } else if kind == WebSocketChannelType::Private && m.event == Some(Operation::Error) {
        after == before && qa == qb && (r matches Err(e) && is_other_error(
            e,
            "Error from server: "@ + msg_or_unknown(m.msg),
        ))
    } else {
        after == before && queue_outcome(qb, qa, kind, m, r)
    }
}

/// Whether `m` is the envelope that stands for a control frame on the
/// connection `conn_id`: a pong event with code `0`, nothing else set.
pub open spec fn is_pong_envelope(m: WsResponseMessage, conn_id: String) -> bool {
    &&& m.event == Some(Operation::Pong)
    &&& m.code matches Some(c) && c@ == "0"@
    &&& m.conn_id == Some(conn_id)
    &&& m.id is None && m.arg is None && m.msg is None && m.event_type is None
    &&& m.cur_page is None && m.last_page is None && m.data is None
}

/// The pong envelope of `conn_id` was handed to the queue of `kind`, and
/// the frame counts as delivered unless the application had dropped that
/// queue.
pub open spec fn pong_outcome(
    qb: MessageQueueManager,
    qa: MessageQueueManager,
    kind: WebSocketChannelType,
    conn_id: String,
    r: Result<PumpAction, Error>,
) -> bool {
    &&& qa.handed(kind).len() > 0
    &&& is_pong_envelope(qa.handed(kind).last(), conn_id)
    &&& handed_one(qb, qa, kind, qa.handed(kind).last())
    &&& match r {
        Ok(a) => a == PumpAction::Delivered,
        Err(e) => is_other(e, "sending on a closed channel"@),
    }
}

/// The pump's result with the action forgotten.
pub open spec fn without_action(r: Result<PumpAction, Error>) -> Result<(), Error> {
    match r {
        Ok(_) => Ok(()),
        Err(e) => Err(e),
    }
}

/// Whether a response reports a login, and whether with code `0`.
pub open spec fn is_login(m: WsResponseMessage) -> bool {
    m.event == Some(Operation::Login)
}

pub open spec fn code_is_zero(m: WsResponseMessage) -> bool {
    m.code matches Some(c) && c@ == "0"@
}

/// The JSON object of the login argument.
pub open spec fn login_json(api_key: Seq<char>, passphrase: Seq<char>, timestamp: u64, sign: Seq<char>) -> Seq<char> {
    crate::json::json_object(
        seq![
            crate::args::text_member("channel"@, "login"@),
            crate::args::text_member("apiKey"@, api_key),
            crate::args::text_member("passphrase"@, passphrase),
            ("timestamp"@, decimal(timestamp as nat)),
            crate::args::text_member("sign"@, sign),
        ],
    )
}

/// The login frame for `credentials` signed at `timestamp` with `sign`.
pub open spec fn login_text(credentials: Credentials, timestamp: u64, sign: Seq<char>) -> Seq<char> {
    request_text(
        None,
        Operation::Login,
        seq![login_json(credentials.api_key@, credentials.passphrase@, timestamp, sign)],
    )
}

/// The login frame: a login request whose one argument carries the key, the
/// passphrase, the timestamp and the signature `sign`.
pub fn login_frame(credentials: &Credentials, timestamp: u64, sign: String) -> (r: String)
    ensures
        r@ == login_text(*credentials, timestamp, sign@),
{
    let login = WsArg::new_private(
        WsPrivateArg::Login(
            LoginArgs {
                api_key: credentials.api_key.clone(),
                passphrase: credentials.passphrase.clone(),
                timestamp,
                sign,
            },
        ),
    );
    let args = vec![login];
    let ghost a = args@;
    assert(!crate::request::has_business(a));
    assert(!crate::request::has_public(a));
    assert(arg_jsons(a) =~= seq![
        login_json(credentials.api_key@, credentials.passphrase@, timestamp, sign@),
    ]) by {
        assert(a[0].json() == login_json(
            credentials.api_key@,
            credentials.passphrase@,
            timestamp,
            sign@,
        ));
    }
    match encode_request(&Operation::Login, args.as_slice()) {
        Ok(text) => text,
        Err(_) => {
            assert(false);
            String::new()
        },
    }
}

/// A WebSocket client of the exchange, over connections whose transport is
/// `T`.
pub struct OkexWebSocketClient<T> {
    pub connection_id: ConnId,
    pub connection_manager: WebSocketConnectionManager<T>,
    pub message_queue_manager: MessageQueueManager,
    pub auth_status: AuthenticationStatus,
    pub credentials: Option<Credentials>,
}

impl<T> OkexWebSocketClient<T> {
    pub open spec fn wf(&self) -> bool {
        self.connection_manager.wf()
    }

    /// Whether the private connection must log in before sending on `kind`.
    pub open spec fn login_needed(&self, kind: WebSocketChannelType) -> bool {
        kind == WebSocketChannelType::Private && !self.auth_status.is_authenticated
    }

    /// A client with closed connections and new queues; the receiving ends
    /// of the queues are returned for the application.
    pub fn new(connection_id: ConnId) -> (r: (Self, MessageQueueReceivers))
        ensures
            r.0.wf(),
            r.0.connection_id == connection_id,
            r.0.connection_manager.public_connection.state is Disconnected,
            r.0.connection_manager.private_connection.state is Disconnected,
            r.0.connection_manager.business_connection.state is Disconnected,
            r.0.auth_status == AuthenticationStatus::initial(),
            r.0.credentials is None,
    {
        let (message_queue_manager, receivers) = MessageQueueManager::new();
        let client = OkexWebSocketClient {
            connection_id,
            connection_manager: WebSocketConnectionManager::new(),
            message_queue_manager,
            auth_status: AuthenticationStatus::default(),
            credentials: None,
        };
        (client, receivers)
    }

    /// Uses `credentials` from now on.
    pub fn set_credentials(&mut self, credentials: Credentials)
        ensures
            final(self).credentials == Some(credentials),
            final(self).connection_manager == old(self).connection_manager,
            final(self).auth_status == old(self).auth_status,
            final(self).connection_id == old(self).connection_id,
    {
        self.credentials = Some(credentials);
    }

    /// The URL of a kind of connection: the first WebSocket URL of the
    /// credentials followed by the kind's path. The credentials must be
    /// loaded, use WSS, and list a WebSocket URL.
    pub fn get_websocket_url(&self, channel_type: &WebSocketChannelType) -> (r: Result<String, Error>)
        ensures
            match self.credentials {
                None => r matches Err(e) && is_other(e, "Credentials not loaded"@),
                Some(c) => if c.protocol != Some(Protocol::WSS) {
                    r matches Err(e) && is_other(e, "Protocol is not WSS"@)
                } else if c.ws_urls@.len() == 0 {
                    r matches Err(e) && is_other(e, "No WebSocket URL found in credentials"@)
                } else {
                    r matches Ok(u) && u@ == c.ws_urls@[0]@ + channel_type.suffix()
                },
            },
    {
        let credentials = match &self.credentials {
            Some(c) => c,
            None => return Err(other("Credentials not loaded")),
        };
        match credentials.protocol {
            Some(Protocol::WSS) => {},
            _ => return Err(other("Protocol is not WSS")),
        }
        if credentials.ws_urls.len() == 0 {
            return Err(other("No WebSocket URL found in credentials"));
        }
        let base = credentials.ws_urls[0].clone();
        Ok(base.concat(channel_type.as_str()))
    }

    /// Starts opening a connection and returns the URL to connect to. The
    /// `Error` kind has no connection.
    pub fn begin_connect(&mut self, channel_type: &WebSocketChannelType) -> (r: Result<String, Error>)
        requires
            old(self).wf(),
        ensures
            final(self).wf(),
            *channel_type == WebSocketChannelType::Error ==> (r matches Err(Error::ConfigError(m))
                && m@ == "Error channel is not supported"@) && *final(self) == *old(self),
            *channel_type != WebSocketChannelType::Error ==> (match old(self).get_websocket_url_spec(
                *channel_type,
            ) {
                Some(u) => r matches Ok(url) && url@ == u && final(self).connection_manager.connection(
                    *channel_type,
                )->Some_0.state is Connecting,
                None => r is Err && *final(self) == *old(self),
            }),
            final(self).auth_status == old(self).auth_status,
            final(self).connection_manager.same_except(&old(self).connection_manager, *channel_type),
            final(self).credentials == old(self).credentials,
            final(self).connection_id == old(self).connection_id,
            final(self).message_queue_manager == old(self).message_queue_manager,
    {
        if *channel_type == WebSocketChannelType::Error {
            return Err(Error::ConfigError("Error channel is not supported".to_owned()));
        }
        let url = match self.get_websocket_url(channel_type) {
            Ok(u) => u,
            Err(e) => return Err(e),
        };
        match self.connection_manager.get_connection_mut(channel_type) {
            Ok(connection) => connection.begin_connect(),
            Err(e) => return Err(e),
        }
        Ok(url)
    }

    /// The URL `get_websocket_url` gives, when it gives one.
    pub open spec fn get_websocket_url_spec(&self, kind: WebSocketChannelType) -> Option<Seq<char>> {
        match self.credentials {
            Some(c) => if c.protocol == Some(Protocol::WSS) && c.ws_urls@.len() > 0 {
                Some(c.ws_urls@[0]@ + kind.suffix())
            } else {
                None
            },
            None => None,
        }
    }

    /// The connection opened: it holds `transport`, and its reconnect count
    /// starts over.
    pub fn connect_succeeded(&mut self, channel_type: &WebSocketChannelType, transport: T, now: u64)
        requires
            old(self).wf(),
            *channel_type != WebSocketChannelType::Error,
            old(self).connection_manager.connection(*channel_type)->Some_0.state is Connecting,
        ensures
            final(self).wf(),
            final(self).connection_manager.connection(*channel_type)->Some_0.state is Connected,
            final(self).connection_manager.connection(*channel_type)->Some_0.transport == Some(
                transport,
            ),
            final(self).connection_manager.connection(*channel_type)->Some_0.reconnect_count == 0,
            final(self).auth_status == old(self).auth_status,
            final(self).connection_manager.same_except(&old(self).connection_manager, *channel_type),
            final(self).credentials == old(self).credentials,
            final(self).connection_id == old(self).connection_id,
            final(self).message_queue_manager == old(self).message_queue_manager,
    {
        match self.connection_manager.get_connection_mut(channel_type) {
            Ok(connection) => {
                connection.set_connection(transport, now);
                connection.reset_reconnect_count();
            },
            Err(_) => {},
        }
    }

    /// Opening the connection failed for `cause`: the connection records
    /// the failure, and the transport error is returned.
    pub fn connect_failed(&mut self, channel_type: &WebSocketChannelType, cause: String) -> (r: Error)
        requires
            old(self).wf(),
            *channel_type != WebSocketChannelType::Error,
            old(self).connection_manager.connection(*channel_type)->Some_0.state is Connecting,
        ensures
            final(self).wf(),
            final(self).connection_manager.connection(*channel_type)->Some_0.state
                matches crate::connection::ConnectionState::Error(m) && m@ == "Failed to connect to "@
                + channel_type.suffix() + ": "@ + cause@,
            crate::connection::listed_transition(
                old(self).connection_manager.connection(*channel_type)->Some_0.state,
                final(self).connection_manager.connection(*channel_type)->Some_0.state,
            ),
            r == Error::WsError(cause),
            final(self).auth_status == old(self).auth_status,
            final(self).connection_manager.same_except(&old(self).connection_manager, *channel_type),
            final(self).credentials == old(self).credentials,
            final(self).connection_id == old(self).connection_id,
            final(self).message_queue_manager == old(self).message_queue_manager,
    {
        let text = "Failed to connect to ".to_owned().concat(channel_type.as_str()).concat(
            ": ",
        ).concat(cause.as_str());
        match self.connection_manager.get_connection_mut(channel_type) {
            Ok(connection) => connection.set_error(text),
            Err(_) => {},
        }
        Error::WsError(cause)
    }

    /// The login frame to send on the private connection at `timestamp`
    /// (whole seconds since the epoch), when the clock reads `now`.
    ///
    /// Nothing is sent (`None`) once authenticated. A login within the least
    /// gap after the last one is refused, as are missing credentials, an
    /// empty secret and a private connection that is not open.
    pub fn prepare_login(&self, timestamp: u64, now: u64) -> (r: Result<Option<String>, Error>)
        ensures
            self.auth_status.is_authenticated ==> r == Ok::<Option<String>, Error>(None),
            !self.auth_status.is_authenticated && !self.auth_status.may_attempt(now) ==> (r matches Err(
                e,
            ) && is_other(e, "Too many authentication attempts, please wait"@)),
            !self.auth_status.is_authenticated && self.auth_status.may_attempt(now) ==> (match self.credentials {
                None => r matches Err(e) && is_other(e, "Credentials not loaded"@),
                Some(c) => if c.secret_key@.len() == 0 {
                    r matches Err(Error::InvalidLength)
                } else if self.connection_manager.private_connection.transport is None {
                    r matches Err(e) && is_other(e, "Private connection not available"@)
                } else {
                    r matches Ok(Some(f)) && f@ == login_text(
                        c,
                        timestamp,
                        signature_of(c.secret_key@, login_canonical(timestamp)),
                    )
                },
            }),
    {
        if self.auth_status.is_authenticated {
            return Ok(None);
        }
        if !self.auth_status.can_attempt_auth(now) {
            return Err(other("Too many authentication attempts, please wait"));
        }
        let credentials = match &self.credentials {
            Some(c) => c,
            None => return Err(other("Credentials not loaded")),
        };
        let sign = match login_signature(timestamp, credentials.secret_key.as_str()) {
            Ok(s) => s,
            Err(e) => return Err(e),
        };
        let frame = login_frame(credentials, timestamp, sign);
        match &self.connection_manager.private_connection.transport {
            Some(_) => Ok(Some(frame)),
            None => Err(other("Private connection not available")),
        }
    }

    /// The login frame was sent at `now`.
    pub fn login_sent(&mut self, now: u64)
        ensures
            final(self).auth_status.last_attempt == Some(now),
            final(self).auth_status.is_authenticated == old(self).auth_status.is_authenticated,
            final(self).auth_status.failure_count == old(self).auth_status.failure_count,
            final(self).connection_manager == old(self).connection_manager,
            final(self).credentials == old(self).credentials,
    {
        self.auth_status.record_attempt(now);
    }

    /// Whether a request on `kind` must wait for a login first.
    pub fn needs_authentication(&self, channel_type: &WebSocketChannelType) -> (r: bool)
        ensures
            r == self.login_needed(*channel_type),
    {
        *channel_type == WebSocketChannelType::Private && !self.auth_status.is_authenticated
    }

    /// The frame of an operation over `args` on `kind`; refused as the
    /// encoder refuses, and when the connection is not open.
    pub fn operation_frame(
        &self,
        operation: &Operation,
        args: &[WsArg],
        channel_type: &WebSocketChannelType,
    ) -> (r: Result<String, Error>)
        ensures
            match request_refusal(*operation, args@) {
                Some(msg) => r matches Err(e) && is_other(e, msg),
                None => match self.connection_manager.connection(*channel_type) {
                    None => r matches Err(e) && is_other(e, "Error channel is not supported"@),
                    Some(c) => if c.transport is None {
                        r matches Err(e) && is_other_error(
                            e,
                            channel_type.suffix() + " connection not available"@,
                        )
                    } else {
                        r matches Ok(t) && t@ == request_text(None, *operation, arg_jsons(args@))
                    },
                },
            },
    {
        let text = match encode_request(operation, args) {
            Ok(t) => t,
            Err(e) => return Err(e),
        };
        let connection = match self.connection_manager.get_connection(channel_type) {
            Ok(c) => c,
            Err(e) => return Err(e),
        };
        match &connection.transport {
            Some(_) => Ok(text),
            None => Err(
                Error::OtherError(channel_type.as_str().to_owned().concat(" connection not available")),
            ),
        }
    }

    /// The transport a pump runs on, if the connection is open.
    pub fn pump_transport(&self, channel_type: &WebSocketChannelType) -> (r: Result<&T, Error>)
        ensures
            match self.connection_manager.connection(*channel_type) {
                None => r matches Err(e) && is_other(e, "Error channel is not supported"@),
                Some(c) => match c.transport {
                    None => r matches Err(e) && is_other_error(
                        e,
                        channel_type.suffix() + " connection not available"@,
                    ),
                    Some(t) => r == Ok::<&T, Error>(&t),
                },
            },
    {
        let connection = match self.connection_manager.get_connection(channel_type) {
            Ok(c) => c,
            Err(e) => return Err(e),
        };
        match &connection.transport {
            Some(t) => Ok(t),
            None => Err(
                Error::OtherError(channel_type.as_str().to_owned().concat(" connection not available")),
            ),
        }
    }

    /// Handles a decoded response on `kind` at `now`: on the private
    /// connection a login response updates the authentication status, and
    /// a refused login or a server error ends the pump. Anything else is
    /// queued for the application.
    pub fn handle_received_message(
        &mut self,
        channel_type: &WebSocketChannelType,
        message: WsResponseMessage,
        now: u64,
    ) -> (r: Result<(), Error>)
        ensures
            final(self).connection_manager == old(self).connection_manager,
            final(self).credentials == old(self).credentials,
            final(self).connection_id == old(self).connection_id,
            reception(
                *channel_type,
                message,
                now,
                old(self).auth_status,
                final(self).auth_status,
                old(self).message_queue_manager,
                final(self).message_queue_manager,
                r,
            ),
    {
        if *channel_type == WebSocketChannelType::Private {
            if message.event == Some(Operation::Login) {
                let accepted = match &message.code {
                    Some(c) => str_eq(c.as_str(), "0"),
                    None => false,
                };
                if accepted {
                    self.auth_status.mark_authenticated(now);
                } else {
                    self.auth_status.mark_failed(now);
                    let m = message_or_unknown(&message.msg);
                    return Err(Error::OtherError("Authentication failed: ".to_owned().concat(m.as_str())));
                }
            } else if message.event == Some(Operation::Error) {
                let m = message_or_unknown(&message.msg);
                return Err(Error::OtherError("Error from server: ".to_owned().concat(m.as_str())));
            }
        }
        self.message_queue_manager.send_message(channel_type, message)
    }

    /// Handles one event of the pump of `kind` at `now`, and says what the
    /// pump must do next. An error ends the pump.
    pub fn pump_event(&mut self, channel_type: &WebSocketChannelType, event: PumpEvent, now: u64) -> (r:
        Result<PumpAction, Error>)
        ensures
            final(self).connection_manager == old(self).connection_manager,
            final(self).credentials == old(self).credentials,
            final(self).connection_id == old(self).connection_id,
            match event {
                PumpEvent::PingTick => r == Ok::<PumpAction, Error>(PumpAction::SendPing)
                    && final(self).auth_status == old(self).auth_status
                    && final(self).message_queue_manager == old(self).message_queue_manager,
                PumpEvent::StatusTick => r == Ok::<PumpAction, Error>(PumpAction::ReportStatus)
                    && final(self).auth_status == old(self).auth_status
                    && final(self).message_queue_manager == old(self).message_queue_manager,
                PumpEvent::PongSent => final(self).auth_status == old(self).auth_status
                    && pong_outcome(
                    old(self).message_queue_manager,
                    final(self).message_queue_manager,
                    *channel_type,
                    old(self).connection_id,
                    r,
                ),
                PumpEvent::Frame(f) => match f {
                    InboundFrame::Ping => r == Ok::<PumpAction, Error>(PumpAction::ReplyPong)
                        && final(self).auth_status == old(self).auth_status
                        && final(self).message_queue_manager == old(self).message_queue_manager,
                    InboundFrame::Pong => final(self).auth_status == old(self).auth_status
                        && pong_outcome(
                        old(self).message_queue_manager,
                        final(self).message_queue_manager,
                        *channel_type,
                        old(self).connection_id,
                        r,
                    ),
                    InboundFrame::Text(Err(reason)) => final(self).auth_status == old(self).auth_status && (r matches Err(e) && is_other_error(
                        e,
                        "Failed to parse message: "@ + reason@,
                    )) && final(self).message_queue_manager == old(self).message_queue_manager,
                    InboundFrame::Text(Ok(m)) => (r is Ok ==> r == Ok::<PumpAction, Error>(
                        PumpAction::Delivered,
                    )) && reception(
                        *channel_type,
                        m,
                        now,
                        old(self).auth_status,
                        final(self).auth_status,
                        old(self).message_queue_manager,
                        final(self).message_queue_manager,
                        without_action(r),
                    ),
                    InboundFrame::Close => final(self).auth_status == old(self).auth_status && (r matches Err(
                        e,
                    ) && is_other(e, "WebSocket connection closed"@)) && final(self).message_queue_manager == old(self).message_queue_manager,
                    InboundFrame::Ended => final(self).auth_status == old(self).auth_status && (r matches Err(
                        e,
                    ) && is_other(e, "WebSocket connection closed"@)) && final(self).message_queue_manager == old(self).message_queue_manager,
                    InboundFrame::Unsupported => final(self).auth_status == old(self).auth_status && (
                    r matches Err(e) && is_other(e, "Unsupported message type"@)) && final(self).message_queue_manager == old(self).message_queue_manager,
                    InboundFrame::Failed(reason) => final(self).auth_status == old(self).auth_status
                        && (r matches Err(e) && is_other_error(e, "WebSocket error: "@ + reason@)) && final(self).message_queue_manager == old(self).message_queue_manager,
                },
            },
    {
        match event {
            PumpEvent::PingTick => Ok(PumpAction::SendPing),
            PumpEvent::StatusTick => Ok(PumpAction::ReportStatus),
            PumpEvent::PongSent => {
                let m = WsResponseMessage::pong(self.connection_id.clone());
                match self.handle_received_message(channel_type, m, now) {
                    Ok(()) => Ok(PumpAction::Delivered),
                    Err(e) => Err(e),
                }
            },
            PumpEvent::Frame(frame) => match frame {
                InboundFrame::Ping => Ok(PumpAction::ReplyPong),
                InboundFrame::Pong => {
                    let m = WsResponseMessage::pong(self.connection_id.clone());
                    match self.handle_received_message(channel_type, m, now) {
                        Ok(()) => Ok(PumpAction::Delivered),
                        Err(e) => Err(e),
                    }
                },
                InboundFrame::Text(Ok(m)) => match self.handle_received_message(channel_type, m, now) {
                    Ok(()) => Ok(PumpAction::Delivered),
                    Err(e) => Err(e),
                },
                InboundFrame::Text(Err(reason)) => Err(
                    Error::OtherError("Failed to parse message: ".to_owned().concat(reason.as_str())),
                ),
                InboundFrame::Close | InboundFrame::Ended => Err(other("WebSocket connection closed")),
                InboundFrame::Unsupported => Err(other("Unsupported message type")),
                InboundFrame::Failed(reason) => Err(
                    Error::OtherError("WebSocket error: ".to_owned().concat(reason.as_str())),
                ),
            },
        }
    }

    /// The pump of `kind` ended with `error`: its connection records it,
    /// unless the connection was closed (by `shutdown`), which stays closed.
    pub fn record_pump_failure(&mut self, channel_type: &WebSocketChannelType, error: &Error)
        requires
            old(self).wf(),
            *channel_type != WebSocketChannelType::Error,
        ensures
            final(self).wf(),
            old(self).connection_manager.connection(*channel_type)->Some_0.state is Disconnected
                ==> final(self).connection_manager == old(self).connection_manager,
            !(old(self).connection_manager.connection(*channel_type)->Some_0.state is Disconnected)
                ==> (final(self).connection_manager.connection(*channel_type)->Some_0.state
                matches crate::connection::ConnectionState::Error(m) && m@ == label(*channel_type)
                + " channel error: "@ + error.text()),
            final(self).auth_status == old(self).auth_status,
            final(self).connection_manager.same_except(&old(self).connection_manager, *channel_type),
            final(self).credentials == old(self).credentials,
            final(self).connection_id == old(self).connection_id,
            final(self).message_queue_manager == old(self).message_queue_manager,
    {
        let text = label_of(channel_type).to_owned().concat(" channel error: ").concat(
            error.message().as_str(),
        );
        match self.connection_manager.get_connection_mut(channel_type) {
            Ok(connection) => {
                if !matches!(connection.state, ConnectionState::Disconnected) {
                    connection.set_error(text);
                }
            },
            Err(_) => {},
        }
    }

    /// The number of messages waiting in each outbound queue.
    pub fn get_message_queue_state(&self) -> MessageQueueState {
        self.message_queue_manager.queue_sizes()
    }

    /// A snapshot of the connections, the authentication and the queues.
    pub fn get_status(&self) -> (r: ClientStatus)
        ensures
            r.connection_id == self.connection_id,
            r.connection_health.public_active == self.connection_manager.public_connection.connected(),
            r.connection_health.private_active
                == self.connection_manager.private_connection.connected(),
            r.connection_health.business_active
                == self.connection_manager.business_connection.connected(),
            r.auth_status == self.auth_status,
    {
        ClientStatus {
            connection_id: self.connection_id.clone(),
            connection_health: self.connection_manager.health_check(),
            auth_status: self.auth_status,
            message_queue_state: self.get_message_queue_state(),
        }
    }

    /// Closes every connection and forgets the authentication.
    pub fn shutdown(&mut self)
        ensures
            final(self).wf(),
            final(self).connection_manager.public_connection.state is Disconnected,
            final(self).connection_manager.private_connection.state is Disconnected,
            final(self).connection_manager.business_connection.state is Disconnected,
            final(self).connection_manager.public_connection.transport is None,
            final(self).connection_manager.private_connection.transport is None,
            final(self).connection_manager.business_connection.transport is None,
            final(self).auth_status == AuthenticationStatus::initial(),
            final(self).credentials == old(self).credentials,
            final(self).connection_id == old(self).connection_id,
            final(self).message_queue_manager == old(self).message_queue_manager,
    {
        self.connection_manager.disconnect_all();
        self.auth_status.reset();
    }
}

/// The connections a client opens, in the order it opens them; opening
/// stops at the first that fails.
pub fn connection_kinds() -> (r: Vec<WebSocketChannelType>)
    ensures
        r@ == seq![
            WebSocketChannelType::Public,
            WebSocketChannelType::Private,
            WebSocketChannelType::Business,
        ],
{
    vec![WebSocketChannelType::Public, WebSocketChannelType::Private, WebSocketChannelType::Business]
}

/// The error that ends a pump whose ping could not be written.
pub fn ping_failure(cause: String) -> (r: Error)
    ensures
        is_other_error(r, "Failed to send ping: "@ + cause@),
{
    Error::OtherError("Failed to send ping: ".to_owned().concat(cause.as_str()))
}

} // verus!
