//! One WebSocket connection's state machine, and the manager that holds the
//! public, private and business connections.
//!
//! The transport (the sink and stream halves of the socket) is a type
//! parameter: the library keeps it, and decides when it is held and when it
//! is dropped, but never touches it.

use crate::error::{other, is_other, Error};
use crate::operation::WebSocketChannelType;
use vstd::prelude::*;

verus! {

/// Reconnect attempts per connection before giving up.
pub const RETRY_COUNT: usize = 3;

/// The state of a connection.
#[derive(Clone, Debug)]
pub enum ConnectionState {
    Disconnected,
    Connecting,
    Connected,
    Authenticating,
    Authenticated,
    Error(String),
}

/// Whether a connection in state `s` holds its transport.
pub open spec fn holds_transport(s: ConnectionState) -> bool {
    s is Connected || s is Authenticating || s is Authenticated
}

/// The transitions of the state diagram: open, connect or fail, log in and
/// its outcome, close from anywhere, and transport failure of a live
/// connection.
pub open spec fn listed_transition(a: ConnectionState, b: ConnectionState) -> bool {
    ||| b is Disconnected
    ||| (a is Disconnected || a is Error) && b is Connecting
    ||| a is Connecting && (b is Connected || b is Error)
    ||| a is Connected && b is Authenticating
    ||| a is Authenticating && (b is Authenticated || b is Connected || b is Error)
    ||| (a is Connected || a is Authenticated) && b is Error
}

/// A state change that the diagram allows: a listed transition, or none.
pub open spec fn allowed_change(a: ConnectionState, b: ConnectionState) -> bool {
    a == b || listed_transition(a, b)
}

/// One WebSocket connection.
#[derive(Clone, Debug)]
pub struct WebSocketConnection<T> {
    /// The sink and stream halves, held while the connection is live.
    pub transport: Option<T>,
    pub state: ConnectionState,
    /// When the connection was last known alive, in milliseconds.
    pub last_ping: Option<u64>,
    pub reconnect_count: usize,
}

impl<T> WebSocketConnection<T> {
    /// The transport is held exactly while the connection is live.
    pub open spec fn wf(&self) -> bool {
        self.transport.is_some() == holds_transport(self.state)
    }

    pub open spec fn connected(&self) -> bool {
        self.state is Connected || self.state is Authenticated
    }

    pub fn new() -> (r: Self)
        ensures
            r.wf(),
            r.state is Disconnected,
            r.transport is None,
            r.last_ping is None,
            r.reconnect_count == 0,
    {
        WebSocketConnection {
            transport: None,
            state: ConnectionState::Disconnected,
            last_ping: None,
            reconnect_count: 0,
        }
    }

    pub fn is_connected(&self) -> (r: bool)
        ensures
            r == self.connected(),
    {
        match self.state {
            ConnectionState::Connected | ConnectionState::Authenticated => true,
            _ => false,
        }
    }

    pub fn is_authenticated(&self) -> (r: bool)
        ensures
            r == (self.state is Authenticated),
    {
        match self.state {
            ConnectionState::Authenticated => true,
            _ => false,
        }
    }

    /// Starts opening the connection. A connection that is not closed or
    /// failed is closed first (`disconnect`), and its transport dropped, so
    /// the change goes through the closed state.
    pub fn begin_connect(&mut self)
        requires
            old(self).wf(),
        ensures
            final(self).wf(),
            final(self).state is Connecting,
            final(self).transport is None,
            final(self).reconnect_count == old(self).reconnect_count,
            old(self).state is Disconnected || old(self).state is Error ==> final(self).last_ping
                == old(self).last_ping,
            old(self).state is Disconnected || old(self).state is Error ==> listed_transition(
                old(self).state,
                final(self).state,
            ),
    {
        match self.state {
            ConnectionState::Disconnected | ConnectionState::Error(_) => {},
            _ => self.disconnect(),
        }
        self.transport = None;
        self.state = ConnectionState::Connecting;
    }

    /// The connection is open: it holds `transport` from now on.
    pub fn set_connection(&mut self, transport: T, now: u64)
        requires
            old(self).state is Connecting,
        ensures
            final(self).wf(),
            final(self).state is Connected,
            final(self).transport == Some(transport),
            final(self).last_ping == Some(now),
            final(self).reconnect_count == old(self).reconnect_count,
            listed_transition(old(self).state, final(self).state),
    {
        self.transport = Some(transport);
        self.state = ConnectionState::Connected;
        self.last_ping = Some(now);
    }

    /// A login was sent on a connected connection.
    pub fn begin_authentication(&mut self)
        requires
            old(self).wf(),
        ensures
            final(self).wf(),
            old(self).state is Connected ==> final(self).state is Authenticating,
            !(old(self).state is Connected) ==> final(self).state == old(self).state,
            final(self).transport == old(self).transport,
            final(self).last_ping == old(self).last_ping,
            final(self).reconnect_count == old(self).reconnect_count,
            allowed_change(old(self).state, final(self).state),
    {
        if let ConnectionState::Connected = self.state {
            self.state = ConnectionState::Authenticating;
        }
    }

    /// The login was refused: the connection stays open, unauthenticated.
    pub fn authentication_refused(&mut self)
        requires
            old(self).wf(),
        ensures
            final(self).wf(),
            old(self).state is Authenticating ==> final(self).state is Connected,
            !(old(self).state is Authenticating) ==> final(self).state == old(self).state,
            final(self).transport == old(self).transport,
            final(self).last_ping == old(self).last_ping,
            final(self).reconnect_count == old(self).reconnect_count,
            allowed_change(old(self).state, final(self).state),
    {
        if let ConnectionState::Authenticating = self.state {
            self.state = ConnectionState::Connected;
        }
    }

    /// The login was accepted.
    pub fn set_authenticated(&mut self)
        requires
            old(self).wf(),
        ensures
            final(self).wf(),
            old(self).state is Authenticating ==> final(self).state is Authenticated,
            !(old(self).state is Authenticating) ==> final(self).state == old(self).state,
            final(self).transport == old(self).transport,
            final(self).last_ping == old(self).last_ping,
            final(self).reconnect_count == old(self).reconnect_count,
            allowed_change(old(self).state, final(self).state),
    {
        if let ConnectionState::Authenticating = self.state {
            self.state = ConnectionState::Authenticated;
        }
    }

    /// Closes the connection and drops its transport.
    pub fn disconnect(&mut self)
        ensures
            final(self).wf(),
            final(self).state is Disconnected,
            final(self).transport is None,
            final(self).last_ping is None,
            final(self).reconnect_count == old(self).reconnect_count,
            listed_transition(old(self).state, final(self).state),
    {
        self.transport = None;
        self.state = ConnectionState::Disconnected;
        self.last_ping = None;
    }

    /// The connection failed with `error`: the transport is dropped and the
    /// reconnect count starts over. This is a listed transition from every
    /// state but a closed or already failed one.
    pub fn set_error(&mut self, error: String)
        ensures
            final(self).wf(),
            final(self).state == ConnectionState::Error(error),
            final(self).transport is None,
            final(self).last_ping is None,
            final(self).reconnect_count == 0,
            !(old(self).state is Disconnected || old(self).state is Error) ==> listed_transition(
                old(self).state,
                final(self).state,
            ),
    {
        self.state = ConnectionState::Error(error);
        self.transport = None;
        self.last_ping = None;
        self.reconnect_count = 0;
    }

    pub fn get_error_message(&self) -> (r: Option<&String>)
        ensures
            match self.state {
                ConnectionState::Error(m) => r == Some(&m),
                _ => r is None,
            },
    {
        match &self.state {
            ConnectionState::Error(m) => Some(m),
            _ => None,
        }
    }

    pub fn should_reconnect(&self) -> (r: bool)
        ensures
            r == ((self.state is Error || self.state is Disconnected) && self.reconnect_count
                < RETRY_COUNT),
    {
        match self.state {
            ConnectionState::Error(_) | ConnectionState::Disconnected => self.reconnect_count
                < RETRY_COUNT,
            _ => false,
        }
    }

    /// Counts one more reconnect attempt; the count stops at the largest
    /// `usize`.
    pub fn increment_reconnect_count(&mut self)
        ensures
            final(self).reconnect_count == (if old(self).reconnect_count < usize::MAX {
                old(self).reconnect_count + 1
            } else {
                old(self).reconnect_count as int
            }),
            final(self).state == old(self).state,
            final(self).transport == old(self).transport,
            final(self).last_ping == old(self).last_ping,
    {
        if self.reconnect_count < usize::MAX {
            self.reconnect_count = self.reconnect_count + 1;
        }
    }

    pub fn reset_reconnect_count(&mut self)
        ensures
            final(self).reconnect_count == 0,
            final(self).state == old(self).state,
            final(self).transport == old(self).transport,
            final(self).last_ping == old(self).last_ping,
    {
        self.reconnect_count = 0;
    }
}

/// Whether each connection is live.
#[derive(Clone, Copy, Debug)]
pub struct ConnectionHealthCheck {
    pub public_active: bool,
    pub private_active: bool,
    pub business_active: bool,
}

impl ConnectionHealthCheck {
    pub fn all_active(&self) -> (r: bool)
        ensures
            r == (self.public_active && self.private_active && self.business_active),
    {
        self.public_active && self.private_active && self.business_active
    }

    pub fn any_active(&self) -> (r: bool)
        ensures
            r == (self.public_active || self.private_active || self.business_active),
    {
        self.public_active || self.private_active || self.business_active
    }
}

/// The three connections of a client.
#[derive(Clone, Debug)]
pub struct WebSocketConnectionManager<T> {
    pub public_connection: WebSocketConnection<T>,
    pub private_connection: WebSocketConnection<T>,
    pub business_connection: WebSocketConnection<T>,
}

impl<T> WebSocketConnectionManager<T> {
    pub open spec fn wf(&self) -> bool {
        self.public_connection.wf() && self.private_connection.wf()
            && self.business_connection.wf()
    }

    /// The connection of a kind; `Error` has none.
    pub open spec fn connection(&self, kind: WebSocketChannelType) -> Option<
        WebSocketConnection<T>,
    > {
        match kind {
            WebSocketChannelType::Public => Some(self.public_connection),
            WebSocketChannelType::Private => Some(self.private_connection),
            WebSocketChannelType::Business => Some(self.business_connection),
            WebSocketChannelType::Error => None,
        }
    }

    /// Every connection but the one of `kind` is as in `other`.
    pub open spec fn same_except(&self, other: &Self, kind: WebSocketChannelType) -> bool {
        forall|k: WebSocketChannelType|
            k != kind ==> #[trigger] self.connection(k) == other.connection(k)
    }

    pub fn new() -> (r: Self)
        ensures
            r.wf(),
            r.public_connection.state is Disconnected,
            r.private_connection.state is Disconnected,
            r.business_connection.state is Disconnected,
    {
        WebSocketConnectionManager {
            public_connection: WebSocketConnection::new(),
            private_connection: WebSocketConnection::new(),
            business_connection: WebSocketConnection::new(),
        }
    }

    pub fn get_connection(&self, channel_type: &WebSocketChannelType) -> (r: Result<
        &WebSocketConnection<T>,
        Error,
    >)
        ensures
            match self.connection(*channel_type) {
                Some(c) => r == Ok::<&WebSocketConnection<T>, Error>(&c),
                None => r matches Err(e) && is_other(e, "Error channel is not supported"@),
            },
    {
        match channel_type {
            WebSocketChannelType::Public => Ok(&self.public_connection),
            WebSocketChannelType::Private => Ok(&self.private_connection),
            WebSocketChannelType::Business => Ok(&self.business_connection),
            WebSocketChannelType::Error => Err(other("Error channel is not supported")),
        }
    }

    pub fn get_connection_mut(&mut self, channel_type: &WebSocketChannelType) -> (r: Result<
        &mut WebSocketConnection<T>,
        Error,
    >)
        ensures
            match *channel_type {
                WebSocketChannelType::Public => r is Ok && *r->Ok_0 == old(self).public_connection
                    && *final(self) == (WebSocketConnectionManager {
                    public_connection: *final(r->Ok_0),
                    ..*old(self)
                }),
                WebSocketChannelType::Private => r is Ok && *r->Ok_0 == old(self).private_connection
                    && *final(self) == (WebSocketConnectionManager {
                    private_connection: *final(r->Ok_0),
                    ..*old(self)
                }),
                WebSocketChannelType::Business => r is Ok && *r->Ok_0
                    == old(self).business_connection && *final(self) == (
                WebSocketConnectionManager { business_connection: *final(r->Ok_0), ..*old(self) }),
                WebSocketChannelType::Error => r matches Err(e) && is_other(
                    e,
                    "Error channel is not supported"@,
                ) && *final(self) == *old(self),
            },
    {
        match channel_type {
            WebSocketChannelType::Public => Ok(&mut self.public_connection),
            WebSocketChannelType::Private => Ok(&mut self.private_connection),
            WebSocketChannelType::Business => Ok(&mut self.business_connection),
            WebSocketChannelType::Error => Err(other("Error channel is not supported")),
        }
    }

    pub fn health_check(&self) -> (r: ConnectionHealthCheck)
        ensures
            r.public_active == self.public_connection.connected(),
            r.private_active == self.private_connection.connected(),
            r.business_active == self.business_connection.connected(),
    {
        ConnectionHealthCheck {
            public_active: self.public_connection.is_connected(),
            private_active: self.private_connection.is_connected(),
            business_active: self.business_connection.is_connected(),
        }
    }

    pub fn disconnect_all(&mut self)
        ensures
            final(self).wf(),
            final(self).public_connection.state is Disconnected,
            final(self).private_connection.state is Disconnected,
            final(self).business_connection.state is Disconnected,
            final(self).public_connection.transport is None,
            final(self).private_connection.transport is None,
            final(self).business_connection.transport is None,
    {
        self.public_connection.disconnect();
        self.private_connection.disconnect();
        self.business_connection.disconnect();
    }
}

} // verus!
