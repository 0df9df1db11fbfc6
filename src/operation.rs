//! Operations of the request envelope and the kinds of channel the client
//! keeps a connection for.

use vstd::prelude::*;

verus! {

/// The operation of a request, or the event of a response.
#[derive(Clone, Copy, Debug, PartialEq, Eq, Structural)]
pub enum Operation {
    Login,
    Subscribe,
    Unsubscribe,
    Error,
    Ping,
    Pong,
    ChannelConnCount,
}

impl Operation {
    /// The wire name of the operation.
    pub open spec fn name(self) -> Seq<char> {
        match self {
            Operation::Login => "login"@,
            Operation::Subscribe => "subscribe"@,
            Operation::Unsubscribe => "unsubscribe"@,
            Operation::Error => "error"@,
            Operation::Ping => "ping"@,
            Operation::Pong => "pong"@,
            Operation::ChannelConnCount => "channel-conn-count"@,
        }
    }

    pub fn as_str(&self) -> (r: &'static str)
        ensures
            r@ == self.name(),
    {
        match self {
            Operation::Login => "login",
            Operation::Subscribe => "subscribe",
            Operation::Unsubscribe => "unsubscribe",
            Operation::Error => "error",
            Operation::Ping => "ping",
            Operation::Pong => "pong",
            Operation::ChannelConnCount => "channel-conn-count",
        }
    }
}

impl Default for Operation {
    fn default() -> (r: Operation)
        ensures
            r == Operation::Login,
    {
        Operation::Login
    }
}

/// The kind of a channel: the three connections, and the queue for errors.
#[derive(Clone, Copy, Debug, PartialEq, Eq, Structural)]
pub enum WebSocketChannelType {
    Public,
    Private,
    Business,
    Error,
}

impl WebSocketChannelType {
    /// The path appended to the base URL for this kind of connection.
    pub open spec fn suffix(self) -> Seq<char> {
        match self {
            WebSocketChannelType::Public => "/public"@,
            WebSocketChannelType::Private => "/private"@,
            WebSocketChannelType::Business => "/business"@,
            WebSocketChannelType::Error => "/error"@,
        }
    }

    pub fn as_str(&self) -> (r: &'static str)
        ensures
            r@ == self.suffix(),
    {
        match self {
            WebSocketChannelType::Public => "/public",
            WebSocketChannelType::Private => "/private",
            WebSocketChannelType::Business => "/business",
            WebSocketChannelType::Error => "/error",
        }
    }
}

/// The three endpoints of the exchange.
#[derive(Clone, Copy, Debug, PartialEq, Eq, Structural)]
pub enum WsChannelType {
    /// Market data, no login.
    Public,
    /// Account data, after login.
    Private,
    /// Post-trade data and candles.
    Business,
}

/// Private channels of the exchange.
#[derive(Clone, Copy, Debug, PartialEq, Eq, Structural)]
pub enum OkexWsChannel {
    Order,
    Account,
    Position,
    BalanceAndPosition,
    LiquidationWarning,
    AccountGreeks,
}

impl OkexWsChannel {
    pub open spec fn name(self) -> Seq<char> {
        match self {
            OkexWsChannel::Order => "orders"@,
            OkexWsChannel::Account => "account"@,
            OkexWsChannel::Position => "positions"@,
            OkexWsChannel::BalanceAndPosition => "balance_and_position"@,
            OkexWsChannel::LiquidationWarning => "liquidation-warning"@,
            OkexWsChannel::AccountGreeks => "account-greeks"@,
        }
    }

    pub fn as_str(&self) -> (r: &'static str)
        ensures
            r@ == self.name(),
    {
        match self {
            OkexWsChannel::Order => "orders",
            OkexWsChannel::Account => "account",
            OkexWsChannel::Position => "positions",
            OkexWsChannel::BalanceAndPosition => "balance_and_position",
            OkexWsChannel::LiquidationWarning => "liquidation-warning",
            OkexWsChannel::AccountGreeks => "account-greeks",
        }
    }
}

} // verus!
