//! Order placement messages of the private endpoint.

use vstd::prelude::*;

verus! {

/// A request to place orders.
#[derive(Clone, Debug)]
pub struct CreateOrder {
    pub id: String,
    pub op: String,
    pub args: Vec<Instrument>,
    pub exp_time: Option<String>,
}

/// One order.
#[derive(Clone, Debug)]
pub struct Instrument {
    /// The instrument, such as `BTC-USD`.
    pub inst_id: String,
    pub td_mode: TradingMode,
    /// The margin currency.
    pub ccy: String,
    pub cl_ord_id: Option<String>,
    pub tag: Option<String>,
    pub side: Side,
    pub pos_side: Option<PositionSide>,
    pub ord_type: OrderType,
    /// The quantity.
    pub sz: String,
    /// The price.
    pub px: String,
    pub px_usd: Option<String>,
    /// The price as implied volatility, for options.
    pub px_vol: Option<String>,
    pub reduce_only: Option<bool>,
    pub tgt_ccy: Option<QuantityUnit>,
    pub ban_amend: Option<bool>,
    pub quick_mgn_type: Option<bool>,
    pub stp_id: Option<String>,
    pub stp_mode: Option<SelfTradePreventionMode>,
}

/// How a position is margined.
#[derive(Clone, Copy, Debug, PartialEq, Eq, Structural)]
pub enum TradingMode {
    /// Each position has its own margin.
    Isolated,
    /// Positions share the account's margin.
    Cross,
    /// Spot trading without leverage.
    Cash,
    /// Isolated spot margin, for lead trading.
    SpotIsolated,
}

impl Default for TradingMode {
    fn default() -> (r: TradingMode)
        ensures
            r == TradingMode::Cash,
    {
        TradingMode::Cash
    }
}

#[derive(Clone, Copy, Debug, PartialEq, Eq, Structural)]
pub enum Side {
    Buy,
    Sell,
}

#[derive(Clone, Copy, Debug, PartialEq, Eq, Structural)]
pub enum PositionSide {
    Net,
    Long,
    Short,
}

impl Default for PositionSide {
    fn default() -> (r: PositionSide)
        ensures
            r == PositionSide::Net,
    {
        PositionSide::Net
    }
}

#[derive(Clone, Copy, Debug, PartialEq, Eq, Structural)]
pub enum OrderType {
    /// At the market price, at once.
    Market,
    /// At the given price or better.
    Limit,
    /// Only as a resting order.
    PostOnly,
    /// Filled whole at once, or cancelled.
    FillOrKill,
    /// Filled at once as far as possible, the rest cancelled.
    ImmediateOrCancel,
    /// A market order filled at once as far as possible (contracts).
    OptimalLimitIoc,
    /// Market maker protection (options).
    MarketMakerProtection,
    /// Market maker protection, resting only (options).
    MmpAndPostOnly,
}

/// The unit of an order's quantity.
#[derive(Clone, Copy, Debug, PartialEq, Eq, Structural)]
pub enum QuantityUnit {
    BaseCurrency,
    QuoteCurrency,
}

/// Which order is cancelled when an account would trade with itself.
#[derive(Clone, Copy, Debug, PartialEq, Eq, Structural)]
pub enum SelfTradePreventionMode {
    CancelMaker,
    CancelTaker,
    CancelBoth,
}

/// The answer to an order request.
#[derive(Clone, Debug)]
pub struct CreateOrderResponse {
    pub id: String,
    pub op: String,
    pub code: String,
    pub msg: String,
    pub data: Vec<OrderData>,
}

/// The outcome of one order.
#[derive(Clone, Debug)]
pub struct OrderData {
    pub ord_id: String,
    pub cl_ord_id: Option<String>,
    pub tag: Option<String>,
    pub ts: String,
    pub s_code: String,
    pub s_msg: String,
    pub in_time: String,
    pub out_time: String,
}

} // verus!
