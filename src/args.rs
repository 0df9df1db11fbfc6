//! Subscription arguments: the typed forms of each channel's parameters, and
//! how each becomes the JSON object sent in a request's `args`.
//!
//! An object's members come in a fixed order: `channel` first, then the
//! parameters in the order they are declared (not sorted by key).

use crate::candle::{IndexCandleChannel, MarkPriceChannel};
use crate::json::{
    chars_to_string, fields_view, json_object, json_opt_string, json_opt_uint, json_string,
    decimal, opt_string_field, opt_text, opt_uint_field, render_object, string_field, uint_field,
    Field,
};
use vstd::prelude::*;

verus! {

/// The class of an instrument.
#[allow(non_camel_case_types)]
#[derive(Clone, Copy, Debug, PartialEq, Eq, Structural)]
pub enum InstrumentType {
    SPOT,
    MARGIN,
    SWAP,
    FUTURES,
    OPTION,
}

impl InstrumentType {
    pub open spec fn name(self) -> Seq<char> {
        match self {
            InstrumentType::SPOT => "SPOT"@,
            InstrumentType::MARGIN => "MARGIN"@,
            InstrumentType::SWAP => "SWAP"@,
            InstrumentType::FUTURES => "FUTURES"@,
            InstrumentType::OPTION => "OPTION"@,
        }
    }

    pub fn as_str(&self) -> (r: &'static str)
        ensures
            r@ == self.name(),
    {
        match self {
            InstrumentType::SPOT => "SPOT",
            InstrumentType::MARGIN => "MARGIN",
            InstrumentType::SWAP => "SWAP",
            InstrumentType::FUTURES => "FUTURES",
            InstrumentType::OPTION => "OPTION",
        }
    }
}

/// A member `key: "<value>"`.
pub open spec fn text_member(key: Seq<char>, value: Seq<char>) -> (Seq<char>, Seq<char>) {
    (key, json_string(value))
}

/// A member `key: "<value>"` or `key: null`.
pub open spec fn opt_member(key: Seq<char>, value: Option<String>) -> (Seq<char>, Seq<char>) {
    (key, json_opt_string(opt_text(value)))
}

/// A member `key: <n>` or `key: null`.
pub open spec fn opt_uint_member(key: Seq<char>, value: Option<u64>) -> (Seq<char>, Seq<char>) {
    (key, json_opt_uint(value))
}

/// A member naming an instrument class.
pub open spec fn type_member(t: InstrumentType) -> (Seq<char>, Seq<char>) {
    text_member("instType"@, t.name())
}

fn type_field(t: InstrumentType) -> (f: Field)
    ensures
        f.view() == type_member(t),
{
    string_field("instType", t.as_str())
}

/// Parameters of the orders channel.
#[derive(Clone, Debug)]
pub struct OrderArg {
    pub inst_type: InstrumentType,
    pub inst_id: Option<String>,
    pub inst_family: Option<String>,
}

/// Parameters of the account channel.
#[derive(Clone, Debug)]
pub struct AccountArg {
    pub ccy: Option<String>,
    pub extra_params: Option<String>,
    pub update_interval: Option<u64>,
}

/// Parameters of the positions channel.
#[derive(Clone, Debug)]
pub struct PositionArg {
    pub inst_type: InstrumentType,
    pub inst_family: Option<String>,
    pub inst_id: Option<String>,
    pub extra_params: Option<String>,
    pub update_interval: Option<u64>,
}

/// The balance-and-position channel takes no parameters.
#[derive(Clone, Copy, Debug)]
pub struct BalanceAndPositionArg;

/// Parameters of the liquidation-warning channel.
#[derive(Clone, Debug)]
pub struct LiquidationWarningArg {
    pub inst_type: InstrumentType,
    pub inst_family: Option<String>,
    pub inst_id: Option<String>,
}

/// Parameters of the account-greeks channel.
#[derive(Clone, Debug)]
pub struct AccountGreeksArg {
    pub ccy: Option<String>,
}

/// Parameters of the private instruments channel.
#[derive(Clone, Copy, Debug)]
pub struct InstrumentArg {
    pub inst_type: InstrumentType,
}

/// The login parameters: the key, the passphrase, the time of signing in
/// whole seconds since the Unix epoch, and the signature.
#[derive(Clone, Debug)]
pub struct LoginArgs {
    pub api_key: String,
    pub passphrase: String,
    pub timestamp: u64,
    pub sign: String,
}

/// An argument for a channel of the private endpoint.
#[derive(Clone, Debug)]
pub enum WsPrivateArg {
    Login(LoginArgs),
    Order(OrderArg),
    Account(AccountArg),
    Position(PositionArg),
    BalanceAndPosition(BalanceAndPositionArg),
    LiquidationWarning(LiquidationWarningArg),
    AccountGreeks(AccountGreeksArg),
    Instrument(InstrumentArg),
}

impl WsPrivateArg {
    /// The channel name.
    pub open spec fn name(self) -> Seq<char> {
        match self {
            WsPrivateArg::Order(_) => "orders"@,
            WsPrivateArg::Account(_) => "account"@,
            WsPrivateArg::Position(_) => "positions"@,
            WsPrivateArg::BalanceAndPosition(_) => "balance_and_position"@,
            WsPrivateArg::LiquidationWarning(_) => "liquidation_warning"@,
            WsPrivateArg::AccountGreeks(_) => "account_greeks"@,
            WsPrivateArg::Instrument(_) => "instruments"@,
            WsPrivateArg::Login(_) => "login"@,
        }
    }

    /// The members of the JSON object, `channel` first.
    pub open spec fn members(self) -> Seq<(Seq<char>, Seq<char>)> {
        let ch = text_member("channel"@, self.name());
        match self {
            WsPrivateArg::Order(a) => seq![
                ch,
                type_member(a.inst_type),
                opt_member("instId"@, a.inst_id),
                opt_member("instFamily"@, a.inst_family),
            ],
            WsPrivateArg::Account(a) => seq![
                ch,
                opt_member("ccy"@, a.ccy),
                opt_member("extraParams"@, a.extra_params),
                opt_uint_member("updateInterval"@, a.update_interval),
            ],
            WsPrivateArg::Position(a) => seq![
                ch,
                type_member(a.inst_type),
                opt_member("instFamily"@, a.inst_family),
                opt_member("instId"@, a.inst_id),
                opt_member("extraParams"@, a.extra_params),
                opt_uint_member("updateInterval"@, a.update_interval),
            ],
            WsPrivateArg::BalanceAndPosition(_) => seq![ch],
            WsPrivateArg::LiquidationWarning(a) => seq![
                ch,
                type_member(a.inst_type),
                opt_member("instFamily"@, a.inst_family),
                opt_member("instId"@, a.inst_id),
            ],
            WsPrivateArg::AccountGreeks(a) => seq![ch, opt_member("ccy"@, a.ccy)],
            WsPrivateArg::Instrument(a) => seq![ch, type_member(a.inst_type)],
            WsPrivateArg::Login(a) => seq![
                ch,
                text_member("apiKey"@, a.api_key@),
                text_member("passphrase"@, a.passphrase@),
                ("timestamp"@, decimal(a.timestamp as nat)),
                text_member("sign"@, a.sign@),
            ],
        }
    }

    /// The JSON object of the argument.
    pub open spec fn json(self) -> Seq<char> {
        json_object(self.members())
    }

    pub fn as_str(&self) -> (r: &'static str)
        ensures
            r@ == self.name(),
    {
        match self {
            WsPrivateArg::Order(_) => "orders",
            WsPrivateArg::Account(_) => "account",
            WsPrivateArg::Position(_) => "positions",
            WsPrivateArg::BalanceAndPosition(_) => "balance_and_position",
            WsPrivateArg::LiquidationWarning(_) => "liquidation_warning",
            WsPrivateArg::AccountGreeks(_) => "account_greeks",
            WsPrivateArg::Instrument(_) => "instruments",
            WsPrivateArg::Login(_) => "login",
        }
    }

    fn fields(&self) -> (r: Vec<Field>)
        ensures
            fields_view(r@) == self.members(),
    {
        let mut v: Vec<Field> = Vec::new();
        v.push(string_field("channel", self.as_str()));
        match self {
            WsPrivateArg::Order(a) => {
                v.push(type_field(a.inst_type));
                v.push(opt_string_field("instId", &a.inst_id));
                v.push(opt_string_field("instFamily", &a.inst_family));
            },
            WsPrivateArg::Account(a) => {
                v.push(opt_string_field("ccy", &a.ccy));
                v.push(opt_string_field("extraParams", &a.extra_params));
                v.push(opt_uint_field("updateInterval", a.update_interval));
            },
            WsPrivateArg::Position(a) => {
                v.push(type_field(a.inst_type));
                v.push(opt_string_field("instFamily", &a.inst_family));
                v.push(opt_string_field("instId", &a.inst_id));
                v.push(opt_string_field("extraParams", &a.extra_params));
                v.push(opt_uint_field("updateInterval", a.update_interval));
            },
            WsPrivateArg::BalanceAndPosition(_) => {},
            WsPrivateArg::LiquidationWarning(a) => {
                v.push(type_field(a.inst_type));
                v.push(opt_string_field("instFamily", &a.inst_family));
                v.push(opt_string_field("instId", &a.inst_id));
            },
            WsPrivateArg::AccountGreeks(a) => {
                v.push(opt_string_field("ccy", &a.ccy));
            },
            WsPrivateArg::Instrument(a) => {
                v.push(type_field(a.inst_type));
            },
            WsPrivateArg::Login(a) => {
                v.push(string_field("apiKey", a.api_key.as_str()));
                v.push(string_field("passphrase", a.passphrase.as_str()));
                v.push(uint_field("timestamp", a.timestamp));
                v.push(string_field("sign", a.sign.as_str()));
            },
        }
        assert(fields_view(v@) =~= self.members());
        v
    }

    /// The argument as the JSON object text of a request.
    pub fn as_value(&self) -> (r: String)
        ensures
            r@ == self.json(),
    {
        let fields = self.fields();
        let text = render_object(&fields);
        chars_to_string(&text)
    }
}

/// Parameters naming an instrument class.
#[derive(Clone, Copy, Debug)]
pub struct WsPublicInstTypeArg {
    pub inst_type: InstrumentType,
}

/// Parameters naming one instrument.
#[derive(Clone, Debug)]
pub struct WsPublicInstIdArg {
    pub inst_id: String,
}

/// Parameters naming an instrument family.
#[derive(Clone, Debug)]
pub struct WsPublicInstFamilyArg {
    pub inst_family: String,
}

/// A channel without parameters.
#[derive(Clone, Copy, Debug)]
pub struct WsPublicNoneArg;

/// An argument for a channel of the public endpoint.
#[derive(Clone, Debug)]
pub enum WsPublicArg {
    Instrument(WsPublicInstTypeArg),
    OpenInterest(WsPublicInstIdArg),
    FundingRate(WsPublicInstIdArg),
    LimitPrice(WsPublicInstIdArg),
    OptionSummary(WsPublicInstFamilyArg),
    EstimatedPrice(WsPublicInstIdArg, WsPublicInstTypeArg, WsPublicInstFamilyArg),
    MarkPrice(WsPublicInstIdArg),
    IndexTickerPrice(WsPublicInstIdArg),
    MarkPriceKline(WsPublicInstIdArg, MarkPriceChannel),
    IndexCandle(WsPublicInstIdArg, IndexCandleChannel),
    LiquidationOrders(WsPublicInstTypeArg),
    AdlWarning(WsPublicInstTypeArg, WsPublicInstFamilyArg),
    EconomicCalendar(WsPublicInstTypeArg),
}

impl WsPublicArg {
    /// The static name of the variant's channel.
    pub open spec fn name(self) -> Seq<char> {
        match self {
            WsPublicArg::Instrument(_) => "instruments"@,
            WsPublicArg::OpenInterest(_) => "open-interest"@,
            WsPublicArg::FundingRate(_) => "funding-rate"@,
            WsPublicArg::LimitPrice(_) => "price-limit"@,
            WsPublicArg::OptionSummary(_) => "opt-summary"@,
            WsPublicArg::EstimatedPrice(_, _, _) => "estimated-price"@,
            WsPublicArg::MarkPrice(_) => "mark-price"@,
            WsPublicArg::IndexTickerPrice(_) => "index-tickers"@,
            WsPublicArg::MarkPriceKline(_, _) => "mark-price-kline"@,
            WsPublicArg::IndexCandle(_, _) => "index-candle"@,
            WsPublicArg::LiquidationOrders(_) => "liquidation-orders"@,
            WsPublicArg::AdlWarning(_, _) => "adl-warning"@,
            WsPublicArg::EconomicCalendar(_) => "economic-calendar"@,
        }
    }

    /// The channel written in the request: the period-specific name for the
    /// candle variants, the static name otherwise.
    pub open spec fn channel(self) -> Seq<char> {
        match self {
            WsPublicArg::MarkPriceKline(_, c) => c.name(),
            WsPublicArg::IndexCandle(_, c) => c.name(),
            _ => self.name(),
        }
    }

    /// The members of the JSON object, `channel` first.
    pub open spec fn members(self) -> Seq<(Seq<char>, Seq<char>)> {
        let ch = text_member("channel"@, self.channel());
        match self {
            WsPublicArg::Instrument(t) => seq![ch, type_member(t.inst_type)],
            WsPublicArg::LiquidationOrders(t) => seq![ch, type_member(t.inst_type)],
            WsPublicArg::EconomicCalendar(t) => seq![ch, type_member(t.inst_type)],
            WsPublicArg::OpenInterest(i) => seq![ch, text_member("instId"@, i.inst_id@)],
            WsPublicArg::FundingRate(i) => seq![ch, text_member("instId"@, i.inst_id@)],
            WsPublicArg::LimitPrice(i) => seq![ch, text_member("instId"@, i.inst_id@)],
            WsPublicArg::MarkPrice(i) => seq![ch, text_member("instId"@, i.inst_id@)],
            WsPublicArg::IndexTickerPrice(i) => seq![ch, text_member("instId"@, i.inst_id@)],
            WsPublicArg::MarkPriceKline(i, _) => seq![ch, text_member("instId"@, i.inst_id@)],
            WsPublicArg::IndexCandle(i, _) => seq![ch, text_member("instId"@, i.inst_id@)],
            WsPublicArg::OptionSummary(f) => seq![ch, text_member("instFamily"@, f.inst_family@)],
            WsPublicArg::EstimatedPrice(i, t, f) => seq![
                ch,
                text_member("instId"@, i.inst_id@),
                type_member(t.inst_type),
                text_member("instFamily"@, f.inst_family@),
            ],
            WsPublicArg::AdlWarning(t, f) => seq![
                ch,
                type_member(t.inst_type),
                text_member("instFamily"@, f.inst_family@),
            ],
        }
    }

    /// The JSON object of the argument.
    pub open spec fn json(self) -> Seq<char> {
        json_object(self.members())
    }

    pub fn as_str(&self) -> (r: &'static str)
        ensures
            r@ == self.name(),
    {
        match self {
            WsPublicArg::Instrument(_) => "instruments",
            WsPublicArg::OpenInterest(_) => "open-interest",
            WsPublicArg::FundingRate(_) => "funding-rate",
            WsPublicArg::LimitPrice(_) => "price-limit",
            WsPublicArg::OptionSummary(_) => "opt-summary",
            WsPublicArg::EstimatedPrice(_, _, _) => "estimated-price",
            WsPublicArg::MarkPrice(_) => "mark-price",
            WsPublicArg::IndexTickerPrice(_) => "index-tickers",
            WsPublicArg::MarkPriceKline(_, _) => "mark-price-kline",
            WsPublicArg::IndexCandle(_, _) => "index-candle",
            WsPublicArg::LiquidationOrders(_) => "liquidation-orders",
            WsPublicArg::AdlWarning(_, _) => "adl-warning",
            WsPublicArg::EconomicCalendar(_) => "economic-calendar",
        }
    }

    fn channel_field(&self) -> (f: Field)
        ensures
            f.view() == text_member("channel"@, self.channel()),
    {
        match self {
            WsPublicArg::MarkPriceKline(_, c) => string_field("channel", c.as_str()),
            WsPublicArg::IndexCandle(_, c) => string_field("channel", c.as_str()),
            _ => string_field("channel", self.as_str()),
        }
    }

    fn fields(&self) -> (r: Vec<Field>)
        ensures
            fields_view(r@) == self.members(),
    {
        let mut v: Vec<Field> = Vec::new();
        v.push(self.channel_field());
        match self {
            WsPublicArg::Instrument(t)
            | WsPublicArg::LiquidationOrders(t)
            | WsPublicArg::EconomicCalendar(t) => {
                v.push(type_field(t.inst_type));
            },
            WsPublicArg::OpenInterest(i)
            | WsPublicArg::FundingRate(i)
            | WsPublicArg::LimitPrice(i)
            | WsPublicArg::MarkPrice(i)
            | WsPublicArg::IndexTickerPrice(i)
            | WsPublicArg::MarkPriceKline(i, _)
            | WsPublicArg::IndexCandle(i, _) => {
                v.push(string_field("instId", i.inst_id.as_str()));
            },
            WsPublicArg::OptionSummary(f) => {
                v.push(string_field("instFamily", f.inst_family.as_str()));
            },
            WsPublicArg::EstimatedPrice(i, t, f) => {
                v.push(string_field("instId", i.inst_id.as_str()));
                v.push(type_field(t.inst_type));
                v.push(string_field("instFamily", f.inst_family.as_str()));
            },
            WsPublicArg::AdlWarning(t, f) => {
                v.push(type_field(t.inst_type));
                v.push(string_field("instFamily", f.inst_family.as_str()));
            },
        }
        assert(fields_view(v@) =~= self.members());
        v
    }

    /// The argument as the JSON object text of a request.
    pub fn as_value(&self) -> (r: String)
        ensures
            r@ == self.json(),
    {
        let fields = self.fields();
        let text = render_object(&fields);
        chars_to_string(&text)
    }
}

/// An argument of a request, by endpoint. Business arguments carry nothing
/// yet and cannot be encoded.
#[derive(Clone, Debug)]
pub enum WsArg {
    Public(WsPublicArg),
    Private(WsPrivateArg),
    Business,
}

impl WsArg {
    pub fn new_public(arg: WsPublicArg) -> (r: Self)
        ensures
            r == WsArg::Public(arg),
    {
        WsArg::Public(arg)
    }

    pub fn new_private(arg: WsPrivateArg) -> (r: Self)
        ensures
            r == WsArg::Private(arg),
    {
        WsArg::Private(arg)
    }

    /// The name reported for the argument: `public` for any public argument,
    /// the channel name for a private one, `business` otherwise.
    pub open spec fn name(self) -> Seq<char> {
        match self {
            WsArg::Public(_) => "public"@,
            WsArg::Private(a) => a.name(),
            WsArg::Business => "business"@,
        }
    }

    /// The channel written in the argument's object.
    pub open spec fn channel(self) -> Seq<char> {
        match self {
            WsArg::Public(a) => a.channel(),
            WsArg::Private(a) => a.name(),
            WsArg::Business => Seq::empty(),
        }
    }

    /// The members of the argument's object.
    pub open spec fn members(self) -> Seq<(Seq<char>, Seq<char>)> {
        match self {
            WsArg::Public(a) => a.members(),
            WsArg::Private(a) => a.members(),
            WsArg::Business => Seq::empty(),
        }
    }

    /// The JSON object of the argument; a business argument is an empty object.
    pub open spec fn json(self) -> Seq<char> {
        match self {
            WsArg::Public(a) => a.json(),
            WsArg::Private(a) => a.json(),
            WsArg::Business => json_object(Seq::empty()),
        }
    }

    pub fn as_value(&self) -> (r: String)
        ensures
            r@ == self.json(),
    {
        match self {
            WsArg::Public(a) => a.as_value(),
            WsArg::Private(a) => a.as_value(),
            WsArg::Business => {
                let v: Vec<Field> = Vec::new();
                let text = render_object(&v);
                assert(fields_view(v@) =~= Seq::empty());
                chars_to_string(&text)
            },
        }
    }

    pub fn as_str(&self) -> (r: &'static str)
        ensures
            r@ == self.name(),
    {
        match self {
            WsArg::Public(_) => "public",
            WsArg::Private(a) => a.as_str(),
            WsArg::Business => "business",
        }
    }
}

/// Encoded arguments sorted by endpoint.
#[derive(Clone, Debug)]
pub struct OkexWsClientBodys {
    pub public_body: Vec<String>,
    pub private_body: Vec<String>,
    pub business_body: Vec<String>,
}

impl OkexWsClientBodys {
    pub fn new() -> (r: Self)
        ensures
            r.public_body@.len() == 0,
            r.private_body@.len() == 0,
            r.business_body@.len() == 0,
    {
        OkexWsClientBodys {
            public_body: Vec::new(),
            private_body: Vec::new(),
            business_body: Vec::new(),
        }
    }
}

} // verus!
