//! Candle channels of mark prices and of indices, one per interval, each
//! aligned either to local time or to UTC.

use crate::text::str_eq;
use vstd::prelude::*;
use vstd::string::StringExecFns;

verus! {

/// The unit of a candle interval.
#[derive(Clone, Copy, Debug, PartialEq, Eq, Structural)]
pub enum IntervalType {
    Minute,
    Hour,
    Day,
    Week,
    Month,
}

/// Mark-price candle channels.
#[derive(Clone, Copy, Debug, PartialEq, Eq, Hash, Structural)]
pub enum MarkPriceChannel {
    MarkPriceCandle3M,
    MarkPriceCandle1M,
    MarkPriceCandle1W,
    MarkPriceCandle1D,
    MarkPriceCandle2D,
    MarkPriceCandle3D,
    MarkPriceCandle5D,
    MarkPriceCandle12H,
    MarkPriceCandle6H,
    MarkPriceCandle4H,
    MarkPriceCandle2H,
    MarkPriceCandle1H,
    MarkPriceCandle30m,
    MarkPriceCandle15m,
    MarkPriceCandle5m,
    MarkPriceCandle3m,
    MarkPriceCandle1m,
    MarkPriceCandle3MUtc,
    MarkPriceCandle1MUtc,
    MarkPriceCandle1WUtc,
    MarkPriceCandle1DUtc,
    MarkPriceCandle2DUtc,
    MarkPriceCandle3DUtc,
    MarkPriceCandle5DUtc,
    MarkPriceCandle12HUtc,
    MarkPriceCandle6HUtc,
}

impl MarkPriceChannel {
    /// The wire name of the channel.
    pub open spec fn name(self) -> Seq<char> {
        match self {
            MarkPriceChannel::MarkPriceCandle3M => "mark-price-candle3M"@,
            MarkPriceChannel::MarkPriceCandle1M => "mark-price-candle1M"@,
            MarkPriceChannel::MarkPriceCandle1W => "mark-price-candle1W"@,
            MarkPriceChannel::MarkPriceCandle1D => "mark-price-candle1D"@,
            MarkPriceChannel::MarkPriceCandle2D => "mark-price-candle2D"@,
            MarkPriceChannel::MarkPriceCandle3D => "mark-price-candle3D"@,
            MarkPriceChannel::MarkPriceCandle5D => "mark-price-candle5D"@,
            MarkPriceChannel::MarkPriceCandle12H => "mark-price-candle12H"@,
            MarkPriceChannel::MarkPriceCandle6H => "mark-price-candle6H"@,
            MarkPriceChannel::MarkPriceCandle4H => "mark-price-candle4H"@,
            MarkPriceChannel::MarkPriceCandle2H => "mark-price-candle2H"@,
            MarkPriceChannel::MarkPriceCandle1H => "mark-price-candle1H"@,
            MarkPriceChannel::MarkPriceCandle30m => "mark-price-candle30m"@,
            MarkPriceChannel::MarkPriceCandle15m => "mark-price-candle15m"@,
            MarkPriceChannel::MarkPriceCandle5m => "mark-price-candle5m"@,
            MarkPriceChannel::MarkPriceCandle3m => "mark-price-candle3m"@,
            MarkPriceChannel::MarkPriceCandle1m => "mark-price-candle1m"@,
            MarkPriceChannel::MarkPriceCandle3MUtc => "mark-price-candle3Mutc"@,
            MarkPriceChannel::MarkPriceCandle1MUtc => "mark-price-candle1Mutc"@,
            MarkPriceChannel::MarkPriceCandle1WUtc => "mark-price-candle1Wutc"@,
            MarkPriceChannel::MarkPriceCandle1DUtc => "mark-price-candle1Dutc"@,
            MarkPriceChannel::MarkPriceCandle2DUtc => "mark-price-candle2Dutc"@,
            MarkPriceChannel::MarkPriceCandle3DUtc => "mark-price-candle3Dutc"@,
            MarkPriceChannel::MarkPriceCandle5DUtc => "mark-price-candle5Dutc"@,
            MarkPriceChannel::MarkPriceCandle12HUtc => "mark-price-candle12Hutc"@,
            MarkPriceChannel::MarkPriceCandle6HUtc => "mark-price-candle6Hutc"@,
        }
    }

    /// The length of one candle in seconds (a month counts 30 days).
    pub open spec fn seconds(self) -> u64 {
        match self {
            MarkPriceChannel::MarkPriceCandle3M => 7776000,
            MarkPriceChannel::MarkPriceCandle1M => 2592000,
            MarkPriceChannel::MarkPriceCandle1W => 604800,
            MarkPriceChannel::MarkPriceCandle1D => 86400,
            MarkPriceChannel::MarkPriceCandle2D => 172800,
            MarkPriceChannel::MarkPriceCandle3D => 259200,
            MarkPriceChannel::MarkPriceCandle5D => 432000,
            MarkPriceChannel::MarkPriceCandle12H => 43200,
            MarkPriceChannel::MarkPriceCandle6H => 21600,
            MarkPriceChannel::MarkPriceCandle4H => 14400,
            MarkPriceChannel::MarkPriceCandle2H => 7200,
            MarkPriceChannel::MarkPriceCandle1H => 3600,
            MarkPriceChannel::MarkPriceCandle30m => 1800,
            MarkPriceChannel::MarkPriceCandle15m => 900,
            MarkPriceChannel::MarkPriceCandle5m => 300,
            MarkPriceChannel::MarkPriceCandle3m => 180,
            MarkPriceChannel::MarkPriceCandle1m => 60,
            MarkPriceChannel::MarkPriceCandle3MUtc => 7776000,
            MarkPriceChannel::MarkPriceCandle1MUtc => 2592000,
            MarkPriceChannel::MarkPriceCandle1WUtc => 604800,
            MarkPriceChannel::MarkPriceCandle1DUtc => 86400,
            MarkPriceChannel::MarkPriceCandle2DUtc => 172800,
            MarkPriceChannel::MarkPriceCandle3DUtc => 259200,
            MarkPriceChannel::MarkPriceCandle5DUtc => 432000,
            MarkPriceChannel::MarkPriceCandle12HUtc => 43200,
            MarkPriceChannel::MarkPriceCandle6HUtc => 21600,
        }
    }

    /// Whether the candles are aligned to UTC rather than to local time.
    pub open spec fn utc(self) -> bool {
        match self {
            MarkPriceChannel::MarkPriceCandle3M => false,
            MarkPriceChannel::MarkPriceCandle1M => false,
            MarkPriceChannel::MarkPriceCandle1W => false,
            MarkPriceChannel::MarkPriceCandle1D => false,
            MarkPriceChannel::MarkPriceCandle2D => false,
            MarkPriceChannel::MarkPriceCandle3D => false,
            MarkPriceChannel::MarkPriceCandle5D => false,
            MarkPriceChannel::MarkPriceCandle12H => false,
            MarkPriceChannel::MarkPriceCandle6H => false,
            MarkPriceChannel::MarkPriceCandle4H => false,
            MarkPriceChannel::MarkPriceCandle2H => false,
            MarkPriceChannel::MarkPriceCandle1H => false,
            MarkPriceChannel::MarkPriceCandle30m => false,
            MarkPriceChannel::MarkPriceCandle15m => false,
            MarkPriceChannel::MarkPriceCandle5m => false,
            MarkPriceChannel::MarkPriceCandle3m => false,
            MarkPriceChannel::MarkPriceCandle1m => false,
            MarkPriceChannel::MarkPriceCandle3MUtc => true,
            MarkPriceChannel::MarkPriceCandle1MUtc => true,
            MarkPriceChannel::MarkPriceCandle1WUtc => true,
            MarkPriceChannel::MarkPriceCandle1DUtc => true,
            MarkPriceChannel::MarkPriceCandle2DUtc => true,
            MarkPriceChannel::MarkPriceCandle3DUtc => true,
            MarkPriceChannel::MarkPriceCandle5DUtc => true,
            MarkPriceChannel::MarkPriceCandle12HUtc => true,
            MarkPriceChannel::MarkPriceCandle6HUtc => true,
        }
    }

    pub fn as_str(&self) -> (r: &'static str)
        ensures
            r@ == self.name(),
    {
        match self {
            MarkPriceChannel::MarkPriceCandle3M => "mark-price-candle3M",
            MarkPriceChannel::MarkPriceCandle1M => "mark-price-candle1M",
            MarkPriceChannel::MarkPriceCandle1W => "mark-price-candle1W",
            MarkPriceChannel::MarkPriceCandle1D => "mark-price-candle1D",
            MarkPriceChannel::MarkPriceCandle2D => "mark-price-candle2D",
            MarkPriceChannel::MarkPriceCandle3D => "mark-price-candle3D",
            MarkPriceChannel::MarkPriceCandle5D => "mark-price-candle5D",
            MarkPriceChannel::MarkPriceCandle12H => "mark-price-candle12H",
            MarkPriceChannel::MarkPriceCandle6H => "mark-price-candle6H",
            MarkPriceChannel::MarkPriceCandle4H => "mark-price-candle4H",
            MarkPriceChannel::MarkPriceCandle2H => "mark-price-candle2H",
            MarkPriceChannel::MarkPriceCandle1H => "mark-price-candle1H",
            MarkPriceChannel::MarkPriceCandle30m => "mark-price-candle30m",
            MarkPriceChannel::MarkPriceCandle15m => "mark-price-candle15m",
            MarkPriceChannel::MarkPriceCandle5m => "mark-price-candle5m",
            MarkPriceChannel::MarkPriceCandle3m => "mark-price-candle3m",
            MarkPriceChannel::MarkPriceCandle1m => "mark-price-candle1m",
            MarkPriceChannel::MarkPriceCandle3MUtc => "mark-price-candle3Mutc",
            MarkPriceChannel::MarkPriceCandle1MUtc => "mark-price-candle1Mutc",
            MarkPriceChannel::MarkPriceCandle1WUtc => "mark-price-candle1Wutc",
            MarkPriceChannel::MarkPriceCandle1DUtc => "mark-price-candle1Dutc",
            MarkPriceChannel::MarkPriceCandle2DUtc => "mark-price-candle2Dutc",
            MarkPriceChannel::MarkPriceCandle3DUtc => "mark-price-candle3Dutc",
            MarkPriceChannel::MarkPriceCandle5DUtc => "mark-price-candle5Dutc",
            MarkPriceChannel::MarkPriceCandle12HUtc => "mark-price-candle12Hutc",
            MarkPriceChannel::MarkPriceCandle6HUtc => "mark-price-candle6Hutc",
        }
    }

    pub fn interval_seconds(&self) -> (r: u64)
        ensures
            r == self.seconds(),
    {
        match self {
            MarkPriceChannel::MarkPriceCandle3M => 7776000,
            MarkPriceChannel::MarkPriceCandle1M => 2592000,
            MarkPriceChannel::MarkPriceCandle1W => 604800,
            MarkPriceChannel::MarkPriceCandle1D => 86400,
            MarkPriceChannel::MarkPriceCandle2D => 172800,
            MarkPriceChannel::MarkPriceCandle3D => 259200,
            MarkPriceChannel::MarkPriceCandle5D => 432000,
            MarkPriceChannel::MarkPriceCandle12H => 43200,
            MarkPriceChannel::MarkPriceCandle6H => 21600,
            MarkPriceChannel::MarkPriceCandle4H => 14400,
            MarkPriceChannel::MarkPriceCandle2H => 7200,
            MarkPriceChannel::MarkPriceCandle1H => 3600,
            MarkPriceChannel::MarkPriceCandle30m => 1800,
            MarkPriceChannel::MarkPriceCandle15m => 900,
            MarkPriceChannel::MarkPriceCandle5m => 300,
            MarkPriceChannel::MarkPriceCandle3m => 180,
            MarkPriceChannel::MarkPriceCandle1m => 60,
            MarkPriceChannel::MarkPriceCandle3MUtc => 7776000,
            MarkPriceChannel::MarkPriceCandle1MUtc => 2592000,
            MarkPriceChannel::MarkPriceCandle1WUtc => 604800,
            MarkPriceChannel::MarkPriceCandle1DUtc => 86400,
            MarkPriceChannel::MarkPriceCandle2DUtc => 172800,
            MarkPriceChannel::MarkPriceCandle3DUtc => 259200,
            MarkPriceChannel::MarkPriceCandle5DUtc => 432000,
            MarkPriceChannel::MarkPriceCandle12HUtc => 43200,
            MarkPriceChannel::MarkPriceCandle6HUtc => 21600,
        }
    }

    pub fn is_utc(&self) -> (r: bool)
        ensures
            r == self.utc(),
    {
        match self {
            MarkPriceChannel::MarkPriceCandle3M => false,
            MarkPriceChannel::MarkPriceCandle1M => false,
            MarkPriceChannel::MarkPriceCandle1W => false,
            MarkPriceChannel::MarkPriceCandle1D => false,
            MarkPriceChannel::MarkPriceCandle2D => false,
            MarkPriceChannel::MarkPriceCandle3D => false,
            MarkPriceChannel::MarkPriceCandle5D => false,
            MarkPriceChannel::MarkPriceCandle12H => false,
            MarkPriceChannel::MarkPriceCandle6H => false,
            MarkPriceChannel::MarkPriceCandle4H => false,
            MarkPriceChannel::MarkPriceCandle2H => false,
            MarkPriceChannel::MarkPriceCandle1H => false,
            MarkPriceChannel::MarkPriceCandle30m => false,
            MarkPriceChannel::MarkPriceCandle15m => false,
            MarkPriceChannel::MarkPriceCandle5m => false,
            MarkPriceChannel::MarkPriceCandle3m => false,
            MarkPriceChannel::MarkPriceCandle1m => false,
            MarkPriceChannel::MarkPriceCandle3MUtc => true,
            MarkPriceChannel::MarkPriceCandle1MUtc => true,
            MarkPriceChannel::MarkPriceCandle1WUtc => true,
            MarkPriceChannel::MarkPriceCandle1DUtc => true,
            MarkPriceChannel::MarkPriceCandle2DUtc => true,
            MarkPriceChannel::MarkPriceCandle3DUtc => true,
            MarkPriceChannel::MarkPriceCandle5DUtc => true,
            MarkPriceChannel::MarkPriceCandle12HUtc => true,
            MarkPriceChannel::MarkPriceCandle6HUtc => true,
        }
    }

    /// Every channel, in declaration order.
    pub fn all_channels() -> (r: Vec<Self>)
        ensures
            r@ == seq![MarkPriceChannel::MarkPriceCandle3M, MarkPriceChannel::MarkPriceCandle1M, MarkPriceChannel::MarkPriceCandle1W, MarkPriceChannel::MarkPriceCandle1D, MarkPriceChannel::MarkPriceCandle2D, MarkPriceChannel::MarkPriceCandle3D, MarkPriceChannel::MarkPriceCandle5D, MarkPriceChannel::MarkPriceCandle12H, MarkPriceChannel::MarkPriceCandle6H, MarkPriceChannel::MarkPriceCandle4H, MarkPriceChannel::MarkPriceCandle2H, MarkPriceChannel::MarkPriceCandle1H, MarkPriceChannel::MarkPriceCandle30m, MarkPriceChannel::MarkPriceCandle15m, MarkPriceChannel::MarkPriceCandle5m, MarkPriceChannel::MarkPriceCandle3m, MarkPriceChannel::MarkPriceCandle1m, MarkPriceChannel::MarkPriceCandle3MUtc, MarkPriceChannel::MarkPriceCandle1MUtc, MarkPriceChannel::MarkPriceCandle1WUtc, MarkPriceChannel::MarkPriceCandle1DUtc, MarkPriceChannel::MarkPriceCandle2DUtc, MarkPriceChannel::MarkPriceCandle3DUtc, MarkPriceChannel::MarkPriceCandle5DUtc, MarkPriceChannel::MarkPriceCandle12HUtc, MarkPriceChannel::MarkPriceCandle6HUtc],
    {
        vec![MarkPriceChannel::MarkPriceCandle3M, MarkPriceChannel::MarkPriceCandle1M, MarkPriceChannel::MarkPriceCandle1W, MarkPriceChannel::MarkPriceCandle1D, MarkPriceChannel::MarkPriceCandle2D, MarkPriceChannel::MarkPriceCandle3D, MarkPriceChannel::MarkPriceCandle5D, MarkPriceChannel::MarkPriceCandle12H, MarkPriceChannel::MarkPriceCandle6H, MarkPriceChannel::MarkPriceCandle4H, MarkPriceChannel::MarkPriceCandle2H, MarkPriceChannel::MarkPriceCandle1H, MarkPriceChannel::MarkPriceCandle30m, MarkPriceChannel::MarkPriceCandle15m, MarkPriceChannel::MarkPriceCandle5m, MarkPriceChannel::MarkPriceCandle3m, MarkPriceChannel::MarkPriceCandle1m, MarkPriceChannel::MarkPriceCandle3MUtc, MarkPriceChannel::MarkPriceCandle1MUtc, MarkPriceChannel::MarkPriceCandle1WUtc, MarkPriceChannel::MarkPriceCandle1DUtc, MarkPriceChannel::MarkPriceCandle2DUtc, MarkPriceChannel::MarkPriceCandle3DUtc, MarkPriceChannel::MarkPriceCandle5DUtc, MarkPriceChannel::MarkPriceCandle12HUtc, MarkPriceChannel::MarkPriceCandle6HUtc]
    }

    /// The intervals most often subscribed to.
    pub fn common_intervals() -> (r: Vec<Self>)
        ensures
            r@ == seq![MarkPriceChannel::MarkPriceCandle1m, MarkPriceChannel::MarkPriceCandle5m, MarkPriceChannel::MarkPriceCandle15m, MarkPriceChannel::MarkPriceCandle1H, MarkPriceChannel::MarkPriceCandle4H, MarkPriceChannel::MarkPriceCandle1D, MarkPriceChannel::MarkPriceCandle1W],
    {
        vec![MarkPriceChannel::MarkPriceCandle1m, MarkPriceChannel::MarkPriceCandle5m, MarkPriceChannel::MarkPriceCandle15m, MarkPriceChannel::MarkPriceCandle1H, MarkPriceChannel::MarkPriceCandle4H, MarkPriceChannel::MarkPriceCandle1D, MarkPriceChannel::MarkPriceCandle1W]
    }

    /// The channel with the given wire name, if there is one.
    pub fn parse(s: &str) -> (r: Option<Self>)
        ensures
            match r {
                Some(c) => c.name() == s@,
                None => forall|c: Self| #[trigger] c.name() != s@,
            },
            forall|c: Self| #[trigger] c.name() == s@ ==> r == Some(c),
    {
        if str_eq(s, "mark-price-candle3M") {
            proof {
                mark_price_name_identifies(MarkPriceChannel::MarkPriceCandle3M);
            }
            return Some(MarkPriceChannel::MarkPriceCandle3M);
        }
        if str_eq(s, "mark-price-candle1M") {
            proof {
                mark_price_name_identifies(MarkPriceChannel::MarkPriceCandle1M);
            }
            return Some(MarkPriceChannel::MarkPriceCandle1M);
        }
        if str_eq(s, "mark-price-candle1W") {
            proof {
                mark_price_name_identifies(MarkPriceChannel::MarkPriceCandle1W);
            }
            return Some(MarkPriceChannel::MarkPriceCandle1W);
        }
        if str_eq(s, "mark-price-candle1D") {
            proof {
                mark_price_name_identifies(MarkPriceChannel::MarkPriceCandle1D);
            }
            return Some(MarkPriceChannel::MarkPriceCandle1D);
        }
        if str_eq(s, "mark-price-candle2D") {
            proof {
                mark_price_name_identifies(MarkPriceChannel::MarkPriceCandle2D);
            }
            return Some(MarkPriceChannel::MarkPriceCandle2D);
        }
        if str_eq(s, "mark-price-candle3D") {
            proof {
                mark_price_name_identifies(MarkPriceChannel::MarkPriceCandle3D);
            }
            return Some(MarkPriceChannel::MarkPriceCandle3D);
        }
        if str_eq(s, "mark-price-candle5D") {
            proof {
                mark_price_name_identifies(MarkPriceChannel::MarkPriceCandle5D);
            }
            return Some(MarkPriceChannel::MarkPriceCandle5D);
        }
        if str_eq(s, "mark-price-candle12H") {
            proof {
                mark_price_name_identifies(MarkPriceChannel::MarkPriceCandle12H);
            }
            return Some(MarkPriceChannel::MarkPriceCandle12H);
        }
        if str_eq(s, "mark-price-candle6H") {
            proof {
                mark_price_name_identifies(MarkPriceChannel::MarkPriceCandle6H);
            }
            return Some(MarkPriceChannel::MarkPriceCandle6H);
        }
        if str_eq(s, "mark-price-candle4H") {
            proof {
                mark_price_name_identifies(MarkPriceChannel::MarkPriceCandle4H);
            }
            return Some(MarkPriceChannel::MarkPriceCandle4H);
        }
        if str_eq(s, "mark-price-candle2H") {
            proof {
                mark_price_name_identifies(MarkPriceChannel::MarkPriceCandle2H);
            }
            return Some(MarkPriceChannel::MarkPriceCandle2H);
        }
        if str_eq(s, "mark-price-candle1H") {
            proof {
                mark_price_name_identifies(MarkPriceChannel::MarkPriceCandle1H);
            }
            return Some(MarkPriceChannel::MarkPriceCandle1H);
        }
        if str_eq(s, "mark-price-candle30m") {
            proof {
                mark_price_name_identifies(MarkPriceChannel::MarkPriceCandle30m);
            }
            return Some(MarkPriceChannel::MarkPriceCandle30m);
        }
        if str_eq(s, "mark-price-candle15m") {
            proof {
                mark_price_name_identifies(MarkPriceChannel::MarkPriceCandle15m);
            }
            return Some(MarkPriceChannel::MarkPriceCandle15m);
        }
        if str_eq(s, "mark-price-candle5m") {
            proof {
                mark_price_name_identifies(MarkPriceChannel::MarkPriceCandle5m);
            }
            return Some(MarkPriceChannel::MarkPriceCandle5m);
        }
        if str_eq(s, "mark-price-candle3m") {
            proof {
                mark_price_name_identifies(MarkPriceChannel::MarkPriceCandle3m);
            }
            return Some(MarkPriceChannel::MarkPriceCandle3m);
        }
        if str_eq(s, "mark-price-candle1m") {
            proof {
                mark_price_name_identifies(MarkPriceChannel::MarkPriceCandle1m);
            }
            return Some(MarkPriceChannel::MarkPriceCandle1m);
        }
        if str_eq(s, "mark-price-candle3Mutc") {
            proof {
                mark_price_name_identifies(MarkPriceChannel::MarkPriceCandle3MUtc);
            }
            return Some(MarkPriceChannel::MarkPriceCandle3MUtc);
        }
        if str_eq(s, "mark-price-candle1Mutc") {
            proof {
                mark_price_name_identifies(MarkPriceChannel::MarkPriceCandle1MUtc);
            }
            return Some(MarkPriceChannel::MarkPriceCandle1MUtc);
        }
        if str_eq(s, "mark-price-candle1Wutc") {
            proof {
                mark_price_name_identifies(MarkPriceChannel::MarkPriceCandle1WUtc);
            }
            return Some(MarkPriceChannel::MarkPriceCandle1WUtc);
        }
        if str_eq(s, "mark-price-candle1Dutc") {
            proof {
                mark_price_name_identifies(MarkPriceChannel::MarkPriceCandle1DUtc);
            }
            return Some(MarkPriceChannel::MarkPriceCandle1DUtc);
        }
        if str_eq(s, "mark-price-candle2Dutc") {
            proof {
                mark_price_name_identifies(MarkPriceChannel::MarkPriceCandle2DUtc);
            }
            return Some(MarkPriceChannel::MarkPriceCandle2DUtc);
        }
        if str_eq(s, "mark-price-candle3Dutc") {
            proof {
                mark_price_name_identifies(MarkPriceChannel::MarkPriceCandle3DUtc);
            }
            return Some(MarkPriceChannel::MarkPriceCandle3DUtc);
        }
        if str_eq(s, "mark-price-candle5Dutc") {
            proof {
                mark_price_name_identifies(MarkPriceChannel::MarkPriceCandle5DUtc);
            }
            return Some(MarkPriceChannel::MarkPriceCandle5DUtc);
        }
        if str_eq(s, "mark-price-candle12Hutc") {
            proof {
                mark_price_name_identifies(MarkPriceChannel::MarkPriceCandle12HUtc);
            }
            return Some(MarkPriceChannel::MarkPriceCandle12HUtc);
        }
        if str_eq(s, "mark-price-candle6Hutc") {
            proof {
                mark_price_name_identifies(MarkPriceChannel::MarkPriceCandle6HUtc);
            }
            return Some(MarkPriceChannel::MarkPriceCandle6HUtc);
        }
        proof {
            assert forall|c: Self| #[trigger] c.name() != s@ by {
                match c {
                    MarkPriceChannel::MarkPriceCandle3M => {},
                    MarkPriceChannel::MarkPriceCandle1M => {},
                    MarkPriceChannel::MarkPriceCandle1W => {},
                    MarkPriceChannel::MarkPriceCandle1D => {},
                    MarkPriceChannel::MarkPriceCandle2D => {},
                    MarkPriceChannel::MarkPriceCandle3D => {},
                    MarkPriceChannel::MarkPriceCandle5D => {},
                    MarkPriceChannel::MarkPriceCandle12H => {},
                    MarkPriceChannel::MarkPriceCandle6H => {},
                    MarkPriceChannel::MarkPriceCandle4H => {},
                    MarkPriceChannel::MarkPriceCandle2H => {},
                    MarkPriceChannel::MarkPriceCandle1H => {},
                    MarkPriceChannel::MarkPriceCandle30m => {},
                    MarkPriceChannel::MarkPriceCandle15m => {},
                    MarkPriceChannel::MarkPriceCandle5m => {},
                    MarkPriceChannel::MarkPriceCandle3m => {},
                    MarkPriceChannel::MarkPriceCandle1m => {},
                    MarkPriceChannel::MarkPriceCandle3MUtc => {},
                    MarkPriceChannel::MarkPriceCandle1MUtc => {},
                    MarkPriceChannel::MarkPriceCandle1WUtc => {},
                    MarkPriceChannel::MarkPriceCandle1DUtc => {},
                    MarkPriceChannel::MarkPriceCandle2DUtc => {},
                    MarkPriceChannel::MarkPriceCandle3DUtc => {},
                    MarkPriceChannel::MarkPriceCandle5DUtc => {},
                    MarkPriceChannel::MarkPriceCandle12HUtc => {},
                    MarkPriceChannel::MarkPriceCandle6HUtc => {},
                }
            }
        }
        None
    }
}

impl core::str::FromStr for MarkPriceChannel {
    type Err = String;

    fn from_str(s: &str) -> Result<Self, String> {
        match Self::parse(s) {
            Some(c) => Ok(c),
            None => Err("Unknown mark price channel: ".to_owned().concat(s)),
        }
    }
}
/// Index candle channels.
#[derive(Clone, Copy, Debug, PartialEq, Eq, Hash, Structural)]
pub enum IndexCandleChannel {
    IndexCandle3M,
    IndexCandle1M,
    IndexCandle1W,
    IndexCandle1D,
    IndexCandle2D,
    IndexCandle3D,
    IndexCandle5D,
    IndexCandle12H,
    IndexCandle6H,
    IndexCandle4H,
    IndexCandle2H,
    IndexCandle1H,
    IndexCandle30m,
    IndexCandle15m,
    IndexCandle5m,
    IndexCandle3m,
    IndexCandle1m,
    IndexCandle3MUtc,
    IndexCandle1MUtc,
    IndexCandle1WUtc,
    IndexCandle1DUtc,
    IndexCandle2DUtc,
    IndexCandle3DUtc,
    IndexCandle5DUtc,
    IndexCandle12HUtc,
    IndexCandle6HUtc,
}

impl IndexCandleChannel {
    /// The wire name of the channel.
    pub open spec fn name(self) -> Seq<char> {
        match self {
            IndexCandleChannel::IndexCandle3M => "index-candle3M"@,
            IndexCandleChannel::IndexCandle1M => "index-candle1M"@,
            IndexCandleChannel::IndexCandle1W => "index-candle1W"@,
            IndexCandleChannel::IndexCandle1D => "index-candle1D"@,
            IndexCandleChannel::IndexCandle2D => "index-candle2D"@,
            IndexCandleChannel::IndexCandle3D => "index-candle3D"@,
            IndexCandleChannel::IndexCandle5D => "index-candle5D"@,
            IndexCandleChannel::IndexCandle12H => "index-candle12H"@,
            IndexCandleChannel::IndexCandle6H => "index-candle6H"@,
            IndexCandleChannel::IndexCandle4H => "index-candle4H"@,
            IndexCandleChannel::IndexCandle2H => "index-candle2H"@,
            IndexCandleChannel::IndexCandle1H => "index-candle1H"@,
            IndexCandleChannel::IndexCandle30m => "index-candle30m"@,
            IndexCandleChannel::IndexCandle15m => "index-candle15m"@,
            IndexCandleChannel::IndexCandle5m => "index-candle5m"@,
            IndexCandleChannel::IndexCandle3m => "index-candle3m"@,
            IndexCandleChannel::IndexCandle1m => "index-candle1m"@,
            IndexCandleChannel::IndexCandle3MUtc => "index-candle3Mutc"@,
            IndexCandleChannel::IndexCandle1MUtc => "index-candle1Mutc"@,
            IndexCandleChannel::IndexCandle1WUtc => "index-candle1Wutc"@,
            IndexCandleChannel::IndexCandle1DUtc => "index-candle1Dutc"@,
            IndexCandleChannel::IndexCandle2DUtc => "index-candle2Dutc"@,
            IndexCandleChannel::IndexCandle3DUtc => "index-candle3Dutc"@,
            IndexCandleChannel::IndexCandle5DUtc => "index-candle5Dutc"@,
            IndexCandleChannel::IndexCandle12HUtc => "index-candle12Hutc"@,
            IndexCandleChannel::IndexCandle6HUtc => "index-candle6Hutc"@,
        }
    }

    /// The length of one candle in seconds (a month counts 30 days).
    pub open spec fn seconds(self) -> u64 {
        match self {
            IndexCandleChannel::IndexCandle3M => 7776000,
            IndexCandleChannel::IndexCandle1M => 2592000,
            IndexCandleChannel::IndexCandle1W => 604800,
            IndexCandleChannel::IndexCandle1D => 86400,
            IndexCandleChannel::IndexCandle2D => 172800,
            IndexCandleChannel::IndexCandle3D => 259200,
            IndexCandleChannel::IndexCandle5D => 432000,
            IndexCandleChannel::IndexCandle12H => 43200,
            IndexCandleChannel::IndexCandle6H => 21600,
            IndexCandleChannel::IndexCandle4H => 14400,
            IndexCandleChannel::IndexCandle2H => 7200,
            IndexCandleChannel::IndexCandle1H => 3600,
            IndexCandleChannel::IndexCandle30m => 1800,
            IndexCandleChannel::IndexCandle15m => 900,
            IndexCandleChannel::IndexCandle5m => 300,
            IndexCandleChannel::IndexCandle3m => 180,
            IndexCandleChannel::IndexCandle1m => 60,
            IndexCandleChannel::IndexCandle3MUtc => 7776000,
            IndexCandleChannel::IndexCandle1MUtc => 2592000,
            IndexCandleChannel::IndexCandle1WUtc => 604800,
            IndexCandleChannel::IndexCandle1DUtc => 86400,
            IndexCandleChannel::IndexCandle2DUtc => 172800,
            IndexCandleChannel::IndexCandle3DUtc => 259200,
            IndexCandleChannel::IndexCandle5DUtc => 432000,
            IndexCandleChannel::IndexCandle12HUtc => 43200,
            IndexCandleChannel::IndexCandle6HUtc => 21600,
        }
    }

    /// Whether the candles are aligned to UTC rather than to local time.
    pub open spec fn utc(self) -> bool {
        match self {
            IndexCandleChannel::IndexCandle3M => false,
            IndexCandleChannel::IndexCandle1M => false,
            IndexCandleChannel::IndexCandle1W => false,
            IndexCandleChannel::IndexCandle1D => false,
            IndexCandleChannel::IndexCandle2D => false,
            IndexCandleChannel::IndexCandle3D => false,
            IndexCandleChannel::IndexCandle5D => false,
            IndexCandleChannel::IndexCandle12H => false,
            IndexCandleChannel::IndexCandle6H => false,
            IndexCandleChannel::IndexCandle4H => false,
            IndexCandleChannel::IndexCandle2H => false,
            IndexCandleChannel::IndexCandle1H => false,
            IndexCandleChannel::IndexCandle30m => false,
            IndexCandleChannel::IndexCandle15m => false,
            IndexCandleChannel::IndexCandle5m => false,
            IndexCandleChannel::IndexCandle3m => false,
            IndexCandleChannel::IndexCandle1m => false,
            IndexCandleChannel::IndexCandle3MUtc => true,
            IndexCandleChannel::IndexCandle1MUtc => true,
            IndexCandleChannel::IndexCandle1WUtc => true,
            IndexCandleChannel::IndexCandle1DUtc => true,
            IndexCandleChannel::IndexCandle2DUtc => true,
            IndexCandleChannel::IndexCandle3DUtc => true,
            IndexCandleChannel::IndexCandle5DUtc => true,
            IndexCandleChannel::IndexCandle12HUtc => true,
            IndexCandleChannel::IndexCandle6HUtc => true,
        }
    }

    pub fn as_str(&self) -> (r: &'static str)
        ensures
            r@ == self.name(),
    {
        match self {
            IndexCandleChannel::IndexCandle3M => "index-candle3M",
            IndexCandleChannel::IndexCandle1M => "index-candle1M",
            IndexCandleChannel::IndexCandle1W => "index-candle1W",
            IndexCandleChannel::IndexCandle1D => "index-candle1D",
            IndexCandleChannel::IndexCandle2D => "index-candle2D",
            IndexCandleChannel::IndexCandle3D => "index-candle3D",
            IndexCandleChannel::IndexCandle5D => "index-candle5D",
            IndexCandleChannel::IndexCandle12H => "index-candle12H",
            IndexCandleChannel::IndexCandle6H => "index-candle6H",
            IndexCandleChannel::IndexCandle4H => "index-candle4H",
            IndexCandleChannel::IndexCandle2H => "index-candle2H",
            IndexCandleChannel::IndexCandle1H => "index-candle1H",
            IndexCandleChannel::IndexCandle30m => "index-candle30m",
            IndexCandleChannel::IndexCandle15m => "index-candle15m",
            IndexCandleChannel::IndexCandle5m => "index-candle5m",
            IndexCandleChannel::IndexCandle3m => "index-candle3m",
            IndexCandleChannel::IndexCandle1m => "index-candle1m",
            IndexCandleChannel::IndexCandle3MUtc => "index-candle3Mutc",
            IndexCandleChannel::IndexCandle1MUtc => "index-candle1Mutc",
            IndexCandleChannel::IndexCandle1WUtc => "index-candle1Wutc",
            IndexCandleChannel::IndexCandle1DUtc => "index-candle1Dutc",
            IndexCandleChannel::IndexCandle2DUtc => "index-candle2Dutc",
            IndexCandleChannel::IndexCandle3DUtc => "index-candle3Dutc",
            IndexCandleChannel::IndexCandle5DUtc => "index-candle5Dutc",
            IndexCandleChannel::IndexCandle12HUtc => "index-candle12Hutc",
            IndexCandleChannel::IndexCandle6HUtc => "index-candle6Hutc",
        }
    }

    pub fn interval_seconds(&self) -> (r: u64)
        ensures
            r == self.seconds(),
    {
        match self {
            IndexCandleChannel::IndexCandle3M => 7776000,
            IndexCandleChannel::IndexCandle1M => 2592000,
            IndexCandleChannel::IndexCandle1W => 604800,
            IndexCandleChannel::IndexCandle1D => 86400,
            IndexCandleChannel::IndexCandle2D => 172800,
            IndexCandleChannel::IndexCandle3D => 259200,
            IndexCandleChannel::IndexCandle5D => 432000,
            IndexCandleChannel::IndexCandle12H => 43200,
            IndexCandleChannel::IndexCandle6H => 21600,
            IndexCandleChannel::IndexCandle4H => 14400,
            IndexCandleChannel::IndexCandle2H => 7200,
            IndexCandleChannel::IndexCandle1H => 3600,
            IndexCandleChannel::IndexCandle30m => 1800,
            IndexCandleChannel::IndexCandle15m => 900,
            IndexCandleChannel::IndexCandle5m => 300,
            IndexCandleChannel::IndexCandle3m => 180,
            IndexCandleChannel::IndexCandle1m => 60,
            IndexCandleChannel::IndexCandle3MUtc => 7776000,
            IndexCandleChannel::IndexCandle1MUtc => 2592000,
            IndexCandleChannel::IndexCandle1WUtc => 604800,
            IndexCandleChannel::IndexCandle1DUtc => 86400,
            IndexCandleChannel::IndexCandle2DUtc => 172800,
            IndexCandleChannel::IndexCandle3DUtc => 259200,
            IndexCandleChannel::IndexCandle5DUtc => 432000,
            IndexCandleChannel::IndexCandle12HUtc => 43200,
            IndexCandleChannel::IndexCandle6HUtc => 21600,
        }
    }

    pub fn is_utc(&self) -> (r: bool)
        ensures
            r == self.utc(),
    {
        match self {
            IndexCandleChannel::IndexCandle3M => false,
            IndexCandleChannel::IndexCandle1M => false,
            IndexCandleChannel::IndexCandle1W => false,
            IndexCandleChannel::IndexCandle1D => false,
            IndexCandleChannel::IndexCandle2D => false,
            IndexCandleChannel::IndexCandle3D => false,
            IndexCandleChannel::IndexCandle5D => false,
            IndexCandleChannel::IndexCandle12H => false,
            IndexCandleChannel::IndexCandle6H => false,
            IndexCandleChannel::IndexCandle4H => false,
            IndexCandleChannel::IndexCandle2H => false,
            IndexCandleChannel::IndexCandle1H => false,
            IndexCandleChannel::IndexCandle30m => false,
            IndexCandleChannel::IndexCandle15m => false,
            IndexCandleChannel::IndexCandle5m => false,
            IndexCandleChannel::IndexCandle3m => false,
            IndexCandleChannel::IndexCandle1m => false,
            IndexCandleChannel::IndexCandle3MUtc => true,
            IndexCandleChannel::IndexCandle1MUtc => true,
            IndexCandleChannel::IndexCandle1WUtc => true,
            IndexCandleChannel::IndexCandle1DUtc => true,
            IndexCandleChannel::IndexCandle2DUtc => true,
            IndexCandleChannel::IndexCandle3DUtc => true,
            IndexCandleChannel::IndexCandle5DUtc => true,
            IndexCandleChannel::IndexCandle12HUtc => true,
            IndexCandleChannel::IndexCandle6HUtc => true,
        }
    }

    /// Every channel, in declaration order.
    pub fn all_channels() -> (r: Vec<Self>)
        ensures
            r@ == seq![IndexCandleChannel::IndexCandle3M, IndexCandleChannel::IndexCandle1M, IndexCandleChannel::IndexCandle1W, IndexCandleChannel::IndexCandle1D, IndexCandleChannel::IndexCandle2D, IndexCandleChannel::IndexCandle3D, IndexCandleChannel::IndexCandle5D, IndexCandleChannel::IndexCandle12H, IndexCandleChannel::IndexCandle6H, IndexCandleChannel::IndexCandle4H, IndexCandleChannel::IndexCandle2H, IndexCandleChannel::IndexCandle1H, IndexCandleChannel::IndexCandle30m, IndexCandleChannel::IndexCandle15m, IndexCandleChannel::IndexCandle5m, IndexCandleChannel::IndexCandle3m, IndexCandleChannel::IndexCandle1m, IndexCandleChannel::IndexCandle3MUtc, IndexCandleChannel::IndexCandle1MUtc, IndexCandleChannel::IndexCandle1WUtc, IndexCandleChannel::IndexCandle1DUtc, IndexCandleChannel::IndexCandle2DUtc, IndexCandleChannel::IndexCandle3DUtc, IndexCandleChannel::IndexCandle5DUtc, IndexCandleChannel::IndexCandle12HUtc, IndexCandleChannel::IndexCandle6HUtc],
    {
        vec![IndexCandleChannel::IndexCandle3M, IndexCandleChannel::IndexCandle1M, IndexCandleChannel::IndexCandle1W, IndexCandleChannel::IndexCandle1D, IndexCandleChannel::IndexCandle2D, IndexCandleChannel::IndexCandle3D, IndexCandleChannel::IndexCandle5D, IndexCandleChannel::IndexCandle12H, IndexCandleChannel::IndexCandle6H, IndexCandleChannel::IndexCandle4H, IndexCandleChannel::IndexCandle2H, IndexCandleChannel::IndexCandle1H, IndexCandleChannel::IndexCandle30m, IndexCandleChannel::IndexCandle15m, IndexCandleChannel::IndexCandle5m, IndexCandleChannel::IndexCandle3m, IndexCandleChannel::IndexCandle1m, IndexCandleChannel::IndexCandle3MUtc, IndexCandleChannel::IndexCandle1MUtc, IndexCandleChannel::IndexCandle1WUtc, IndexCandleChannel::IndexCandle1DUtc, IndexCandleChannel::IndexCandle2DUtc, IndexCandleChannel::IndexCandle3DUtc, IndexCandleChannel::IndexCandle5DUtc, IndexCandleChannel::IndexCandle12HUtc, IndexCandleChannel::IndexCandle6HUtc]
    }

    /// The intervals most often subscribed to.
    pub fn common_intervals() -> (r: Vec<Self>)
        ensures
            r@ == seq![IndexCandleChannel::IndexCandle1m, IndexCandleChannel::IndexCandle5m, IndexCandleChannel::IndexCandle15m, IndexCandleChannel::IndexCandle1H, IndexCandleChannel::IndexCandle4H, IndexCandleChannel::IndexCandle1D, IndexCandleChannel::IndexCandle1W],
    {
        vec![IndexCandleChannel::IndexCandle1m, IndexCandleChannel::IndexCandle5m, IndexCandleChannel::IndexCandle15m, IndexCandleChannel::IndexCandle1H, IndexCandleChannel::IndexCandle4H, IndexCandleChannel::IndexCandle1D, IndexCandleChannel::IndexCandle1W]
    }

    /// Short intervals, for high-frequency use.
    pub fn high_frequency_intervals() -> (r: Vec<Self>)
        ensures
            r@ == seq![IndexCandleChannel::IndexCandle1m, IndexCandleChannel::IndexCandle3m, IndexCandleChannel::IndexCandle5m, IndexCandleChannel::IndexCandle15m, IndexCandleChannel::IndexCandle30m],
    {
        vec![IndexCandleChannel::IndexCandle1m, IndexCandleChannel::IndexCandle3m, IndexCandleChannel::IndexCandle5m, IndexCandleChannel::IndexCandle15m, IndexCandleChannel::IndexCandle30m]
    }

    /// Intervals of hours.
    pub fn medium_frequency_intervals() -> (r: Vec<Self>)
        ensures
            r@ == seq![IndexCandleChannel::IndexCandle1H, IndexCandleChannel::IndexCandle2H, IndexCandleChannel::IndexCandle4H, IndexCandleChannel::IndexCandle6H, IndexCandleChannel::IndexCandle12H],
    {
        vec![IndexCandleChannel::IndexCandle1H, IndexCandleChannel::IndexCandle2H, IndexCandleChannel::IndexCandle4H, IndexCandleChannel::IndexCandle6H, IndexCandleChannel::IndexCandle12H]
    }

    /// Intervals of days and longer.
    pub fn low_frequency_intervals() -> (r: Vec<Self>)
        ensures
            r@ == seq![IndexCandleChannel::IndexCandle1D, IndexCandleChannel::IndexCandle2D, IndexCandleChannel::IndexCandle3D, IndexCandleChannel::IndexCandle5D, IndexCandleChannel::IndexCandle1W, IndexCandleChannel::IndexCandle1M, IndexCandleChannel::IndexCandle3M],
    {
        vec![IndexCandleChannel::IndexCandle1D, IndexCandleChannel::IndexCandle2D, IndexCandleChannel::IndexCandle3D, IndexCandleChannel::IndexCandle5D, IndexCandleChannel::IndexCandle1W, IndexCandleChannel::IndexCandle1M, IndexCandleChannel::IndexCandle3M]
    }

    /// A readable form of the interval.
    pub open spec fn display(self) -> Seq<char> {
        match self {
            IndexCandleChannel::IndexCandle3M => "3 months"@,
            IndexCandleChannel::IndexCandle1M => "1 month"@,
            IndexCandleChannel::IndexCandle1W => "1 week"@,
            IndexCandleChannel::IndexCandle1D => "1 day"@,
            IndexCandleChannel::IndexCandle2D => "2 days"@,
            IndexCandleChannel::IndexCandle3D => "3 days"@,
            IndexCandleChannel::IndexCandle5D => "5 days"@,
            IndexCandleChannel::IndexCandle12H => "12 hours"@,
            IndexCandleChannel::IndexCandle6H => "6 hours"@,
            IndexCandleChannel::IndexCandle4H => "4 hours"@,
            IndexCandleChannel::IndexCandle2H => "2 hours"@,
            IndexCandleChannel::IndexCandle1H => "1 hour"@,
            IndexCandleChannel::IndexCandle30m => "30 minutes"@,
            IndexCandleChannel::IndexCandle15m => "15 minutes"@,
            IndexCandleChannel::IndexCandle5m => "5 minutes"@,
            IndexCandleChannel::IndexCandle3m => "3 minutes"@,
            IndexCandleChannel::IndexCandle1m => "1 minute"@,
            IndexCandleChannel::IndexCandle3MUtc => "3 months (UTC)"@,
            IndexCandleChannel::IndexCandle1MUtc => "1 month (UTC)"@,
            IndexCandleChannel::IndexCandle1WUtc => "1 week (UTC)"@,
            IndexCandleChannel::IndexCandle1DUtc => "1 day (UTC)"@,
            IndexCandleChannel::IndexCandle2DUtc => "2 days (UTC)"@,
            IndexCandleChannel::IndexCandle3DUtc => "3 days (UTC)"@,
            IndexCandleChannel::IndexCandle5DUtc => "5 days (UTC)"@,
            IndexCandleChannel::IndexCandle12HUtc => "12 hours (UTC)"@,
            IndexCandleChannel::IndexCandle6HUtc => "6 hours (UTC)"@,
        }
    }

    pub fn interval_display(&self) -> (r: &'static str)
        ensures
            r@ == self.display(),
    {
        match self {
            IndexCandleChannel::IndexCandle3M => "3 months",
            IndexCandleChannel::IndexCandle1M => "1 month",
            IndexCandleChannel::IndexCandle1W => "1 week",
            IndexCandleChannel::IndexCandle1D => "1 day",
            IndexCandleChannel::IndexCandle2D => "2 days",
            IndexCandleChannel::IndexCandle3D => "3 days",
            IndexCandleChannel::IndexCandle5D => "5 days",
            IndexCandleChannel::IndexCandle12H => "12 hours",
            IndexCandleChannel::IndexCandle6H => "6 hours",
            IndexCandleChannel::IndexCandle4H => "4 hours",
            IndexCandleChannel::IndexCandle2H => "2 hours",
            IndexCandleChannel::IndexCandle1H => "1 hour",
            IndexCandleChannel::IndexCandle30m => "30 minutes",
            IndexCandleChannel::IndexCandle15m => "15 minutes",
            IndexCandleChannel::IndexCandle5m => "5 minutes",
            IndexCandleChannel::IndexCandle3m => "3 minutes",
            IndexCandleChannel::IndexCandle1m => "1 minute",
            IndexCandleChannel::IndexCandle3MUtc => "3 months (UTC)",
            IndexCandleChannel::IndexCandle1MUtc => "1 month (UTC)",
            IndexCandleChannel::IndexCandle1WUtc => "1 week (UTC)",
            IndexCandleChannel::IndexCandle1DUtc => "1 day (UTC)",
            IndexCandleChannel::IndexCandle2DUtc => "2 days (UTC)",
            IndexCandleChannel::IndexCandle3DUtc => "3 days (UTC)",
            IndexCandleChannel::IndexCandle5DUtc => "5 days (UTC)",
            IndexCandleChannel::IndexCandle12HUtc => "12 hours (UTC)",
            IndexCandleChannel::IndexCandle6HUtc => "6 hours (UTC)",
        }
    }

    /// The unit of the interval.
    pub open spec fn kind(self) -> IntervalType {
        match self {
            IndexCandleChannel::IndexCandle3M => IntervalType::Month,
            IndexCandleChannel::IndexCandle1M => IntervalType::Month,
            IndexCandleChannel::IndexCandle1W => IntervalType::Week,
            IndexCandleChannel::IndexCandle1D => IntervalType::Day,
            IndexCandleChannel::IndexCandle2D => IntervalType::Day,
            IndexCandleChannel::IndexCandle3D => IntervalType::Day,
            IndexCandleChannel::IndexCandle5D => IntervalType::Day,
            IndexCandleChannel::IndexCandle12H => IntervalType::Hour,
            IndexCandleChannel::IndexCandle6H => IntervalType::Hour,
            IndexCandleChannel::IndexCandle4H => IntervalType::Hour,
            IndexCandleChannel::IndexCandle2H => IntervalType::Hour,
            IndexCandleChannel::IndexCandle1H => IntervalType::Hour,
            IndexCandleChannel::IndexCandle30m => IntervalType::Minute,
            IndexCandleChannel::IndexCandle15m => IntervalType::Minute,
            IndexCandleChannel::IndexCandle5m => IntervalType::Minute,
            IndexCandleChannel::IndexCandle3m => IntervalType::Minute,
            IndexCandleChannel::IndexCandle1m => IntervalType::Minute,
            IndexCandleChannel::IndexCandle3MUtc => IntervalType::Month,
            IndexCandleChannel::IndexCandle1MUtc => IntervalType::Month,
            IndexCandleChannel::IndexCandle1WUtc => IntervalType::Week,
            IndexCandleChannel::IndexCandle1DUtc => IntervalType::Day,
            IndexCandleChannel::IndexCandle2DUtc => IntervalType::Day,
            IndexCandleChannel::IndexCandle3DUtc => IntervalType::Day,
            IndexCandleChannel::IndexCandle5DUtc => IntervalType::Day,
            IndexCandleChannel::IndexCandle12HUtc => IntervalType::Hour,
            IndexCandleChannel::IndexCandle6HUtc => IntervalType::Hour,
        }
    }

    pub fn interval_type(&self) -> (r: IntervalType)
        ensures
            r == self.kind(),
    {
        match self {
            IndexCandleChannel::IndexCandle3M => IntervalType::Month,
            IndexCandleChannel::IndexCandle1M => IntervalType::Month,
            IndexCandleChannel::IndexCandle1W => IntervalType::Week,
            IndexCandleChannel::IndexCandle1D => IntervalType::Day,
            IndexCandleChannel::IndexCandle2D => IntervalType::Day,
            IndexCandleChannel::IndexCandle3D => IntervalType::Day,
            IndexCandleChannel::IndexCandle5D => IntervalType::Day,
            IndexCandleChannel::IndexCandle12H => IntervalType::Hour,
            IndexCandleChannel::IndexCandle6H => IntervalType::Hour,
            IndexCandleChannel::IndexCandle4H => IntervalType::Hour,
            IndexCandleChannel::IndexCandle2H => IntervalType::Hour,
            IndexCandleChannel::IndexCandle1H => IntervalType::Hour,
            IndexCandleChannel::IndexCandle30m => IntervalType::Minute,
            IndexCandleChannel::IndexCandle15m => IntervalType::Minute,
            IndexCandleChannel::IndexCandle5m => IntervalType::Minute,
            IndexCandleChannel::IndexCandle3m => IntervalType::Minute,
            IndexCandleChannel::IndexCandle1m => IntervalType::Minute,
            IndexCandleChannel::IndexCandle3MUtc => IntervalType::Month,
            IndexCandleChannel::IndexCandle1MUtc => IntervalType::Month,
            IndexCandleChannel::IndexCandle1WUtc => IntervalType::Week,
            IndexCandleChannel::IndexCandle1DUtc => IntervalType::Day,
            IndexCandleChannel::IndexCandle2DUtc => IntervalType::Day,
            IndexCandleChannel::IndexCandle3DUtc => IntervalType::Day,
            IndexCandleChannel::IndexCandle5DUtc => IntervalType::Day,
            IndexCandleChannel::IndexCandle12HUtc => IntervalType::Hour,
            IndexCandleChannel::IndexCandle6HUtc => IntervalType::Hour,
        }
    }

    /// The UTC-aligned counterpart, where the exchange offers one.
    pub open spec fn utc_of(self) -> Option<Self> {
        match self {
            IndexCandleChannel::IndexCandle3M => Some(IndexCandleChannel::IndexCandle3MUtc),
            IndexCandleChannel::IndexCandle1M => Some(IndexCandleChannel::IndexCandle1MUtc),
            IndexCandleChannel::IndexCandle1W => Some(IndexCandleChannel::IndexCandle1WUtc),
            IndexCandleChannel::IndexCandle1D => Some(IndexCandleChannel::IndexCandle1DUtc),
            IndexCandleChannel::IndexCandle2D => Some(IndexCandleChannel::IndexCandle2DUtc),
            IndexCandleChannel::IndexCandle3D => Some(IndexCandleChannel::IndexCandle3DUtc),
            IndexCandleChannel::IndexCandle5D => Some(IndexCandleChannel::IndexCandle5DUtc),
            IndexCandleChannel::IndexCandle12H => Some(IndexCandleChannel::IndexCandle12HUtc),
            IndexCandleChannel::IndexCandle6H => Some(IndexCandleChannel::IndexCandle6HUtc),
            _ => None,
        }
    }

    /// The locally aligned counterpart of a UTC-aligned channel.
    pub open spec fn local_of(self) -> Option<Self> {
        match self {
            IndexCandleChannel::IndexCandle3MUtc => Some(IndexCandleChannel::IndexCandle3M),
            IndexCandleChannel::IndexCandle1MUtc => Some(IndexCandleChannel::IndexCandle1M),
            IndexCandleChannel::IndexCandle1WUtc => Some(IndexCandleChannel::IndexCandle1W),
            IndexCandleChannel::IndexCandle1DUtc => Some(IndexCandleChannel::IndexCandle1D),
            IndexCandleChannel::IndexCandle2DUtc => Some(IndexCandleChannel::IndexCandle2D),
            IndexCandleChannel::IndexCandle3DUtc => Some(IndexCandleChannel::IndexCandle3D),
            IndexCandleChannel::IndexCandle5DUtc => Some(IndexCandleChannel::IndexCandle5D),
            IndexCandleChannel::IndexCandle12HUtc => Some(IndexCandleChannel::IndexCandle12H),
            IndexCandleChannel::IndexCandle6HUtc => Some(IndexCandleChannel::IndexCandle6H),
            _ => None,
        }
    }

    pub fn to_utc(&self) -> (r: Option<Self>)
        ensures
            r == self.utc_of(),
    {
        match self {
            IndexCandleChannel::IndexCandle3M => Some(IndexCandleChannel::IndexCandle3MUtc),
            IndexCandleChannel::IndexCandle1M => Some(IndexCandleChannel::IndexCandle1MUtc),
            IndexCandleChannel::IndexCandle1W => Some(IndexCandleChannel::IndexCandle1WUtc),
            IndexCandleChannel::IndexCandle1D => Some(IndexCandleChannel::IndexCandle1DUtc),
            IndexCandleChannel::IndexCandle2D => Some(IndexCandleChannel::IndexCandle2DUtc),
            IndexCandleChannel::IndexCandle3D => Some(IndexCandleChannel::IndexCandle3DUtc),
            IndexCandleChannel::IndexCandle5D => Some(IndexCandleChannel::IndexCandle5DUtc),
            IndexCandleChannel::IndexCandle12H => Some(IndexCandleChannel::IndexCandle12HUtc),
            IndexCandleChannel::IndexCandle6H => Some(IndexCandleChannel::IndexCandle6HUtc),
            _ => None,
        }
    }

    pub fn to_local(&self) -> (r: Option<Self>)
        ensures
            r == self.local_of(),
    {
        match self {
            IndexCandleChannel::IndexCandle3MUtc => Some(IndexCandleChannel::IndexCandle3M),
            IndexCandleChannel::IndexCandle1MUtc => Some(IndexCandleChannel::IndexCandle1M),
            IndexCandleChannel::IndexCandle1WUtc => Some(IndexCandleChannel::IndexCandle1W),
            IndexCandleChannel::IndexCandle1DUtc => Some(IndexCandleChannel::IndexCandle1D),
            IndexCandleChannel::IndexCandle2DUtc => Some(IndexCandleChannel::IndexCandle2D),
            IndexCandleChannel::IndexCandle3DUtc => Some(IndexCandleChannel::IndexCandle3D),
            IndexCandleChannel::IndexCandle5DUtc => Some(IndexCandleChannel::IndexCandle5D),
            IndexCandleChannel::IndexCandle12HUtc => Some(IndexCandleChannel::IndexCandle12H),
            IndexCandleChannel::IndexCandle6HUtc => Some(IndexCandleChannel::IndexCandle6H),
            _ => None,
        }
    }

    /// The channel with the given wire name, if there is one.
    pub fn parse(s: &str) -> (r: Option<Self>)
        ensures
            match r {
                Some(c) => c.name() == s@,
                None => forall|c: Self| #[trigger] c.name() != s@,
            },
            forall|c: Self| #[trigger] c.name() == s@ ==> r == Some(c),
    {
        if str_eq(s, "index-candle3M") {
            proof {
                index_candle_name_identifies(IndexCandleChannel::IndexCandle3M);
            }
            return Some(IndexCandleChannel::IndexCandle3M);
        }
        if str_eq(s, "index-candle1M") {
            proof {
                index_candle_name_identifies(IndexCandleChannel::IndexCandle1M);
            }
            return Some(IndexCandleChannel::IndexCandle1M);
        }
        if str_eq(s, "index-candle1W") {
            proof {
                index_candle_name_identifies(IndexCandleChannel::IndexCandle1W);
            }
            return Some(IndexCandleChannel::IndexCandle1W);
        }
        if str_eq(s, "index-candle1D") {
            proof {
                index_candle_name_identifies(IndexCandleChannel::IndexCandle1D);
            }
            return Some(IndexCandleChannel::IndexCandle1D);
        }
        if str_eq(s, "index-candle2D") {
            proof {
                index_candle_name_identifies(IndexCandleChannel::IndexCandle2D);
            }
            return Some(IndexCandleChannel::IndexCandle2D);
        }
        if str_eq(s, "index-candle3D") {
            proof {
                index_candle_name_identifies(IndexCandleChannel::IndexCandle3D);
            }
            return Some(IndexCandleChannel::IndexCandle3D);
        }
        if str_eq(s, "index-candle5D") {
            proof {
                index_candle_name_identifies(IndexCandleChannel::IndexCandle5D);
            }
            return Some(IndexCandleChannel::IndexCandle5D);
        }
        if str_eq(s, "index-candle12H") {
            proof {
                index_candle_name_identifies(IndexCandleChannel::IndexCandle12H);
            }
            return Some(IndexCandleChannel::IndexCandle12H);
        }
        if str_eq(s, "index-candle6H") {
            proof {
                index_candle_name_identifies(IndexCandleChannel::IndexCandle6H);
            }
            return Some(IndexCandleChannel::IndexCandle6H);
        }
        if str_eq(s, "index-candle4H") {
            proof {
                index_candle_name_identifies(IndexCandleChannel::IndexCandle4H);
            }
            return Some(IndexCandleChannel::IndexCandle4H);
        }
        if str_eq(s, "index-candle2H") {
            proof {
                index_candle_name_identifies(IndexCandleChannel::IndexCandle2H);
            }
            return Some(IndexCandleChannel::IndexCandle2H);
        }
        if str_eq(s, "index-candle1H") {
            proof {
                index_candle_name_identifies(IndexCandleChannel::IndexCandle1H);
            }
            return Some(IndexCandleChannel::IndexCandle1H);
        }
        if str_eq(s, "index-candle30m") {
            proof {
                index_candle_name_identifies(IndexCandleChannel::IndexCandle30m);
            }
            return Some(IndexCandleChannel::IndexCandle30m);
        }
        if str_eq(s, "index-candle15m") {
            proof {
                index_candle_name_identifies(IndexCandleChannel::IndexCandle15m);
            }
            return Some(IndexCandleChannel::IndexCandle15m);
        }
        if str_eq(s, "index-candle5m") {
            proof {
                index_candle_name_identifies(IndexCandleChannel::IndexCandle5m);
            }
            return Some(IndexCandleChannel::IndexCandle5m);
        }
        if str_eq(s, "index-candle3m") {
            proof {
                index_candle_name_identifies(IndexCandleChannel::IndexCandle3m);
            }
            return Some(IndexCandleChannel::IndexCandle3m);
        }
        if str_eq(s, "index-candle1m") {
            proof {
                index_candle_name_identifies(IndexCandleChannel::IndexCandle1m);
            }
            return Some(IndexCandleChannel::IndexCandle1m);
        }
        if str_eq(s, "index-candle3Mutc") {
            proof {
                index_candle_name_identifies(IndexCandleChannel::IndexCandle3MUtc);
            }
            return Some(IndexCandleChannel::IndexCandle3MUtc);
        }
        if str_eq(s, "index-candle1Mutc") {
            proof {
                index_candle_name_identifies(IndexCandleChannel::IndexCandle1MUtc);
            }
            return Some(IndexCandleChannel::IndexCandle1MUtc);
        }
        if str_eq(s, "index-candle1Wutc") {
            proof {
                index_candle_name_identifies(IndexCandleChannel::IndexCandle1WUtc);
            }
            return Some(IndexCandleChannel::IndexCandle1WUtc);
        }
        if str_eq(s, "index-candle1Dutc") {
            proof {
                index_candle_name_identifies(IndexCandleChannel::IndexCandle1DUtc);
            }
            return Some(IndexCandleChannel::IndexCandle1DUtc);
        }
        if str_eq(s, "index-candle2Dutc") {
            proof {
                index_candle_name_identifies(IndexCandleChannel::IndexCandle2DUtc);
            }
            return Some(IndexCandleChannel::IndexCandle2DUtc);
        }
        if str_eq(s, "index-candle3Dutc") {
            proof {
                index_candle_name_identifies(IndexCandleChannel::IndexCandle3DUtc);
            }
            return Some(IndexCandleChannel::IndexCandle3DUtc);
        }
        if str_eq(s, "index-candle5Dutc") {
            proof {
                index_candle_name_identifies(IndexCandleChannel::IndexCandle5DUtc);
            }
            return Some(IndexCandleChannel::IndexCandle5DUtc);
        }
        if str_eq(s, "index-candle12Hutc") {
            proof {
                index_candle_name_identifies(IndexCandleChannel::IndexCandle12HUtc);
            }
            return Some(IndexCandleChannel::IndexCandle12HUtc);
        }
        if str_eq(s, "index-candle6Hutc") {
            proof {
                index_candle_name_identifies(IndexCandleChannel::IndexCandle6HUtc);
            }
            return Some(IndexCandleChannel::IndexCandle6HUtc);
        }
        proof {
            assert forall|c: Self| #[trigger] c.name() != s@ by {
                match c {
                    IndexCandleChannel::IndexCandle3M => {},
                    IndexCandleChannel::IndexCandle1M => {},
                    IndexCandleChannel::IndexCandle1W => {},
                    IndexCandleChannel::IndexCandle1D => {},
                    IndexCandleChannel::IndexCandle2D => {},
                    IndexCandleChannel::IndexCandle3D => {},
                    IndexCandleChannel::IndexCandle5D => {},
                    IndexCandleChannel::IndexCandle12H => {},
                    IndexCandleChannel::IndexCandle6H => {},
                    IndexCandleChannel::IndexCandle4H => {},
                    IndexCandleChannel::IndexCandle2H => {},
                    IndexCandleChannel::IndexCandle1H => {},
                    IndexCandleChannel::IndexCandle30m => {},
                    IndexCandleChannel::IndexCandle15m => {},
                    IndexCandleChannel::IndexCandle5m => {},
                    IndexCandleChannel::IndexCandle3m => {},
                    IndexCandleChannel::IndexCandle1m => {},
                    IndexCandleChannel::IndexCandle3MUtc => {},
                    IndexCandleChannel::IndexCandle1MUtc => {},
                    IndexCandleChannel::IndexCandle1WUtc => {},
                    IndexCandleChannel::IndexCandle1DUtc => {},
                    IndexCandleChannel::IndexCandle2DUtc => {},
                    IndexCandleChannel::IndexCandle3DUtc => {},
                    IndexCandleChannel::IndexCandle5DUtc => {},
                    IndexCandleChannel::IndexCandle12HUtc => {},
                    IndexCandleChannel::IndexCandle6HUtc => {},
                }
            }
        }
        None
    }
}

impl core::str::FromStr for IndexCandleChannel {
    type Err = String;

    fn from_str(s: &str) -> Result<Self, String> {
        match Self::parse(s) {
            Some(c) => Ok(c),
            None => Err("Unknown index candle channel: ".to_owned().concat(s)),
        }
    }
}

/// A channel's UTC counterpart leads back to it, and has the same interval.
pub proof fn utc_round_trip(c: IndexCandleChannel)
    ensures
        c.utc_of() matches Some(u) ==> u.local_of() == Some(c) && u.seconds() == c.seconds()
            && u.utc(),
{
}

/// A channel is UTC-aligned exactly when it has a local counterpart, which
/// leads back to it and has the same interval.
pub proof fn local_round_trip(c: IndexCandleChannel)
    ensures
        c.utc() <==> c.local_of() is Some,
        c.local_of() matches Some(l) ==> l.utc_of() == Some(c) && l.seconds() == c.seconds(),
{
}

/// Distinct mark-price channels have distinct wire names.
pub proof fn mark_price_names_distinct(a: MarkPriceChannel, b: MarkPriceChannel)
    ensures
        a.name() == b.name() ==> a == b,
{
    if a.name() == b.name() {
        reveal_strlit("mark-price-candle3M");
        reveal_strlit("mark-price-candle1M");
        reveal_strlit("mark-price-candle1W");
        reveal_strlit("mark-price-candle1D");
        reveal_strlit("mark-price-candle2D");
        reveal_strlit("mark-price-candle3D");
        reveal_strlit("mark-price-candle5D");
        reveal_strlit("mark-price-candle12H");
        reveal_strlit("mark-price-candle6H");
        reveal_strlit("mark-price-candle4H");
        reveal_strlit("mark-price-candle2H");
        reveal_strlit("mark-price-candle1H");
        reveal_strlit("mark-price-candle30m");
        reveal_strlit("mark-price-candle15m");
        reveal_strlit("mark-price-candle5m");
        reveal_strlit("mark-price-candle3m");
        reveal_strlit("mark-price-candle1m");
        reveal_strlit("mark-price-candle3Mutc");
        reveal_strlit("mark-price-candle1Mutc");
        reveal_strlit("mark-price-candle1Wutc");
        reveal_strlit("mark-price-candle1Dutc");
        reveal_strlit("mark-price-candle2Dutc");
        reveal_strlit("mark-price-candle3Dutc");
        reveal_strlit("mark-price-candle5Dutc");
        reveal_strlit("mark-price-candle12Hutc");
        reveal_strlit("mark-price-candle6Hutc");
        assert(a.name().len() == b.name().len());
        assert(a.name()[17] == b.name()[17]);
        assert(a.name()[18] == b.name()[18]);
        if a.name().len() > 19 {
            assert(a.name()[19] == b.name()[19]);
        }
    }
}

/// Distinct index candle channels have distinct wire names.
pub proof fn index_candle_names_distinct(a: IndexCandleChannel, b: IndexCandleChannel)
    ensures
        a.name() == b.name() ==> a == b,
{
    if a.name() == b.name() {
        reveal_strlit("index-candle3M");
        reveal_strlit("index-candle1M");
        reveal_strlit("index-candle1W");
        reveal_strlit("index-candle1D");
        reveal_strlit("index-candle2D");
        reveal_strlit("index-candle3D");
        reveal_strlit("index-candle5D");
        reveal_strlit("index-candle12H");
        reveal_strlit("index-candle6H");
        reveal_strlit("index-candle4H");
        reveal_strlit("index-candle2H");
        reveal_strlit("index-candle1H");
        reveal_strlit("index-candle30m");
        reveal_strlit("index-candle15m");
        reveal_strlit("index-candle5m");
        reveal_strlit("index-candle3m");
        reveal_strlit("index-candle1m");
        reveal_strlit("index-candle3Mutc");
        reveal_strlit("index-candle1Mutc");
        reveal_strlit("index-candle1Wutc");
        reveal_strlit("index-candle1Dutc");
        reveal_strlit("index-candle2Dutc");
        reveal_strlit("index-candle3Dutc");
        reveal_strlit("index-candle5Dutc");
        reveal_strlit("index-candle12Hutc");
        reveal_strlit("index-candle6Hutc");
        assert(a.name().len() == b.name().len());
        assert(a.name()[12] == b.name()[12]);
        assert(a.name()[13] == b.name()[13]);
        if a.name().len() > 14 {
            assert(a.name()[14] == b.name()[14]);
        }
    }
}

/// A wire name identifies its channel.
pub proof fn mark_price_name_identifies(x: MarkPriceChannel)
    ensures
        forall|c: MarkPriceChannel| #[trigger] c.name() == x.name() ==> c == x,
{
    assert forall|c: MarkPriceChannel| #[trigger] c.name() == x.name() implies c == x by {
        mark_price_names_distinct(c, x);
    }
}

/// A wire name identifies its channel.
pub proof fn index_candle_name_identifies(x: IndexCandleChannel)
    ensures
        forall|c: IndexCandleChannel| #[trigger] c.name() == x.name() ==> c == x,
{
    assert forall|c: IndexCandleChannel| #[trigger] c.name() == x.name() implies c == x by {
        index_candle_names_distinct(c, x);
    }
}

} // verus!
