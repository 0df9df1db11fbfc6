use quant_exchange::candle::{IndexCandleChannel, IntervalType, MarkPriceChannel};
use quant_exchange::operation::{OkexWsChannel, WebSocketChannelType};
use std::str::FromStr;

#[test]
fn mark_price_names_round_trip() {
    let all = MarkPriceChannel::all_channels();
    assert_eq!(all.len(), 26);
    for c in all {
        assert_eq!(MarkPriceChannel::parse(c.as_str()), Some(c));
        assert_eq!(MarkPriceChannel::from_str(c.as_str()), Ok(c));
    }
    assert_eq!(MarkPriceChannel::MarkPriceCandle3MUtc.as_str(), "mark-price-candle3Mutc");
    assert_eq!(
        MarkPriceChannel::from_str("mark-price-candle7m"),
        Err("Unknown mark price channel: mark-price-candle7m".to_string())
    );
}

#[test]
fn index_candle_names_round_trip() {
    for c in IndexCandleChannel::all_channels() {
        assert_eq!(IndexCandleChannel::parse(c.as_str()), Some(c));
    }
    assert_eq!(IndexCandleChannel::parse("index-candle"), None);
    assert_eq!(
        IndexCandleChannel::from_str("x"),
        Err("Unknown index candle channel: x".to_string())
    );
}

#[test]
fn intervals_in_seconds() {
    assert_eq!(MarkPriceChannel::MarkPriceCandle1m.interval_seconds(), 60);
    assert_eq!(MarkPriceChannel::MarkPriceCandle1M.interval_seconds(), 2592000);
    assert_eq!(MarkPriceChannel::MarkPriceCandle12HUtc.interval_seconds(), 43200);
    assert_eq!(IndexCandleChannel::IndexCandle3M.interval_seconds(), 7776000);
    assert_eq!(IndexCandleChannel::IndexCandle15m.interval_seconds(), 900);
    assert!(MarkPriceChannel::MarkPriceCandle1DUtc.is_utc());
    assert!(!MarkPriceChannel::MarkPriceCandle1D.is_utc());
}

#[test]
fn utc_counterparts() {
    for c in IndexCandleChannel::all_channels() {
        if let Some(u) = c.to_utc() {
            assert!(u.is_utc());
            assert_eq!(u.to_local(), Some(c));
            assert_eq!(u.interval_seconds(), c.interval_seconds());
        }
        assert_eq!(c.is_utc(), c.to_local().is_some());
    }
    assert_eq!(IndexCandleChannel::IndexCandle4H.to_utc(), None);
}

#[test]
fn interval_groups_and_display() {
    assert_eq!(IndexCandleChannel::IndexCandle1m.interval_display(), "1 minute");
    assert_eq!(IndexCandleChannel::IndexCandle3MUtc.interval_display(), "3 months (UTC)");
    assert_eq!(IndexCandleChannel::IndexCandle12HUtc.interval_type(), IntervalType::Hour);
    assert_eq!(IndexCandleChannel::IndexCandle1WUtc.interval_type(), IntervalType::Week);
    for c in IndexCandleChannel::high_frequency_intervals() {
        assert_eq!(c.interval_type(), IntervalType::Minute);
    }
    for c in IndexCandleChannel::medium_frequency_intervals() {
        assert_eq!(c.interval_type(), IntervalType::Hour);
    }
    assert_eq!(IndexCandleChannel::low_frequency_intervals().len(), 7);
    assert_eq!(IndexCandleChannel::common_intervals()[0], IndexCandleChannel::IndexCandle1m);
    assert_eq!(MarkPriceChannel::common_intervals().len(), 7);
}

#[test]
fn channel_kind_paths() {
    assert_eq!(WebSocketChannelType::Public.as_str(), "/public");
    assert_eq!(WebSocketChannelType::Private.as_str(), "/private");
    assert_eq!(WebSocketChannelType::Business.as_str(), "/business");
    assert_eq!(OkexWsChannel::LiquidationWarning.as_str(), "liquidation-warning");
}
