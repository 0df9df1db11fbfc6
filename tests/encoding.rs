use quant_exchange::args::{
    AccountArg, BalanceAndPositionArg, InstrumentType, LoginArgs, OrderArg, PositionArg, WsArg,
    WsPrivateArg, WsPublicArg, WsPublicInstFamilyArg, WsPublicInstIdArg, WsPublicInstTypeArg,
};
use quant_exchange::candle::{IndexCandleChannel, MarkPriceChannel};
use quant_exchange::error::Error;
use quant_exchange::operation::Operation;
use quant_exchange::request::{build_args, build_request_body, encode_request};

fn inst(id: &str) -> WsPublicInstIdArg {
    WsPublicInstIdArg { inst_id: id.to_string() }
}

fn order() -> WsArg {
    WsArg::Private(WsPrivateArg::Order(OrderArg {
        inst_type: InstrumentType::SPOT,
        inst_id: Some("BTC-USDT".to_string()),
        inst_family: None,
    }))
}

fn other_text(r: Result<String, Error>) -> String {
    match r {
        Err(Error::Other(m)) => m,
        other => panic!("unexpected {:?}", other),
    }
}

#[test]
fn subscribe_public_mark_price_frame() {
    let args = vec![WsArg::Public(WsPublicArg::MarkPrice(inst("BTC-USD-SWAP")))];
    let frame = encode_request(&Operation::Subscribe, &args).unwrap();
    assert_eq!(
        frame,
        r#"{"id":null,"op":"subscribe","args":[{"channel":"mark-price","instId":"BTC-USD-SWAP"}]}"#
    );
}

#[test]
fn unsubscribe_keeps_argument_order() {
    let args = vec![
        WsArg::Public(WsPublicArg::FundingRate(inst("A"))),
        WsArg::Public(WsPublicArg::OpenInterest(inst("B"))),
    ];
    let body = build_request_body(&Operation::Unsubscribe, &args).unwrap();
    assert_eq!(body.id, None);
    assert_eq!(body.op, Operation::Unsubscribe);
    assert_eq!(
        body.args,
        vec![
            r#"{"channel":"funding-rate","instId":"A"}"#.to_string(),
            r#"{"channel":"open-interest","instId":"B"}"#.to_string(),
        ]
    );
    assert_eq!(
        body.to_text(),
        r#"{"id":null,"op":"unsubscribe","args":[{"channel":"funding-rate","instId":"A"},{"channel":"open-interest","instId":"B"}]}"#
    );
}

#[test]
fn category_mixing_rejected() {
    let args = vec![WsArg::Public(WsPublicArg::MarkPrice(inst("BTC-USD-SWAP"))), order()];
    assert_eq!(
        other_text(encode_request(&Operation::Subscribe, &args)),
        "Too many argument categories provided"
    );
}

#[test]
fn business_arguments_rejected() {
    let args = vec![WsArg::Business];
    assert_eq!(
        other_text(encode_request(&Operation::Subscribe, &args)),
        "Business arguments are not supported"
    );
    let mixed = vec![WsArg::Public(WsPublicArg::MarkPrice(inst("X"))), WsArg::Business];
    assert_eq!(
        other_text(encode_request(&Operation::Subscribe, &mixed)),
        "Business arguments are not supported"
    );
}

#[test]
fn login_needs_exactly_one_login_argument() {
    assert_eq!(
        other_text(encode_request(&Operation::Login, &[])),
        "Login operation requires exactly one argument"
    );
    assert_eq!(
        other_text(encode_request(&Operation::Login, &[order()])),
        "Login operation requires exactly one argument"
    );
}

#[test]
fn login_argument_encoding() {
    let login = WsArg::Private(WsPrivateArg::Login(LoginArgs {
        api_key: "k".to_string(),
        passphrase: "p".to_string(),
        timestamp: 1700000000,
        sign: "c2ln".to_string(),
    }));
    assert_eq!(
        encode_request(&Operation::Login, &[login]).unwrap(),
        r#"{"id":null,"op":"login","args":[{"channel":"login","apiKey":"k","passphrase":"p","timestamp":1700000000,"sign":"c2ln"}]}"#
    );
}

#[test]
fn private_arguments_write_nulls_for_absent_fields() {
    let args = vec![
        order(),
        WsArg::Private(WsPrivateArg::Account(AccountArg {
            ccy: Some("BTC".to_string()),
            extra_params: None,
            update_interval: Some(0),
        })),
        WsArg::Private(WsPrivateArg::Position(PositionArg {
            inst_type: InstrumentType::SWAP,
            inst_family: None,
            inst_id: None,
            extra_params: None,
            update_interval: Some(2000),
        })),
        WsArg::Private(WsPrivateArg::BalanceAndPosition(BalanceAndPositionArg)),
    ];
    let body = build_request_body(&Operation::Subscribe, &args).unwrap();
    assert_eq!(
        body.args,
        vec![
            r#"{"channel":"orders","instType":"SPOT","instId":"BTC-USDT","instFamily":null}"#.to_string(),
            r#"{"channel":"account","ccy":"BTC","extraParams":null,"updateInterval":0}"#.to_string(),
            r#"{"channel":"positions","instType":"SWAP","instFamily":null,"instId":null,"extraParams":null,"updateInterval":2000}"#.to_string(),
            r#"{"channel":"balance_and_position"}"#.to_string(),
        ]
    );
}

#[test]
fn candle_arguments_use_the_period_channel() {
    let mark = WsArg::Public(WsPublicArg::MarkPriceKline(
        inst("BTC-USD-SWAP"),
        MarkPriceChannel::MarkPriceCandle1H,
    ));
    assert_eq!(mark.as_value(), r#"{"channel":"mark-price-candle1H","instId":"BTC-USD-SWAP"}"#);
    let index = WsArg::Public(WsPublicArg::IndexCandle(inst("BTC-USD"), IndexCandleChannel::IndexCandle6HUtc));
    assert_eq!(index.as_value(), r#"{"channel":"index-candle6Hutc","instId":"BTC-USD"}"#);
}

#[test]
fn composite_public_arguments_merge_fields() {
    let est = WsPublicArg::EstimatedPrice(
        inst("BTC-USD-240628"),
        WsPublicInstTypeArg { inst_type: InstrumentType::FUTURES },
        WsPublicInstFamilyArg { inst_family: "BTC-USD".to_string() },
    );
    assert_eq!(
        est.as_value(),
        r#"{"channel":"estimated-price","instId":"BTC-USD-240628","instType":"FUTURES","instFamily":"BTC-USD"}"#
    );
    let adl = WsPublicArg::AdlWarning(
        WsPublicInstTypeArg { inst_type: InstrumentType::OPTION },
        WsPublicInstFamilyArg { inst_family: "ETH-USD".to_string() },
    );
    assert_eq!(adl.as_value(), r#"{"channel":"adl-warning","instType":"OPTION","instFamily":"ETH-USD"}"#);
    let opt = WsPublicArg::OptionSummary(WsPublicInstFamilyArg { inst_family: "BTC-USD".to_string() });
    assert_eq!(opt.as_value(), r#"{"channel":"opt-summary","instFamily":"BTC-USD"}"#);
    let instruments = WsPublicArg::Instrument(WsPublicInstTypeArg { inst_type: InstrumentType::MARGIN });
    assert_eq!(instruments.as_value(), r#"{"channel":"instruments","instType":"MARGIN"}"#);
}

#[test]
fn strings_are_escaped() {
    let arg = WsPublicArg::MarkPrice(inst("a\"b\\c\nd\u{1}é"));
    assert_eq!(arg.as_value(), "{\"channel\":\"mark-price\",\"instId\":\"a\\\"b\\\\c\\nd\\u0001é\"}");
}

#[test]
fn argument_names() {
    assert_eq!(WsArg::Public(WsPublicArg::MarkPrice(inst("x"))).as_str(), "public");
    assert_eq!(order().as_str(), "orders");
    assert_eq!(WsArg::Business.as_str(), "business");
    assert_eq!(WsArg::Business.as_value(), "{}");
    assert_eq!(WsPublicArg::IndexTickerPrice(inst("x")).as_str(), "index-tickers");
    assert_eq!(Operation::ChannelConnCount.as_str(), "channel-conn-count");
    assert_eq!(Operation::default(), Operation::Login);
}

#[test]
fn build_args_sorts_by_endpoint() {
    let public = WsArg::Public(WsPublicArg::MarkPrice(inst("X")));
    let bodies = build_args(&[order()], &Operation::Subscribe, false).unwrap();
    assert!(bodies.private_body.is_empty());
    let bodies = build_args(&[order()], &Operation::Subscribe, true).unwrap();
    assert_eq!(bodies.private_body.len(), 1);
    let bodies = build_args(&[public.clone(), order()], &Operation::Subscribe, false).unwrap();
    assert_eq!(bodies.public_body, vec![r#"{"channel":"mark-price","instId":"X"}"#.to_string()]);
    match build_args(&[public, order()], &Operation::Subscribe, true) {
        Err(Error::Other(m)) => assert_eq!(m, "Cannot mix different argument categories"),
        other => panic!("unexpected {:?}", other),
    }
    match build_args(&[], &Operation::Login, false) {
        Err(Error::Other(m)) => assert_eq!(m, "Login operation requires exactly one argument"),
        other => panic!("unexpected {:?}", other),
    }
}

#[test]
fn login_with_mixed_or_business_arguments_names_that_fault() {
    let login = WsArg::Private(WsPrivateArg::Login(LoginArgs {
        api_key: "k".to_string(),
        passphrase: "p".to_string(),
        timestamp: 1,
        sign: "s".to_string(),
    }));
    let mixed = vec![WsArg::Public(WsPublicArg::MarkPrice(inst("X"))), login];
    assert_eq!(
        other_text(encode_request(&Operation::Login, &mixed)),
        "Too many argument categories provided"
    );
    assert_eq!(
        other_text(encode_request(&Operation::Login, &[WsArg::Business])),
        "Business arguments are not supported"
    );
    match build_args(&[WsArg::Business], &Operation::Login, false) {
        Err(Error::Other(m)) => assert_eq!(m, "Business arguments are not supported"),
        other => panic!("unexpected {:?}", other),
    }
}
