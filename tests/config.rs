use quant_exchange::config::{
    get_credentials, BinanceConfig, Config, Credentials, Exchange, ExchangeConfig, GlobalConfig,
    OkexConfig, Protocol,
};
use quant_exchange::error::Error;

fn credentials(key: &str) -> Credentials {
    Credentials {
        api_key: key.to_string(),
        secret_key: "s".to_string(),
        passphrase: "p".to_string(),
        use_testnet: Some(false),
        protocol: Some(Protocol::WSS),
        http_urls: vec!["https://www.okx.com".to_string()],
        testnet_http_urls: None,
        testnet_ws_urls: None,
        ws_urls: vec!["wss://ws.okx.com:8443/ws/v5".to_string()],
    }
}

fn global() -> GlobalConfig {
    GlobalConfig {
        timeout: 5,
        retry_count: 3,
        log_level: Some("info".to_string()),
        retry_delay: 5000,
        use_testnet: false,
        protocol: Some("websocket".to_string()),
    }
}

fn okex(key: &str) -> ExchangeConfig {
    ExchangeConfig::Okex(OkexConfig {
        credentials: credentials(key),
        timeout: None,
        retry_count: None,
        retry_delay: None,
        ip_blacks: vec![],
    })
}

fn binance(key: &str) -> ExchangeConfig {
    ExchangeConfig::Binance(BinanceConfig {
        credentials: credentials(key),
        timeout: Some(5),
        retry_count: Some(3),
        retry_delay: Some(100),
        ip_blacks: vec!["10.0.0.1".to_string()],
    })
}

/// The configuration holds both exchanges.
fn loaded_config() -> Config {
    let mut config = Config::new(None, global());
    config.set_exchange(Exchange::Okex, okex("okex-key"));
    config.set_exchange(Exchange::Binance, binance("binance-key"));
    config
}

#[test]
fn test_load_file() {
    let config = loaded_config();
    assert!(config.has_exchange(&Exchange::Okex));
    assert!(config.has_exchange(&Exchange::Binance));
}

#[test]
fn set_exchange_keeps_the_first_entry() {
    let mut config = loaded_config();
    config.set_exchange(Exchange::Okex, okex("other-key"));
    assert_eq!(config.exchanges.len(), 2);
    let creds = get_credentials(&config, &Exchange::Okex).unwrap();
    assert_eq!(creds.api_key, "okex-key");
}

#[test]
fn credentials_of_each_exchange() {
    let config = loaded_config();
    assert_eq!(get_credentials(&config, &Exchange::Binance).unwrap().api_key, "binance-key");
    let e = config.get_exchange(&Exchange::Binance).unwrap();
    assert!(matches!(e, ExchangeConfig::Binance(_)));
    assert_eq!(e.clone().into_credentials().api_key, "binance-key");
}

#[test]
fn missing_exchange_is_a_config_error() {
    let mut config = Config::new(Some(Exchange::Binance), global());
    config.set_exchange(Exchange::Okex, okex("k"));
    assert!(!config.has_exchange(&Exchange::Binance));
    assert!(config.get_default_exchange().is_none());
    match get_credentials(&config, &Exchange::Binance) {
        Err(Error::ConfigError(m)) => assert_eq!(m, "Exchange not found"),
        other => panic!("unexpected {:?}", other),
    }
}

#[test]
fn default_exchange_is_okex() {
    assert_eq!(Exchange::default(), Exchange::Okex);
    let mut config = Config::new(None, global());
    config.set_exchange(Exchange::Okex, okex("k"));
    assert!(config.get_default_exchange().is_some());
}
