//! Exchanges and their configuration: credentials, endpoints, and the table
//! of per-exchange settings.

use crate::error::Error;
use vstd::prelude::*;

verus! {

/// A supported exchange.
#[derive(Clone, Copy, Debug, PartialEq, Eq, Structural, Hash, PartialOrd, Ord)]
pub enum Exchange {
    Okex,
    Binance,
}

impl Default for Exchange {
    fn default() -> (r: Exchange)
        ensures
            r == Exchange::Okex,
    {
        Exchange::Okex
    }
}

/// The protocol of the endpoints.
#[allow(clippy::upper_case_acronyms)]
#[derive(Clone, Copy, Debug, PartialEq, Eq, Structural)]
pub enum Protocol {
    HTTP,
    WS,
    HTTPS,
    WSS,
}

/// The credentials and endpoints of one account.
#[derive(Clone, Debug)]
pub struct Credentials {
    pub api_key: String,
    pub secret_key: String,
    pub passphrase: String,
    pub use_testnet: Option<bool>,
    pub protocol: Option<Protocol>,
    pub http_urls: Vec<String>,
    pub testnet_http_urls: Option<Vec<String>>,
    pub testnet_ws_urls: Option<Vec<String>>,
    pub ws_urls: Vec<String>,
}

/// Settings shared by all exchanges.
#[derive(Clone, Debug)]
pub struct GlobalConfig {
    pub timeout: u64,
    pub retry_count: u32,
    pub log_level: Option<String>,
    /// Milliseconds.
    pub retry_delay: u64,
    pub use_testnet: bool,
    pub protocol: Option<String>,
}

#[derive(Clone, Debug)]
pub struct OkexConfig {
    pub credentials: Credentials,
    pub timeout: Option<u64>,
    pub retry_count: Option<u16>,
    pub retry_delay: Option<u64>,
    pub ip_blacks: Vec<String>,
}

#[derive(Clone, Debug)]
pub struct BinanceConfig {
    pub credentials: Credentials,
    pub timeout: Option<u64>,
    pub retry_count: Option<u16>,
    pub retry_delay: Option<u64>,
    pub ip_blacks: Vec<String>,
}

/// The settings of one exchange.
#[derive(Clone, Debug)]
pub enum ExchangeConfig {
    Okex(OkexConfig),
    Binance(BinanceConfig),
}

impl ExchangeConfig {
    pub open spec fn creds(self) -> Credentials {
        match self {
            ExchangeConfig::Okex(c) => c.credentials,
            ExchangeConfig::Binance(c) => c.credentials,
        }
    }

    pub fn credentials(&self) -> (r: &Credentials)
        ensures
            *r == self.creds(),
    {
        match self {
            ExchangeConfig::Okex(c) => &c.credentials,
            ExchangeConfig::Binance(c) => &c.credentials,
        }
    }

    pub fn into_credentials(self) -> (r: Credentials)
        ensures
            r == self.creds(),
    {
        match self {
            ExchangeConfig::Okex(c) => c.credentials,
            ExchangeConfig::Binance(c) => c.credentials,
        }
    }
}

/// Whether `entries` has an entry for `exchange`.
pub open spec fn has_entry(entries: Seq<(Exchange, ExchangeConfig)>, exchange: Exchange) -> bool {
    exists|i: int| 0 <= i < entries.len() && #[trigger] entries[i].0 == exchange
}

/// The configuration of every exchange, the default exchange, and the global
/// settings.
#[derive(Clone, Debug)]
pub struct Config {
    /// At most one entry per exchange.
    pub exchanges: Vec<(Exchange, ExchangeConfig)>,
    pub default_exchange: Option<Exchange>,
    pub global_config: GlobalConfig,
}

impl Config {
    /// No exchange has two entries.
    pub open spec fn wf(&self) -> bool {
        forall|i: int, j: int|
            0 <= i < j < self.exchanges@.len() ==> #[trigger] self.exchanges@[i].0
                != #[trigger] self.exchanges@[j].0
    }

    /// The configuration of `exchange`, if there is one.
    pub open spec fn entry(&self, exchange: Exchange) -> Option<ExchangeConfig> {
        if has_entry(self.exchanges@, exchange) {
            let i = choose|i: int|
                0 <= i < self.exchanges@.len() && #[trigger] self.exchanges@[i].0 == exchange;
            Some(self.exchanges@[i].1)
        } else {
            None
        }
    }

    /// The exchange used when none is named.
    pub open spec fn default_choice(&self) -> Exchange {
        match self.default_exchange {
            Some(e) => e,
            None => Exchange::Okex,
        }
    }

    /// A configuration without exchanges.
    pub fn new(default_exchange: Option<Exchange>, global_config: GlobalConfig) -> (r: Config)
        ensures
            r.wf(),
            r.exchanges@.len() == 0,
            r.default_exchange == default_exchange,
            r.global_config == global_config,
    {
        Config { exchanges: Vec::new(), default_exchange, global_config }
    }

    /// The configuration of `exchange`.
    pub fn get_exchange(&self, exchange: &Exchange) -> (r: Option<&ExchangeConfig>)
        requires
            self.wf(),
        ensures
            match self.entry(*exchange) {
                Some(c) => r == Some(&c),
                None => r is None,
            },
    {
        let n = self.exchanges.len();
        let mut i: usize = 0;
        while i < n
            invariant
                i <= n,
                n == self.exchanges@.len(),
                self.wf(),
                forall|j: int| 0 <= j < i ==> #[trigger] self.exchanges@[j].0 != *exchange,
            decreases n - i,
        {
            if self.exchanges[i].0 == *exchange {
                assert(has_entry(self.exchanges@, *exchange));
                proof {
                    let k = choose|k: int|
                        0 <= k < self.exchanges@.len() && #[trigger] self.exchanges@[k].0
                            == *exchange;
                    assert(k == i) by {
                        if k < i {
                        } else if k > i {
                            assert(self.exchanges@[i as int].0 != self.exchanges@[k].0);
                        }
                    }
                }
                return Some(&self.exchanges[i].1);
            }
            i = i + 1;
        }
        None
    }

    /// The configuration of the default exchange (Okex when none is set).
    pub fn get_default_exchange(&self) -> (r: Option<&ExchangeConfig>)
        requires
            self.wf(),
        ensures
            match self.entry(self.default_choice()) {
                Some(c) => r == Some(&c),
                None => r is None,
            },
    {
        match &self.default_exchange {
            Some(e) => self.get_exchange(e),
            None => self.get_exchange(&Exchange::default()),
        }
    }

    /// Adds the configuration of `exchange`; one already present is kept.
    pub fn set_exchange(&mut self, exchange: Exchange, config: ExchangeConfig)
        requires
            old(self).wf(),
        ensures
            final(self).wf(),
            final(self).default_exchange == old(self).default_exchange,
            final(self).global_config == old(self).global_config,
            has_entry(old(self).exchanges@, exchange) ==> final(self).exchanges@ == old(
                self,
            ).exchanges@,
            !has_entry(old(self).exchanges@, exchange) ==> final(self).exchanges@ == old(
                self,
            ).exchanges@.push((exchange, config)),
    {
        if !self.has_exchange(&exchange) {
            self.exchanges.push((exchange, config));
        }
    }

    /// Whether `exchange` has a configuration.
    pub fn has_exchange(&self, exchange: &Exchange) -> (r: bool)
        ensures
            r == has_entry(self.exchanges@, *exchange),
    {
        let n = self.exchanges.len();
        let mut i: usize = 0;
        while i < n
            invariant
                i <= n,
                n == self.exchanges@.len(),
                forall|j: int| 0 <= j < i ==> #[trigger] self.exchanges@[j].0 != *exchange,
            decreases n - i,
        {
            if self.exchanges[i].0 == *exchange {
                return true;
            }
            i = i + 1;
        }
        false
    }
}

/// The credentials configured for `exchange`.
pub fn get_credentials<'a>(config: &'a Config, exchange: &Exchange) -> (r: Result<&'a Credentials, Error>)
    requires
        config.wf(),
    ensures
        match config.entry(*exchange) {
            Some(c) => r == Ok::<&Credentials, Error>(&c.creds()),
            None => r matches Err(Error::ConfigError(m)) && m@ == "Exchange not found"@,
        },
{
    match config.get_exchange(exchange) {
        Some(c) => Ok(c.credentials()),
        None => Err(Error::ConfigError("Exchange not found".to_owned())),
    }
}

} // verus!
