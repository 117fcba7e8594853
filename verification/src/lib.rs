//! Decisions of an indicator alert daemon: configuration, chart data,
//! indicator signals, alert de-duplication, retention and retries.
pub mod alert;
pub mod cli;
pub mod config;
pub mod cycle;
pub mod data;
pub mod ieee;
pub mod indicators;
pub mod machine;
pub mod paths;
pub mod retry;
pub mod text;
pub mod yahoo;

pub use config::{
    BollingerBandsConfig, ConfigError, CrossoverConfig, DaemonConfig, IndicatorConfig, MacdConfig,
    RsiConfig, RsiDirection, TickerConfig,
};
pub use cycle::{compute_retain_count, should_alert};
pub use data::{extract_prices, MarketData, OhlcvRow};
pub use indicators::IndicatorResult;
pub use paths::resolve_db_path;
pub use yahoo::{build_chart_url, YFQuote};
