use indicator_alert_daemon::config::{BollingerBandsConfig, CrossoverConfig, MacdConfig};
use indicator_alert_daemon::data::{build_chart_url, extract_ohlcv, extract_prices, OhlcvRow, YFQuote};
use indicator_alert_daemon::{IndicatorConfig, RsiConfig, RsiDirection};

fn col(v: &[Option<f64>]) -> Vec<Option<u64>> {
    v.iter().map(|o| o.map(|x| x.to_bits())).collect()
}

#[test]
fn test_extract_prices_handles_mixed_data() {
    let raw = col(&[Some(100.0), None, Some(0.0), Some(200.0), Some(300.0), None]);
    let prices: Vec<f64> = extract_prices(&raw).into_iter().map(f64::from_bits).collect();
    assert_eq!(prices, vec![100.0, 200.0, 300.0]);
}

#[test]
fn test_build_chart_url_format_full() {
    let url = build_chart_url("BOTZ", "1d", true);
    assert_eq!(
        url,
        "https://query1.finance.yahoo.com/v8/finance/chart/BOTZ?range=6mo&interval=1d"
    );
}

#[test]
fn test_build_chart_url_format_incremental() {
    let url = build_chart_url("BOTZ", "1d", false);
    assert_eq!(
        url,
        "https://query1.finance.yahoo.com/v8/finance/chart/BOTZ?range=1mo&interval=1d"
    );
}

#[test]
fn test_ohlcv_row_creation() {
    let row = OhlcvRow {
        ts: 1234567890,
        open: Some(100.0f64.to_bits()),
        high: Some(105.0f64.to_bits()),
        low: Some(99.0f64.to_bits()),
        close: 102.5f64.to_bits(),
        volume: Some(10000.0f64.to_bits()),
    };
    assert_eq!(row.ts, 1234567890);
    assert!((f64::from_bits(row.close) - 102.5).abs() < 0.001);
}

#[test]
fn test_extract_ohlcv_from_quote() {
    let timestamps = vec![100, 200, 300];
    let quote = YFQuote {
        open: col(&[Some(10.0), Some(11.0), Some(12.0)]),
        high: col(&[Some(12.0), Some(13.0), Some(14.0)]),
        low: col(&[Some(9.0), Some(10.0), Some(11.0)]),
        close: col(&[Some(10.5), Some(11.5), Some(12.5)]),
        volume: col(&[Some(1000.0), Some(2000.0), Some(3000.0)]),
    };
    let rows = extract_ohlcv(&timestamps, &quote);
    assert_eq!(rows.len(), 3);
    assert_eq!(rows[1].ts, 200);
    assert!((f64::from_bits(rows[1].close) - 11.5).abs() < 0.001);
}

#[test]
fn test_indicator_required_bars() {
    let rsi = IndicatorConfig::Rsi(RsiConfig {
        threshold_bits: 30.0f64.to_bits(),
        period: 14,
        direction: RsiDirection::Below,
    });
    assert_eq!(rsi.required_bars(), 42);

    let bb = IndicatorConfig::BollingerBands(BollingerBandsConfig {
        period: 20,
        stddev_bits: 2.0f64.to_bits(),
    });
    assert_eq!(bb.required_bars(), 40);

    let macd = IndicatorConfig::Macd(MacdConfig {
        fast: 12,
        slow: 26,
        signal: 9,
    });
    assert_eq!(macd.required_bars(), 47);

    let cross = IndicatorConfig::Crossover(CrossoverConfig {
        fast_period: 5,
        slow_period: 15,
    });
    assert_eq!(cross.required_bars(), 30);
}

#[test]
fn indicator_names() {
    let macd = IndicatorConfig::Macd(MacdConfig { fast: 12, slow: 26, signal: 9 });
    assert_eq!(macd.name(), "MACD");
    let cross = IndicatorConfig::Crossover(CrossoverConfig { fast_period: 5, slow_period: 15 });
    assert_eq!(cross.name(), "MA Crossover");
    let bb = IndicatorConfig::BollingerBands(BollingerBandsConfig { period: 20, stddev_bits: 0 });
    assert_eq!(bb.name(), "Bollinger Bands");
}
