use indicator_alert_daemon::config::{BollingerBandsConfig, CrossoverConfig, MacdConfig};
use indicator_alert_daemon::ieee::{bits_is_nan, bits_is_zero, bits_le, bits_lt};
use indicator_alert_daemon::indicators::{crossing, lower_band_breakout, rsi_triggered, Crossing};
use indicator_alert_daemon::text::{decimal_text, join_path, parse_u64, trimmed};
use indicator_alert_daemon::{IndicatorConfig, IndicatorResult, RsiConfig, RsiDirection};

fn b(x: f64) -> u64 {
    x.to_bits()
}

#[test]
fn float_comparisons_match_f64() {
    let values = [
        0.0,
        -0.0,
        1.0,
        -1.0,
        100.0,
        1e-300,
        -1e300,
        f64::INFINITY,
        f64::NEG_INFINITY,
        f64::NAN,
        f64::MIN_POSITIVE,
        35.5,
    ];
    for &x in &values {
        assert_eq!(bits_is_nan(b(x)), x.is_nan());
        assert_eq!(bits_is_zero(b(x)), x == 0.0);
        for &y in &values {
            assert_eq!(bits_lt(b(x), b(y)), x < y, "{x} < {y}");
            assert_eq!(bits_le(b(x), b(y)), x <= y, "{x} <= {y}");
        }
    }
}

#[test]
fn rsi_direction_decides_the_side() {
    assert!(rsi_triggered(b(20.0), b(35.0), RsiDirection::Below));
    assert!(!rsi_triggered(b(35.0), b(35.0), RsiDirection::Below));
    assert!(rsi_triggered(b(80.0), b(70.0), RsiDirection::Above));
    assert!(!rsi_triggered(b(20.0), b(70.0), RsiDirection::Above));
    assert!(!rsi_triggered(b(f64::NAN), b(70.0), RsiDirection::Above));
}

#[test]
fn lower_band_touch_counts() {
    assert!(lower_band_breakout(b(10.0), b(10.0)));
    assert!(lower_band_breakout(b(9.0), b(10.0)));
    assert!(!lower_band_breakout(b(11.0), b(10.0)));
}

#[test]
fn crossings() {
    assert_eq!(crossing(b(1.0), b(1.0), b(2.0), b(1.0)), Crossing::Upward);
    assert_eq!(crossing(b(1.0), b(1.0), b(0.5), b(1.0)), Crossing::Downward);
    assert_eq!(crossing(b(2.0), b(1.0), b(3.0), b(1.0)), Crossing::NoCross);
    assert_eq!(crossing(b(0.0), b(1.0), b(0.5), b(1.0)), Crossing::NoCross);
}

#[test]
fn enough_data_per_indicator() {
    let rsi = IndicatorConfig::Rsi(RsiConfig { threshold_bits: 0, period: 14, direction: RsiDirection::Below });
    assert!(!rsi.has_enough_data(14));
    assert!(rsi.has_enough_data(15));
    let bb = IndicatorConfig::BollingerBands(BollingerBandsConfig { period: 20, stddev_bits: 0 });
    assert!(!bb.has_enough_data(3));
    assert!(bb.has_enough_data(20));
    let macd = IndicatorConfig::Macd(MacdConfig { fast: 12, slow: 26, signal: 9 });
    assert!(!macd.has_enough_data(34));
    assert!(macd.has_enough_data(35));
    let cross = IndicatorConfig::Crossover(CrossoverConfig { fast_period: 5, slow_period: 15 });
    assert!(!cross.has_enough_data(15));
    assert!(cross.has_enough_data(16));
}

#[test]
fn indicator_result_builders() {
    let q = IndicatorResult::quiet("RSI: N/A".to_string());
    assert!(!q.triggered && q.alert_message.is_none());
    let f = IndicatorResult::fired("msg".to_string(), "RSI: 20.0".to_string());
    assert!(f.triggered && f.alert_message.as_deref() == Some("msg"));
}

#[test]
fn text_helpers() {
    assert_eq!(trimmed("\u{3000} a b \n"), "a b");
    assert_eq!(trimmed("   "), "");
    assert_eq!(parse_u64("007"), Some(7));
    assert_eq!(parse_u64("ab"), None);
    assert_eq!(join_path("", "x"), "x");
    assert_eq!(join_path("/a/", "x"), "/a/x");
    assert_eq!(join_path("/a", "/x"), "/x");
    assert_eq!(decimal_text(0), "0");
    assert_eq!(decimal_text(1234567890), "1234567890");
}
