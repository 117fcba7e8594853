use indicator_alert_daemon::data::{build_chart_url, extract_ohlcv, extract_prices, YFQuote};

fn b(x: f64) -> u64 {
    x.to_bits()
}

fn col(v: &[Option<f64>]) -> Vec<Option<u64>> {
    v.iter().map(|o| o.map(|x| x.to_bits())).collect()
}

fn f(x: u64) -> f64 {
    f64::from_bits(x)
}

#[test]
fn test_extract_prices_filters_none_and_zero() {
    let raw = vec![Some(b(10.0)), None, Some(b(0.0)), Some(b(20.0))];
    let prices: Vec<f64> = extract_prices(&raw).into_iter().map(f).collect();
    assert_eq!(prices, vec![10.0, 20.0]);
}

#[test]
fn data_test_build_chart_url_full_range() {
    let url = build_chart_url("KOID", "1wk", true);
    assert!(url.contains("KOID"));
    assert!(url.contains("6mo"));
    assert!(url.contains("interval=1wk"));
}

#[test]
fn data_test_build_chart_url_incremental_range() {
    let url = build_chart_url("KOID", "1d", false);
    assert!(url.contains("KOID"));
    assert!(url.contains("1mo"));
    assert!(url.contains("interval=1d"));
}

#[test]
fn test_extract_ohlcv_basic() {
    let timestamps = vec![100, 200, 300];
    let quote = YFQuote {
        open: col(&[Some(10.0), Some(11.0), Some(12.0)]),
        high: col(&[Some(12.0), Some(13.0), Some(14.0)]),
        low: col(&[Some(9.0), Some(10.0), Some(11.0)]),
        close: col(&[Some(10.5), Some(11.5), Some(12.5)]),
        volume: col(&[Some(1000.0), Some(2000.0), Some(3000.0)]),
    };
    let rows = extract_ohlcv(&timestamps, &quote);
    assert_eq!(rows.len(), 3);
    assert_eq!(rows[0].ts, 100);
    assert!((f(rows[0].close) - 10.5).abs() < 0.001);
    assert!((f(rows[1].high.unwrap()) - 13.0).abs() < 0.001);
    assert!((f(rows[2].volume.unwrap()) - 3000.0).abs() < 0.001);
}

#[test]
fn test_extract_ohlcv_filters_zero_close() {
    let timestamps = vec![100, 200];
    let quote = YFQuote {
        open: col(&[Some(10.0), Some(0.0)]),
        high: col(&[Some(12.0), Some(0.0)]),
        low: col(&[Some(9.0), Some(0.0)]),
        close: col(&[Some(10.5), Some(0.0)]),
        volume: col(&[Some(1000.0), Some(0.0)]),
    };
    let rows = extract_ohlcv(&timestamps, &quote);
    assert_eq!(rows.len(), 1);
    assert!((f(rows[0].close) - 10.5).abs() < 0.001);
}

#[test]
fn test_extract_ohlcv_handles_missing_data() {
    let timestamps = vec![100, 200, 300];
    let quote = YFQuote {
        open: col(&[Some(10.0), None, Some(12.0)]),
        high: col(&[Some(12.0), None, Some(14.0)]),
        low: col(&[Some(9.0), None, Some(11.0)]),
        close: col(&[Some(10.5), None, Some(12.5)]),
        volume: col(&[Some(1000.0), None, Some(3000.0)]),
    };
    let rows = extract_ohlcv(&timestamps, &quote);
    assert_eq!(rows.len(), 2);
    assert_eq!(rows[0].ts, 100);
    assert_eq!(rows[1].ts, 300);
}

#[test]
fn test_extract_ohlcv_empty_input() {
    let rows = extract_ohlcv(
        &[],
        &YFQuote {
            open: vec![],
            high: vec![],
            low: vec![],
            close: vec![],
            volume: vec![],
        },
    );
    assert!(rows.is_empty());
}

#[test]
fn extract_ohlcv_keeps_negative_zero_out_and_short_columns() {
    // -0.0 equals 0.0, so such a bar is dropped; a close column shorter
    // than the timestamps drops the bars past its end; a missing open stays
    // missing.
    let timestamps = vec![1, 2, 3];
    let quote = YFQuote {
        open: col(&[None]),
        high: vec![],
        low: vec![],
        close: col(&[Some(5.0), Some(-0.0)]),
        volume: vec![],
    };
    let rows = extract_ohlcv(&timestamps, &quote);
    assert_eq!(rows.len(), 1);
    assert_eq!(rows[0].ts, 1);
    assert_eq!(rows[0].open, None);
    assert_eq!(rows[0].high, None);
    assert_eq!(f(rows[0].close), 5.0);
}

#[test]
fn extract_prices_keeps_nan_and_negatives() {
    let raw = vec![Some(b(f64::NAN)), Some(b(-1.5)), Some(b(-0.0))];
    let prices = extract_prices(&raw);
    assert_eq!(prices.len(), 2);
    assert!(f(prices[0]).is_nan());
    assert_eq!(f(prices[1]), -1.5);
}
