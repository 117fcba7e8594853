use indicator_alert_daemon::machine::{CycleAction, CycleEvent, CycleState, Stage};
use indicator_alert_daemon::yahoo::{YFChart, YFChartResult, YFIndicators, YFQuote, YFResponse};
use indicator_alert_daemon::{DaemonConfig, IndicatorConfig, RsiConfig, RsiDirection, TickerConfig};

fn rsi() -> IndicatorConfig {
    IndicatorConfig::Rsi(RsiConfig {
        threshold_bits: 30.0f64.to_bits(),
        period: 14,
        direction: RsiDirection::Below,
    })
}

fn config() -> DaemonConfig {
    DaemonConfig {
        ntfy_url: "https://ntfy.sh/t".to_string(),
        interval_type: "1wk".to_string(),
        frequency_seconds: 3600,
        db_path: None,
        ticker_delay_ms: 0,
        max_retries: 3,
        retry_base_delay_ms: 500,
        tickers: vec![
            TickerConfig { symbol: "AAA".to_string(), interval_type: None, indicators: vec![rsi()] },
            TickerConfig {
                symbol: "BBB".to_string(),
                interval_type: Some("1d".to_string()),
                indicators: vec![rsi(), rsi()],
            },
        ],
    }
}

fn response(closes: &[f64]) -> YFResponse {
    let c: Vec<Option<u64>> = closes.iter().map(|x| Some(x.to_bits())).collect();
    let mut timestamp: Vec<i64> = Vec::new();
    for i in 0..c.len() {
        timestamp.push(i as i64);
    }
    let quote = YFQuote { open: c.clone(), high: c.clone(), low: c.clone(), close: c.clone(), volume: c };
    let result = YFChartResult { timestamp, indicators: YFIndicators { quote: vec![quote] } };
    YFResponse { chart: YFChart { result: Some(vec![result]) } }
}

#[test]
fn cycle_visits_tickers_in_order_and_purges_last() {
    let cfg = config();
    let (s, a) = CycleState::start(&cfg);
    assert!(matches!(a, CycleAction::QueryLatest(0)));

    let (s, a, _) = s.step(&cfg, CycleEvent::Latest(None));
    match a {
        CycleAction::Fetch(0, url) => assert_eq!(
            url,
            "https://query1.finance.yahoo.com/v8/finance/chart/AAA?range=6mo&interval=1wk"
        ),
        other => panic!("unexpected {other:?}"),
    }

    // The first ticker's fetch fails: counted, and the cycle goes on.
    let (s, a, _) = s.step(&cfg, CycleEvent::FetchFailed);
    assert!(matches!(a, CycleAction::QueryLatest(1)));
    assert_eq!(s.stats.failures, 1);

    let (s, a, _) = s.step(&cfg, CycleEvent::Latest(Some(5)));
    match a {
        CycleAction::Fetch(1, url) => assert_eq!(
            url,
            "https://query1.finance.yahoo.com/v8/finance/chart/BBB?range=1mo&interval=1d"
        ),
        other => panic!("unexpected {other:?}"),
    }

    let (s, a, _) = s.step(&cfg, CycleEvent::Fetched(response(&[1.0, 0.0, 2.0])));
    match a {
        CycleAction::StoreAndLoad(1, rows) => assert_eq!(rows.len(), 2),
        other => panic!("unexpected {other:?}"),
    }

    let (s, a, _) = s.step(&cfg, CycleEvent::PricesLoaded(30));
    assert!(matches!(a, CycleAction::Evaluate(1, 0)));

    let (s, a, alert) = s.step(&cfg, CycleEvent::Evaluated(true, Some(true)));
    assert!(!alert);
    assert!(matches!(a, CycleAction::Evaluate(1, 1)));

    let (s, a, alert) = s.step(&cfg, CycleEvent::Evaluated(true, Some(false)));
    assert!(alert);
    assert!(matches!(a, CycleAction::Purge));
    assert_eq!(s.stage, Stage::Finished);
    assert_eq!((s.stats.indicators, s.stats.triggered, s.stats.failures), (2, 1, 1));

    let (_, a, _) = s.step(&cfg, CycleEvent::PricesLoaded(1));
    assert!(matches!(a, CycleAction::Ignore));
}

#[test]
fn cycle_skips_short_history_and_empty_charts() {
    let cfg = config();
    let (s, _) = CycleState::start(&cfg);
    let (s, _, _) = s.step(&cfg, CycleEvent::Latest(None));
    let empty = YFResponse { chart: YFChart { result: Some(vec![]) } };
    let (s, a, _) = s.step(&cfg, CycleEvent::Fetched(empty));
    assert!(matches!(a, CycleAction::QueryLatest(1)));
    assert_eq!(s.stats.failures, 1);
    let (s, _, _) = s.step(&cfg, CycleEvent::Latest(None));
    let (s, _, _) = s.step(&cfg, CycleEvent::Fetched(response(&[1.0])));
    let (s, a, _) = s.step(&cfg, CycleEvent::PricesLoaded(1));
    assert!(matches!(a, CycleAction::Purge));
    assert_eq!(s.stats.failures, 1);
    assert_eq!(s.stats.indicators, 0);
}

#[test]
fn events_that_do_not_fit_are_ignored() {
    let cfg = config();
    let (s, _) = CycleState::start(&cfg);
    let (n, a, alert) = s.step(&cfg, CycleEvent::FetchFailed);
    assert!(matches!(a, CycleAction::Ignore));
    assert!(!alert);
    assert_eq!(n.stage, Stage::AwaitLatest);
    assert_eq!(n.stats.failures, 0);
}
