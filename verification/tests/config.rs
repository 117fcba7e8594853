use indicator_alert_daemon::config::{
    apply_env_overrides, check_config, default_bb_period, default_bb_stddev, default_macd_fast,
    default_macd_signal, default_macd_slow, default_max_retries, default_retry_base_delay_ms,
    default_rsi_period, default_ticker_delay, settle_config, validate_config,
    BollingerBandsConfig, ConfigError, CrossoverConfig, DaemonConfig, EnvOverrides,
    IndicatorConfig, MacdConfig, RsiConfig, RsiDirection, TickerConfig,
};

fn valid_config() -> DaemonConfig {
    DaemonConfig {
        ntfy_url: "https://ntfy.sh/test".to_string(),
        interval_type: "1d".to_string(),
        frequency_seconds: 3600,
        db_path: None,
        ticker_delay_ms: 1500,
        max_retries: 3,
        retry_base_delay_ms: 500,
        tickers: vec![TickerConfig {
            symbol: "TEST".to_string(), interval_type: None,
            indicators: vec![IndicatorConfig::Rsi(RsiConfig {
                threshold_bits: 30.0f64.to_bits(),
                period: 14,
                direction: RsiDirection::Below,
            })],
        }],
    }
}

fn no_env() -> EnvOverrides {
    EnvOverrides {
        ntfy_url: None,
        db_path: None,
        interval_type: None,
        frequency_seconds: None,
        ticker_delay_ms: None,
    }
}

#[test]
fn test_validate_valid_config() {
    assert!(validate_config(&valid_config()).is_ok());
}

#[test]
fn test_validate_empty_ntfy_url() {
    let mut cfg = valid_config();
    cfg.ntfy_url = "   ".to_string();
    let err = validate_config(&cfg).unwrap_err();
    assert!(err.message().contains("ntfy_url"));
}

#[test]
fn test_validate_ntfy_url_scheme_must_be_https() {
    let mut cfg = valid_config();
    cfg.ntfy_url = "http://ntfy.sh/test".to_string();
    let err = validate_config(&cfg).unwrap_err();
    assert!(
        err.message().contains("https"),
        "expected scheme error, got: {}",
        err.message()
    );
}

#[test]
fn test_validate_ntfy_url_must_be_valid_url() {
    let mut cfg = valid_config();
    cfg.ntfy_url = "https://".to_string();
    let err = validate_config(&cfg).unwrap_err();
    assert!(
        err.message().contains("valid URL"),
        "expected URL parse error, got: {}",
        err.message()
    );
}

#[test]
fn test_validate_bad_interval() {
    let mut cfg = valid_config();
    cfg.interval_type = "1m".to_string();
    let err = validate_config(&cfg).unwrap_err();
    assert!(err.message().contains("interval_type"));
}

#[test]
fn test_validate_zero_frequency() {
    let mut cfg = valid_config();
    cfg.frequency_seconds = 0;
    let err = validate_config(&cfg).unwrap_err();
    assert!(err.message().contains("frequency_seconds"));
}

#[test]
fn test_validate_empty_tickers() {
    let mut cfg = valid_config();
    cfg.tickers = vec![];
    let err = validate_config(&cfg).unwrap_err();
    assert!(err.message().contains("ticker"));
}

#[test]
fn test_validate_empty_symbol() {
    let mut cfg = valid_config();
    cfg.tickers[0].symbol = "".to_string();
    let err = validate_config(&cfg).unwrap_err();
    assert!(err.message().contains("symbol"));
}

#[test]
fn test_validate_no_indicators() {
    let mut cfg = valid_config();
    cfg.tickers[0].indicators = vec![];
    let err = validate_config(&cfg).unwrap_err();
    assert!(err.message().contains("indicator"));
}

#[test]
fn test_validate_rsi_threshold_out_of_range() {
    let mut cfg = valid_config();
    cfg.tickers[0].indicators = vec![IndicatorConfig::Rsi(RsiConfig {
        threshold_bits: 150.0f64.to_bits(),
        period: 14,
        direction: RsiDirection::Below,
    })];
    let err = validate_config(&cfg).unwrap_err();
    assert!(err.message().contains("RSI threshold"));
}

#[test]
fn test_validate_crossover_periods_reversed() {
    let mut cfg = valid_config();
    cfg.tickers[0].indicators = vec![IndicatorConfig::Crossover(CrossoverConfig {
        fast_period: 30,
        slow_period: 10,
    })];
    let err = validate_config(&cfg).unwrap_err();
    assert!(err.message().contains("fast_period"));
}

#[test]
fn crossover_error_text_has_both_periods() {
    let e = ConfigError::CrossoverPeriods(30, 10);
    assert_eq!(
        e.message(),
        "crossover fast_period (30) must be less than slow_period (10)"
    );
}

#[test]
fn validation_messages_are_exact() {
    let mut cfg = valid_config();
    cfg.interval_type = "1m".to_string();
    assert_eq!(
        validate_config(&cfg).unwrap_err().message(),
        "unsupported interval_type: '1m' (expected '1d' or '1wk')"
    );
    let mut cfg = valid_config();
    cfg.tickers[0].indicators = vec![];
    assert_eq!(
        validate_config(&cfg).unwrap_err().message(),
        "ticker 'TEST' must have at least one indicator"
    );
    let mut cfg = valid_config();
    cfg.ntfy_url = "  https://  ".to_string();
    assert_eq!(
        validate_config(&cfg).unwrap_err().message(),
        "ntfy_url is not a valid URL: 'https://'"
    );
}

#[test]
fn rsi_threshold_bounds_are_inclusive() {
    for (t, ok) in [(0.0, true), (-0.0, true), (100.0, true), (100.0001, false), (-1.0, false), (f64::NAN, false)] {
        let mut cfg = valid_config();
        cfg.tickers[0].indicators = vec![IndicatorConfig::Rsi(RsiConfig {
            threshold_bits: f64::to_bits(t),
            period: 14,
            direction: RsiDirection::Above,
        })];
        assert_eq!(validate_config(&cfg).is_ok(), ok, "threshold {t}");
    }
}

#[test]
fn first_error_is_reported_in_order() {
    let mut cfg = valid_config();
    cfg.frequency_seconds = 0;
    cfg.tickers = vec![];
    assert!(matches!(validate_config(&cfg), Err(ConfigError::ZeroFrequency)));
    let mut cfg = valid_config();
    cfg.tickers.push(TickerConfig { symbol: " ".to_string(), interval_type: None, indicators: vec![] });
    cfg.tickers[0].indicators.push(IndicatorConfig::Crossover(CrossoverConfig {
        fast_period: 5,
        slow_period: 5,
    }));
    assert!(matches!(validate_config(&cfg), Err(ConfigError::CrossoverPeriods(5, 5))));
}

#[test]
fn check_config_takes_the_url_verdict() {
    let cfg = valid_config();
    assert!(check_config(&cfg, true).is_ok());
    match check_config(&cfg, false) {
        Err(ConfigError::InvalidNtfyUrl(u)) => assert_eq!(u, "https://ntfy.sh/test"),
        _ => panic!("expected an invalid URL"),
    }
}

#[test]
fn other_indicators_pass_validation() {
    let mut cfg = valid_config();
    cfg.tickers[0].indicators = vec![
        IndicatorConfig::BollingerBands(BollingerBandsConfig { period: 0, stddev_bits: 0 }),
        IndicatorConfig::Macd(MacdConfig { fast: 30, slow: 1, signal: 0 }),
    ];
    assert!(validate_config(&cfg).is_ok());
}

#[test]
fn defaults_match_the_documentation() {
    assert_eq!(default_ticker_delay(), 1500);
    assert_eq!(default_max_retries(), 3);
    assert_eq!(default_retry_base_delay_ms(), 500);
    assert_eq!(default_rsi_period(), 14);
    assert_eq!(default_bb_period(), 20);
    assert_eq!(f64::from_bits(default_bb_stddev()), 2.0);
    assert_eq!(default_macd_fast(), 12);
    assert_eq!(default_macd_slow(), 26);
    assert_eq!(default_macd_signal(), 9);
    assert_eq!(RsiDirection::default(), RsiDirection::Below);
}

#[test]
fn env_overrides_replace_only_usable_values() {
    let mut cfg = valid_config();
    let env = EnvOverrides {
        ntfy_url: Some("  https://ntfy.sh/other ".to_string()),
        db_path: Some("   ".to_string()),
        interval_type: Some(" 1wk".to_string()),
        frequency_seconds: Some(" 60 ".to_string()),
        ticker_delay_ms: Some("soon".to_string()),
    };
    apply_env_overrides(&mut cfg, &env);
    assert_eq!(cfg.ntfy_url, "https://ntfy.sh/other");
    assert_eq!(cfg.db_path, None);
    assert_eq!(cfg.interval_type, "1wk");
    assert_eq!(cfg.frequency_seconds, 60);
    assert_eq!(cfg.ticker_delay_ms, 1500);
}

#[test]
fn env_override_numbers_follow_u64_parsing() {
    for (text, expected) in [
        ("+42", 42u64),
        ("18446744073709551615", u64::MAX),
        ("18446744073709551616", 3600),
        ("-1", 3600),
        ("", 3600),
        ("+", 3600),
        ("1 2", 3600),
    ] {
        let mut cfg = valid_config();
        let mut env = no_env();
        env.frequency_seconds = Some(text.to_string());
        apply_env_overrides(&mut cfg, &env);
        assert_eq!(cfg.frequency_seconds, expected, "text {text:?}");
    }
}

#[test]
fn env_override_db_path_is_trimmed() {
    let mut cfg = valid_config();
    let mut env = no_env();
    env.db_path = Some("\t/var/lib/x.db\n".to_string());
    apply_env_overrides(&mut cfg, &env);
    assert_eq!(cfg.db_path.as_deref(), Some("/var/lib/x.db"));
}

#[test]
fn settle_config_applies_overrides_then_validates() {
    let mut cfg = valid_config();
    cfg.interval_type = "1h".to_string();
    let mut env = no_env();
    env.interval_type = Some("1wk".to_string());
    let out = settle_config(cfg.clone(), &env).unwrap();
    assert_eq!(out.interval_type, "1wk");
    assert!(matches!(settle_config(cfg, &no_env()), Err(ConfigError::UnsupportedInterval(_))));
}

#[test]
fn ticker_interval_override_is_validated_and_used() {
    let mut cfg = valid_config();
    cfg.interval_type = "1wk".to_string();
    cfg.tickers[0].interval_type = Some("1d".to_string());
    assert!(validate_config(&cfg).is_ok());
    assert_eq!(cfg.tickers[0].interval(&cfg.interval_type), "1d");
    cfg.tickers[0].interval_type = None;
    assert_eq!(cfg.tickers[0].interval(&cfg.interval_type), "1wk");
    cfg.tickers[0].interval_type = Some("1m".to_string());
    assert_eq!(
        validate_config(&cfg).unwrap_err().message(),
        "unsupported interval_type: '1m' (expected '1d' or '1wk')"
    );
}

#[test]
fn interval_and_frequency_defaults() {
    assert_eq!(indicator_alert_daemon::config::default_interval_type(), "1wk");
    assert_eq!(indicator_alert_daemon::config::default_frequency_seconds(), 86400);
}
