use indicator_alert_daemon::yahoo::build_chart_url;

#[test]
fn yahoo_test_build_chart_url_full_range() {
    let url = build_chart_url("KOID", "1wk", true);
    assert!(url.contains("KOID"));
    assert!(url.contains("6mo"));
    assert!(url.contains("interval=1wk"));
}

#[test]
fn yahoo_test_build_chart_url_incremental_range() {
    let url = build_chart_url("KOID", "1d", false);
    assert!(url.contains("KOID"));
    assert!(url.contains("1mo"));
    assert!(url.contains("interval=1d"));
}
