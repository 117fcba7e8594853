//! The chart service's response model and its request URL.
//!
//! The response is decoded outside the library; quote values arrive as the
//! bit patterns of their `f64` values.
use vstd::prelude::*;

verus! {

/// A chart response.
#[derive(Clone, Debug)]
pub struct YFResponse {
    pub chart: YFChart,
}

#[derive(Clone, Debug)]
pub struct YFChart {
    pub result: Option<Vec<YFChartResult>>,
}

#[derive(Clone, Debug)]
pub struct YFChartResult {
    pub timestamp: Vec<i64>,
    pub indicators: YFIndicators,
}

#[derive(Clone, Debug)]
pub struct YFIndicators {
    pub quote: Vec<YFQuote>,
}

/// Per-bar quote columns; each entry is the bit pattern of an `f64`, or
/// `None` where the service had no value.
#[derive(Clone, Debug)]
pub struct YFQuote {
    pub open: Vec<Option<u64>>,
    pub high: Vec<Option<u64>>,
    pub low: Vec<Option<u64>>,
    pub close: Vec<Option<u64>>,
    pub volume: Vec<Option<u64>>,
}

/// The chart URL for `symbol` at `interval`: six months of history when a
/// full range is needed, one month otherwise.
pub open spec fn chart_url(symbol: Seq<char>, interval: Seq<char>, need_full_range: bool) -> Seq<
    char,
> {
    "https://query1.finance.yahoo.com/v8/finance/chart/"@ + symbol + "?range="@ + (
    if need_full_range {
        "6mo"@
    } else {
        "1mo"@
    }) + "&interval="@ + interval
}

/// Builds the chart request URL.
pub fn build_chart_url(symbol: &str, interval: &str, need_full_range: bool) -> (r: String)
    ensures
        r@ == chart_url(symbol@, interval@, need_full_range),
{
    let range = if need_full_range {
        "6mo"
    } else {
        "1mo"
    };
    let mut url = String::from_str("https://query1.finance.yahoo.com/v8/finance/chart/");
    url.append(symbol);
    url.append("?range=");
    url.append(range);
    url.append("&interval=");
    url.append(interval);
    url
}

} // verus!
