//! Market data: bars kept from a chart response, and the closing prices.
//!
//! Prices are held as the bit patterns of their `f64` values; a bar is kept
//! only when it has a closing price that is not zero.
use vstd::prelude::*;
use crate::ieee::{bits_is_zero, float_is_zero};
pub use crate::yahoo::{YFChart, YFChartResult, YFIndicators, YFQuote, YFResponse};
use crate::yahoo::chart_url;

verus! {

/// The price history an indicator is evaluated on.
#[derive(Clone, Debug)]
pub struct MarketData {
    pub symbol: String,
    /// Closing prices, oldest first, as `f64` bit patterns.
    pub close_prices: Vec<u64>,
    pub interval_type: String,
}

/// One stored bar; prices as `f64` bit patterns.
#[derive(Clone, Copy, Debug, PartialEq, Eq, Structural)]
pub struct OhlcvRow {
    pub ts: i64,
    pub open: Option<u64>,
    pub high: Option<u64>,
    pub low: Option<u64>,
    pub close: u64,
    pub volume: Option<u64>,
}

/// `v.get(i).copied().flatten()`.
pub open spec fn value_at(v: Seq<Option<u64>>, i: int) -> Option<u64> {
    if 0 <= i < v.len() {
        v[i]
    } else {
        None
    }
}

/// The bar for position `i`, when its close is present and not zero.
pub open spec fn row_at(ts: Seq<i64>, q: YFQuote, i: int) -> Option<OhlcvRow> {
    match value_at(q.close@, i) {
        Some(c) => if !float_is_zero(c) {
            Some(
                OhlcvRow {
                    ts: ts[i],
                    open: value_at(q.open@, i),
                    high: value_at(q.high@, i),
                    low: value_at(q.low@, i),
                    close: c,
                    volume: value_at(q.volume@, i),
                },
            )
        } else {
            None
        },
        None => None,
    }
}

/// The bars kept from the first `n` timestamps, in order.
pub open spec fn rows_kept(ts: Seq<i64>, q: YFQuote, n: int) -> Seq<OhlcvRow>
    decreases n,
{
    if n <= 0 {
        Seq::empty()
    } else {
        let prev = rows_kept(ts, q, n - 1);
        match row_at(ts, q, n - 1) {
            Some(r) => prev.push(r),
            None => prev,
        }
    }
}

/// The prices kept from the first `n` raw closes: present and not zero.
pub open spec fn prices_kept(raw: Seq<Option<u64>>, n: int) -> Seq<u64>
    decreases n,
{
    if n <= 0 {
        Seq::empty()
    } else {
        let prev = prices_kept(raw, n - 1);
        match raw[n - 1] {
            Some(p) => if !float_is_zero(p) {
                prev.push(p)
            } else {
                prev
            },
            None => prev,
        }
    }
}

/// Position `i` yields a bar: its close is present and is not zero.
pub open spec fn bar_kept_at(q: YFQuote, i: int) -> bool {
    0 <= i < q.close@.len() && q.close@[i] is Some && !float_is_zero(q.close@[i]->0)
}

/// Entry `i` of a quote column, `None` past its end.
pub open spec fn column_entry(col: Seq<Option<u64>>, i: int) -> Option<u64> {
    if i < col.len() {
        col[i]
    } else {
        None
    }
}

/// Bar `row` is the bar of position `i`: its timestamp and each price are
/// taken from the column of the same name at that position.
pub open spec fn bar_from(row: OhlcvRow, ts: Seq<i64>, q: YFQuote, i: int) -> bool {
    &&& row.ts == ts[i]
    &&& row.open == column_entry(q.open@, i)
    &&& row.high == column_entry(q.high@, i)
    &&& row.low == column_entry(q.low@, i)
    &&& Some(row.close) == q.close@[i]
    &&& row.volume == column_entry(q.volume@, i)
}

/// The positions among the first `n` that yield a bar, in order.
pub open spec fn kept_positions(q: YFQuote, n: int) -> Seq<int>
    decreases n,
{
    if n <= 0 {
        Seq::empty()
    } else if bar_kept_at(q, n - 1) {
        kept_positions(q, n - 1).push(n - 1)
    } else {
        kept_positions(q, n - 1)
    }
}

proof fn lemma_kept_positions(q: YFQuote, n: int)
    requires
        0 <= n,
    ensures
        forall|k: int| 0 <= k < kept_positions(q, n).len() ==> 0 <= #[trigger] kept_positions(q, n)[k] < n
            && bar_kept_at(q, kept_positions(q, n)[k]),
        forall|k: int, l: int|
            0 <= k < l < kept_positions(q, n).len() ==> #[trigger] kept_positions(q, n)[k]
                < #[trigger] kept_positions(q, n)[l],
        forall|i: int|
            0 <= i < n && #[trigger] bar_kept_at(q, i) ==> exists|k: int|
                0 <= k < kept_positions(q, n).len() && kept_positions(q, n)[k] == i,
    decreases n,
{
    if n > 0 {
        lemma_kept_positions(q, n - 1);
        let p = kept_positions(q, n - 1);
        if bar_kept_at(q, n - 1) {
            let pp = p.push(n - 1);
            assert(kept_positions(q, n) == pp);
            assert forall|i: int| 0 <= i < n && #[trigger] bar_kept_at(q, i) implies exists|k: int|
                0 <= k < pp.len() && pp[k] == i by {
                if i == n - 1 {
                    assert(pp[p.len() as int] == i);
                } else {
                    let k = choose|k: int| 0 <= k < p.len() && p[k] == i;
                    assert(pp[k] == i);
                }
            }
        } else {
            assert forall|i: int| 0 <= i < n && #[trigger] bar_kept_at(q, i) implies exists|k: int|
                0 <= k < p.len() && p[k] == i by {
                assert(i < n - 1);
                assert(bar_kept_at(q, i));
                let k = choose|k: int| 0 <= k < p.len() && p[k] == i;
                assert(p[k] == i);
            }
            assert(kept_positions(q, n) == p);
        }
    }
}

proof fn lemma_rows_follow_positions(ts: Seq<i64>, q: YFQuote, n: int)
    requires
        0 <= n <= ts.len(),
    ensures
        rows_kept(ts, q, n).len() == kept_positions(q, n).len(),
        forall|k: int|
            0 <= k < rows_kept(ts, q, n).len() ==> bar_from(
                #[trigger] rows_kept(ts, q, n)[k],
                ts,
                q,
                kept_positions(q, n)[k],
            ),
    decreases n,
{
    if n > 0 {
        lemma_rows_follow_positions(ts, q, n - 1);
    }
}

/// The bars extracted from a quote are exactly the positions whose close is
/// present and not zero, in increasing position order, each bar taking its
/// timestamp and its open, high, low, close and volume from the column of
/// the same name at its own position (a missing or short column gives
/// `None`).
pub proof fn lemma_extracted_bars(ts: Seq<i64>, q: YFQuote)
    ensures
        ({
            let rows = rows_kept(ts, q, ts.len() as int);
            exists|pos: Seq<int>|
                {
                    &&& pos.len() == rows.len()
                    &&& forall|k: int|
                        0 <= k < pos.len() ==> 0 <= #[trigger] pos[k] < ts.len() && bar_kept_at(q, pos[k])
                            && bar_from(rows[k], ts, q, pos[k])
                    &&& forall|k: int, l: int|
                        0 <= k < l < pos.len() ==> #[trigger] pos[k] < #[trigger] pos[l]
                    &&& forall|i: int|
                        0 <= i < ts.len() && #[trigger] bar_kept_at(q, i) ==> exists|k: int|
                            0 <= k < pos.len() && pos[k] == i
                }
        }),
{
    let n = ts.len() as int;
    lemma_kept_positions(q, n);
    lemma_rows_follow_positions(ts, q, n);
    let pos = kept_positions(q, n);
    let rows = rows_kept(ts, q, n);
    assert(forall|k: int|
        0 <= k < pos.len() ==> 0 <= #[trigger] pos[k] < ts.len() && bar_kept_at(q, pos[k]) && bar_from(
            rows[k],
            ts,
            q,
            pos[k],
        ));
}

/// The raw closes among the first `n` that are present and not zero.
pub open spec fn price_positions(raw: Seq<Option<u64>>, n: int) -> Seq<int>
    decreases n,
{
    if n <= 0 {
        Seq::empty()
    } else if raw[n - 1] is Some && !float_is_zero(raw[n - 1]->0) {
        price_positions(raw, n - 1).push(n - 1)
    } else {
        price_positions(raw, n - 1)
    }
}

proof fn lemma_price_positions(raw: Seq<Option<u64>>, n: int)
    requires
        0 <= n <= raw.len(),
    ensures
        prices_kept(raw, n).len() == price_positions(raw, n).len(),
        forall|k: int|
            0 <= k < price_positions(raw, n).len() ==> {
                let i = #[trigger] price_positions(raw, n)[k];
                &&& 0 <= i < n
                &&& raw[i] == Some(prices_kept(raw, n)[k])
                &&& !float_is_zero(prices_kept(raw, n)[k])
            },
        forall|k: int, l: int|
            0 <= k < l < price_positions(raw, n).len() ==> #[trigger] price_positions(raw, n)[k]
                < #[trigger] price_positions(raw, n)[l],
        forall|i: int|
            0 <= i < n && (#[trigger] raw[i]) is Some && !float_is_zero(raw[i]->0) ==> exists|k: int|
                0 <= k < price_positions(raw, n).len() && price_positions(raw, n)[k] == i,
    decreases n,
{
    if n > 0 {
        lemma_price_positions(raw, n - 1);
        let p = price_positions(raw, n - 1);
        if raw[n - 1] is Some && !float_is_zero(raw[n - 1]->0) {
            let pp = p.push(n - 1);
            assert(price_positions(raw, n) == pp);
            assert forall|i: int|
                0 <= i < n && (#[trigger] raw[i]) is Some && !float_is_zero(raw[i]->0) implies exists|k: int|
                0 <= k < pp.len() && pp[k] == i by {
                if i == n - 1 {
                    assert(pp[p.len() as int] == i);
                } else {
                    let k = choose|k: int| 0 <= k < p.len() && p[k] == i;
                    assert(pp[k] == i);
                }
            }
        } else {
            assert(price_positions(raw, n) == p);
            assert forall|i: int|
                0 <= i < n && (#[trigger] raw[i]) is Some && !float_is_zero(raw[i]->0) implies exists|k: int|
                0 <= k < p.len() && p[k] == i by {
                assert(i < n - 1);
                let k = choose|k: int| 0 <= k < p.len() && p[k] == i;
                assert(p[k] == i);
            }
        }
    }
}

/// The prices extracted from raw closes are exactly the closes that are
/// present and not zero, each once, in their original order.
pub proof fn lemma_extracted_prices(raw: Seq<Option<u64>>)
    ensures
        ({
            let prices = prices_kept(raw, raw.len() as int);
            exists|pos: Seq<int>|
                {
                    &&& pos.len() == prices.len()
                    &&& forall|k: int|
                        0 <= k < pos.len() ==> 0 <= #[trigger] pos[k] < raw.len() && raw[pos[k]] == Some(
                            prices[k],
                        ) && !float_is_zero(prices[k])
                    &&& forall|k: int, l: int|
                        0 <= k < l < pos.len() ==> #[trigger] pos[k] < #[trigger] pos[l]
                    &&& forall|i: int|
                        0 <= i < raw.len() && (#[trigger] raw[i]) is Some && !float_is_zero(raw[i]->0)
                            ==> exists|k: int| 0 <= k < pos.len() && pos[k] == i
                }
        }),
{
    lemma_price_positions(raw, raw.len() as int);
    let pos = price_positions(raw, raw.len() as int);
    let prices = prices_kept(raw, raw.len() as int);
    assert(forall|k: int|
        0 <= k < pos.len() ==> 0 <= #[trigger] pos[k] < raw.len() && raw[pos[k]] == Some(prices[k])
            && !float_is_zero(prices[k]));
}

/// The closing prices that are present and not zero, in order.
pub fn extract_prices(raw_closes: &[Option<u64>]) -> (r: Vec<u64>)
    ensures
        r@ == prices_kept(raw_closes@, raw_closes@.len() as int),
{
    let mut out: Vec<u64> = Vec::new();
    let n = raw_closes.len();
    let mut i: usize = 0;
    while i < n
        invariant
            n == raw_closes@.len(),
            i <= n,
            out@ == prices_kept(raw_closes@, i as int),
        decreases n - i,
    {
        match raw_closes[i] {
            Some(p) => {
                if !bits_is_zero(p) {
                    out.push(p);
                }
            },
            None => {},
        }
        i = i + 1;
    }
    out
}

fn value_of(v: &Vec<Option<u64>>, i: usize) -> (r: Option<u64>)
    ensures
        r == value_at(v@, i as int),
{
    if i < v.len() {
        v[i]
    } else {
        None
    }
}

/// The bars of a quote: one per timestamp whose close is present and not
/// zero, in timestamp order, with the other columns where present.
pub fn extract_ohlcv(timestamps: &[i64], quote: &YFQuote) -> (r: Vec<OhlcvRow>)
    ensures
        r@ == rows_kept(timestamps@, *quote, timestamps@.len() as int),
{
    let mut out: Vec<OhlcvRow> = Vec::new();
    let n = timestamps.len();
    let mut i: usize = 0;
    while i < n
        invariant
            n == timestamps@.len(),
            i <= n,
            out@ == rows_kept(timestamps@, *quote, i as int),
        decreases n - i,
    {
        match value_of(&quote.close, i) {
            Some(c) => {
                if !bits_is_zero(c) {
                    out.push(
                        OhlcvRow {
                            ts: timestamps[i],
                            open: value_of(&quote.open, i),
                            high: value_of(&quote.high, i),
                            low: value_of(&quote.low, i),
                            close: c,
                            volume: value_of(&quote.volume, i),
                        },
                    );
                }
            },
            None => {},
        }
        i = i + 1;
    }
    out
}

/// Builds the chart request URL (the same request as
/// [`crate::yahoo::build_chart_url`]).
pub fn build_chart_url(symbol: &str, interval: &str, need_full_range: bool) -> (r: String)
    ensures
        r@ == chart_url(symbol@, interval@, need_full_range),
{
    crate::yahoo::build_chart_url(symbol, interval, need_full_range)
}

} // verus!
