//! The decisions of one polling cycle: which range to fetch, what to keep
//! of the chart response, when an alert is sent, the cycle's counters, how
//! many bars to keep, and the retry schedule of a fetch.
use vstd::prelude::*;
use crate::config::{DaemonConfig, IndicatorConfig, TickerConfig, required_bars_spec};
use crate::data::{OhlcvRow, extract_ohlcv, rows_kept};
use crate::yahoo::YFResponse;

verus! {

/// A full range is fetched for a series that has nothing stored yet.
pub fn need_full_fetch(latest_timestamp: Option<i64>) -> (r: bool)
    ensures
        r == (latest_timestamp is None),
{
    latest_timestamp.is_none()
}

/// Why a chart response gave no bars to store.
#[derive(Clone, Copy, Debug, PartialEq, Eq, Structural)]
pub enum ChartProblem {
    /// No result, or an empty result list.
    NoChartData,
    /// The first result has no quote.
    NoQuoteData,
}

/// The bars a chart response yields: those of the first quote of the first
/// result, or why there are none.
pub open spec fn chart_rows(resp: YFResponse) -> Result<Seq<OhlcvRow>, ChartProblem> {
    match resp.chart.result {
        None => Err(ChartProblem::NoChartData),
        Some(results) => if results@.len() == 0 {
            Err(ChartProblem::NoChartData)
        } else {
            let first = results@[0];
            if first.indicators.quote@.len() == 0 {
                Err(ChartProblem::NoQuoteData)
            } else {
                Ok(
                    rows_kept(
                        first.timestamp@,
                        first.indicators.quote@[0],
                        first.timestamp@.len() as int,
                    ),
                )
            }
        },
    }
}

/// Picks the bars to store out of a chart response.
pub fn select_chart(resp: &YFResponse) -> (r: Result<Vec<OhlcvRow>, ChartProblem>)
    ensures
        match r {
            Ok(rows) => chart_rows(*resp) == Ok::<Seq<OhlcvRow>, ChartProblem>(rows@),
            Err(p) => chart_rows(*resp) == Err::<Seq<OhlcvRow>, ChartProblem>(p),
        },
{
    match &resp.chart.result {
        None => Err(ChartProblem::NoChartData),
        Some(results) => {
            if results.len() == 0 {
                return Err(ChartProblem::NoChartData);
            }
            let first = &results[0];
            if first.indicators.quote.len() == 0 {
                return Err(ChartProblem::NoQuoteData);
            }
            Ok(extract_ohlcv(first.timestamp.as_slice(), &first.indicators.quote[0]))
        },
    }
}

/// Indicators are evaluated only on a history of at least two prices.
pub fn enough_history(len: usize) -> (r: bool)
    ensures
        r == (len >= 2),
{
    len >= 2
}

/// An alert is sent when the indicator triggers and its previous stored
/// result, if any, did not.
pub open spec fn alert_due(triggered: bool, previous: Option<bool>) -> bool {
    triggered && match previous {
        Some(t) => !t,
        None => true,
    }
}

/// Whether to send an alert for a result, given the last stored result.
pub fn should_alert(triggered: bool, previous: Option<bool>) -> (r: bool)
    ensures
        r == alert_due(triggered, previous),
        r ==> triggered,
        previous == Some(true) ==> !r,
{
    triggered && match previous {
        Some(t) => !t,
        None => true,
    }
}

/// Whether an alert goes out at cycle `i` when the stored results of the
/// cycles are `history` (each cycle stores its result, so the previous
/// result of cycle `i` is that of cycle `i - 1`).
pub open spec fn alert_at(history: Seq<bool>, i: int) -> bool {
    alert_due(
        history[i],
        if i == 0 {
            None
        } else {
            Some(history[i - 1])
        },
    )
}

/// Alerts fire only on transitions: at cycle `i` exactly when the condition
/// holds there and did not hold at the cycle before; so between two alerts
/// there is always a cycle where the condition was clear.
pub proof fn lemma_alerts_on_transitions(history: Seq<bool>, i: int, j: int)
    requires
        0 <= i < j < history.len(),
    ensures
        alert_at(history, j) <==> (history[j] && !history[j - 1]),
        alert_at(history, i) && alert_at(history, j) ==> exists|k: int|
            i < k < j && !#[trigger] history[k],
{
    if alert_at(history, i) && alert_at(history, j) {
        assert(i < j - 1);
        assert(!history[j - 1]);
    }
}

/// An alert is due exactly when the indicator triggered and the previous
/// stored result, if there is one, did not: with no history every trigger
/// alerts, after a trigger none does, after a clear result every trigger
/// does, and a result that did not trigger never alerts.
pub proof fn lemma_alert_due_meaning(triggered: bool, previous: Option<bool>)
    ensures
        alert_due(triggered, None) == triggered,
        alert_due(triggered, Some(true)) == false,
        alert_due(triggered, Some(false)) == triggered,
        alert_due(false, previous) == false,
        alert_due(triggered, previous) == (triggered && previous != Some(true)),
{
}

/// The bars of a chart response come from its first result's first quote:
/// no result or an empty list means no chart data, a first result without
/// quotes means no quote data, and otherwise the bars are those of the
/// first quote at the first result's timestamps.
pub proof fn lemma_chart_rows_meaning(resp: YFResponse)
    ensures
        resp.chart.result is None ==> chart_rows(resp) == Err::<Seq<OhlcvRow>, ChartProblem>(
            ChartProblem::NoChartData,
        ),
        resp.chart.result is Some && resp.chart.result->0@.len() == 0 ==> chart_rows(resp) == Err::<
            Seq<OhlcvRow>,
            ChartProblem,
        >(ChartProblem::NoChartData),
        resp.chart.result is Some && resp.chart.result->0@.len() > 0
            && resp.chart.result->0@[0].indicators.quote@.len() == 0 ==> chart_rows(resp) == Err::<
            Seq<OhlcvRow>,
            ChartProblem,
        >(ChartProblem::NoQuoteData),
        resp.chart.result is Some && resp.chart.result->0@.len() > 0
            && resp.chart.result->0@[0].indicators.quote@.len() > 0 ==> chart_rows(resp) == Ok::<
            Seq<OhlcvRow>,
            ChartProblem,
        >(
            rows_kept(
                resp.chart.result->0@[0].timestamp@,
                resp.chart.result->0@[0].indicators.quote@[0],
                resp.chart.result->0@[0].timestamp@.len() as int,
            ),
        ),
{
}

/// Counters of one evaluation cycle.
#[derive(Clone, Copy, Debug)]
pub struct CycleStats {
    pub indicators: u32,
    pub triggered: u32,
    pub failures: u32,
}

impl CycleStats {
    /// No more alerts than evaluations.
    pub open spec fn well_formed(&self) -> bool {
        self.triggered <= self.indicators
    }

    pub fn new() -> (r: Self)
        ensures
            r.indicators == 0,
            r.triggered == 0,
            r.failures == 0,
            r.well_formed(),
    {
        CycleStats { indicators: 0, triggered: 0, failures: 0 }
    }

    /// Counts a ticker whose data could not be had.
    pub fn record_failure(&mut self)
        requires
            old(self).failures < u32::MAX,
        ensures
            final(self).failures == old(self).failures + 1,
            final(self).indicators == old(self).indicators,
            final(self).triggered == old(self).triggered,
    {
        self.failures = self.failures + 1;
    }

    /// Counts an evaluated indicator, and the alert if one was due.
    pub fn record_evaluation(&mut self, alerted: bool)
        requires
            old(self).indicators < u32::MAX,
            alerted ==> old(self).triggered < u32::MAX,
        ensures
            final(self).indicators == old(self).indicators + 1,
            final(self).triggered == old(self).triggered + if alerted {
                1int
            } else {
                0int
            },
            final(self).failures == old(self).failures,
            old(self).well_formed() ==> final(self).well_formed(),
    {
        self.indicators = self.indicators + 1;
        if alerted {
            self.triggered = self.triggered + 1;
        }
    }
}

/// The largest requirement among `inds[..n]`, 0 when there are none.
pub open spec fn max_bars_in(inds: Seq<IndicatorConfig>, n: int) -> int
    decreases n,
{
    if n <= 0 {
        0
    } else {
        let m = max_bars_in(inds, n - 1);
        let b = required_bars_spec(inds[n - 1]);
        if b > m {
            b
        } else {
            m
        }
    }
}

/// The largest requirement among the indicators of `ts[..n]`.
pub open spec fn max_bars_of(ts: Seq<TickerConfig>, n: int) -> int
    decreases n,
{
    if n <= 0 {
        0
    } else {
        let m = max_bars_of(ts, n - 1);
        let b = max_bars_in(ts[n - 1].indicators@, ts[n - 1].indicators@.len() as int);
        if b > m {
            b
        } else {
            m
        }
    }
}

/// The largest number of bars any configured indicator requires.
pub open spec fn max_required_bars(c: DaemonConfig) -> int {
    max_bars_of(c.tickers@, c.tickers@.len() as int)
}

/// Every indicator's requirement can be computed in a `usize`.
pub open spec fn bars_fit(c: DaemonConfig) -> bool {
    forall|i: int, j: int|
        #![trigger c.tickers@[i].indicators@[j]]
        0 <= i < c.tickers@.len() && 0 <= j < c.tickers@[i].indicators@.len()
            ==> required_bars_spec(c.tickers@[i].indicators@[j]) <= usize::MAX
}

/// Bars in 36 months: daily bars for `"1d"` and for anything unknown,
/// weekly bars for `"1wk"`.
pub open spec fn months_cap(interval: Seq<char>) -> int {
    if interval == "1wk"@ {
        144
    } else {
        1080
    }
}

/// Bars kept per series: twice the largest requirement, capped at 36
/// months of bars, and never fewer than 50.
pub open spec fn retain_count_spec(c: DaemonConfig) -> int {
    let doubled = 2 * max_required_bars(c);
    let capped = if doubled < months_cap(c.interval_type@) {
        doubled
    } else {
        months_cap(c.interval_type@)
    };
    if capped > 50 {
        capped
    } else {
        50
    }
}

proof fn lemma_max_bars_in_bounds(inds: Seq<IndicatorConfig>, n: int)
    requires
        0 <= n <= inds.len(),
    ensures
        forall|j: int| 0 <= j < n ==> required_bars_spec(#[trigger] inds[j]) <= max_bars_in(inds, n),
    decreases n,
{
    if n > 0 {
        lemma_max_bars_in_bounds(inds, n - 1);
    }
}

fn max_bars_in_exec(inds: &Vec<IndicatorConfig>, Ghost(c): Ghost<DaemonConfig>, Ghost(ti): Ghost<
    int,
>) -> (r: usize)
    requires
        bars_fit(c),
        0 <= ti < c.tickers@.len(),
        c.tickers@[ti].indicators@ == inds@,
    ensures
        r == max_bars_in(inds@, inds@.len() as int),
{
    let n = inds.len();
    let mut m: usize = 0;
    let mut j: usize = 0;
    while j < n
        invariant
            n == inds@.len(),
            j <= n,
            bars_fit(c),
            0 <= ti < c.tickers@.len(),
            c.tickers@[ti].indicators@ == inds@,
            m == max_bars_in(inds@, j as int),
        decreases n - j,
    {
        assert(required_bars_spec(c.tickers@[ti].indicators@[j as int]) <= usize::MAX);
        let b = inds[j].required_bars();
        if b > m {
            m = b;
        }
        j = j + 1;
    }
    m
}

/// Whether [`compute_retain_count`] can run: every requirement fits in a
/// `usize` and twice the largest fits in an `i64`.
pub open spec fn retain_count_defined(c: DaemonConfig) -> bool {
    bars_fit(c) && max_required_bars(c) <= i64::MAX / 2
}

/// How many bars of each series to keep when purging old data.
pub fn compute_retain_count(config: &DaemonConfig) -> (r: i64)
    requires
        retain_count_defined(*config),
    ensures
        r == retain_count_spec(*config),
        50 <= r,
        r <= 1080,
{
    let n = config.tickers.len();
    let mut m: usize = 0;
    let mut i: usize = 0;
    while i < n
        invariant
            n == config.tickers@.len(),
            i <= n,
            bars_fit(*config),
            m == max_bars_of(config.tickers@, i as int),
        decreases n - i,
    {
        let b = max_bars_in_exec(&config.tickers[i].indicators, Ghost(*config), Ghost(i as int));
        if b > m {
            m = b;
        }
        i = i + 1;
    }
    let max_bars = m as i64;
    let months_bars: i64 = if crate::text::str_eq(config.interval_type.as_str(), "1wk") {
        36 * 4
    } else {
        36 * 30
    };
    let doubled = max_bars * 2;
    let retain = if doubled < months_bars {
        doubled
    } else {
        months_bars
    };
    if retain > 50 {
        retain
    } else {
        50
    }
}

fn required_bars_wide(ind: &IndicatorConfig) -> (r: u128)
    ensures
        r == required_bars_spec(*ind),
{
    match ind {
        IndicatorConfig::Rsi(c) => 3 * (c.period as u128),
        IndicatorConfig::BollingerBands(c) => 2 * (c.period as u128),
        IndicatorConfig::Macd(c) => (c.slow as u128) + (c.signal as u128) + (c.fast as u128),
        IndicatorConfig::Crossover(c) => 2 * (c.slow_period as u128),
    }
}

/// Whether [`compute_retain_count`] can be called on `config`.
pub fn retain_count_computable(config: &DaemonConfig) -> (r: bool)
    ensures
        r == retain_count_defined(*config),
{
    let n = config.tickers.len();
    let mut m: u128 = 0;
    let mut i: usize = 0;
    while i < n
        invariant
            n == config.tickers@.len(),
            i <= n,
            m == max_bars_of(config.tickers@, i as int),
            forall|a: int, b: int|
                #![trigger config.tickers@[a].indicators@[b]]
                0 <= a < i && 0 <= b < config.tickers@[a].indicators@.len() ==> required_bars_spec(
                    config.tickers@[a].indicators@[b],
                ) <= usize::MAX,
        decreases n - i,
    {
        let inds = &config.tickers[i].indicators;
        let k = inds.len();
        let mut t: u128 = 0;
        let mut j: usize = 0;
        while j < k
            invariant
                n == config.tickers@.len(),
                i < n,
                inds@ == config.tickers@[i as int].indicators@,
                k == inds@.len(),
                j <= k,
                t == max_bars_in(inds@, j as int),
                forall|b: int|
                    0 <= b < j ==> required_bars_spec(#[trigger] inds@[b]) <= usize::MAX,
            decreases k - j,
        {
            let b = required_bars_wide(&inds[j]);
            if b > usize::MAX as u128 {
                proof {
                    assert(config.tickers@[i as int].indicators@[j as int] == inds@[j as int]);
                }
                return false;
            }
            if b > t {
                t = b;
            }
            j = j + 1;
        }
        if t > m {
            m = t;
        }
        i = i + 1;
        proof {
            assert forall|a: int, b: int|
                #![trigger config.tickers@[a].indicators@[b]]
                0 <= a < i && 0 <= b < config.tickers@[a].indicators@.len() implies required_bars_spec(
                config.tickers@[a].indicators@[b],
            ) <= usize::MAX by {
                if a == i - 1 {
                    assert(config.tickers@[a].indicators@[b] == inds@[b]);
                }
            }
        }
    }
    m <= (i64::MAX / 2) as u128
}

/// The purge keeps enough history for every configured indicator: twice
/// its requirement, or the 36-month cap when that is smaller.
pub proof fn lemma_retain_covers_every_indicator(c: DaemonConfig, i: int, j: int)
    requires
        0 <= i < c.tickers@.len(),
        0 <= j < c.tickers@[i].indicators@.len(),
    ensures
        retain_count_spec(c) >= 2 * required_bars_spec(c.tickers@[i].indicators@[j])
            || retain_count_spec(c) >= months_cap(c.interval_type@),
{
    let inds = c.tickers@[i].indicators@;
    lemma_max_bars_in_bounds(inds, inds.len() as int);
    lemma_max_bars_of_bounds(c.tickers@, c.tickers@.len() as int, i);
}

proof fn lemma_max_bars_of_bounds(ts: Seq<TickerConfig>, n: int, i: int)
    requires
        0 <= i < n <= ts.len(),
    ensures
        max_bars_in(ts[i].indicators@, ts[i].indicators@.len() as int) <= max_bars_of(ts, n),
    decreases n,
{
    if i < n - 1 {
        lemma_max_bars_of_bounds(ts, n - 1, i);
    }
}

proof fn lemma_max_bars_in_attained(inds: Seq<IndicatorConfig>, n: int)
    requires
        0 <= n <= inds.len(),
    ensures
        max_bars_in(inds, n) == 0 || exists|j: int|
            0 <= j < n && max_bars_in(inds, n) == required_bars_spec(#[trigger] inds[j]),
    decreases n,
{
    if n > 0 {
        lemma_max_bars_in_attained(inds, n - 1);
        if required_bars_spec(inds[n - 1]) <= max_bars_in(inds, n - 1) && max_bars_in(inds, n - 1)
            != 0 {
            let j = choose|j: int|
                0 <= j < n - 1 && max_bars_in(inds, n - 1) == required_bars_spec(#[trigger] inds[j]);
            assert(max_bars_in(inds, n) == required_bars_spec(inds[j]));
        }
    }
}

proof fn lemma_max_bars_of_attained(ts: Seq<TickerConfig>, n: int)
    requires
        0 <= n <= ts.len(),
    ensures
        max_bars_of(ts, n) == 0 || exists|i: int, j: int|
            0 <= i < n && 0 <= j < ts[i].indicators@.len() && max_bars_of(ts, n)
                == required_bars_spec(#[trigger] ts[i].indicators@[j]),
    decreases n,
{
    if n > 0 {
        lemma_max_bars_of_attained(ts, n - 1);
        let inds = ts[n - 1].indicators@;
        lemma_max_bars_in_attained(inds, inds.len() as int);
        let b = max_bars_in(inds, inds.len() as int);
        if b > max_bars_of(ts, n - 1) {
            if b != 0 {
                let j = choose|j: int| 0 <= j < inds.len() && b == required_bars_spec(#[trigger] inds[j]);
                assert(max_bars_of(ts, n) == required_bars_spec(ts[n - 1].indicators@[j]));
            }
        } else if max_bars_of(ts, n - 1) != 0 {
            let (i, j) = choose|i: int, j: int|
                0 <= i < n - 1 && 0 <= j < ts[i].indicators@.len() && max_bars_of(ts, n - 1)
                    == required_bars_spec(#[trigger] ts[i].indicators@[j]);
            assert(max_bars_of(ts, n) == required_bars_spec(ts[i].indicators@[j]));
        }
    }
}

/// The retain count is never below 50 nor above the larger of 50 and the
/// 36-month cap (1080 bars daily, 144 weekly); between those bounds it is
/// twice the requirement of some configured indicator, and it is at least
/// twice every indicator's requirement unless the cap is what it keeps.
pub proof fn lemma_retain_count_meaning(c: DaemonConfig)
    ensures
        ({
            let r = retain_count_spec(c);
            let cap = if c.interval_type@ == "1wk"@ {
                144int
            } else {
                1080int
            };
            &&& 50 <= r
            &&& r <= if cap > 50 {
                cap
            } else {
                50
            }
            &&& (50 < r && r < cap) ==> exists|i: int, j: int|
                0 <= i < c.tickers@.len() && 0 <= j < c.tickers@[i].indicators@.len() && r == 2
                    * required_bars_spec(#[trigger] c.tickers@[i].indicators@[j])
            &&& forall|i: int, j: int|
                0 <= i < c.tickers@.len() && 0 <= j < c.tickers@[i].indicators@.len() ==> (2
                    * required_bars_spec(#[trigger] c.tickers@[i].indicators@[j]) <= r || r == cap)
        }),
{
    lemma_max_bars_of_attained(c.tickers@, c.tickers@.len() as int);
    assert forall|i: int, j: int|
        0 <= i < c.tickers@.len() && 0 <= j < c.tickers@[i].indicators@.len() implies (2
        * required_bars_spec(#[trigger] c.tickers@[i].indicators@[j]) <= retain_count_spec(c)
        || retain_count_spec(c) == months_cap(c.interval_type@)) by {
        lemma_retain_covers_every_indicator(c, i, j);
    }
}

/// Old bars are purged only for a positive retain count; otherwise the
/// purge leaves the store as it is.
pub fn purge_applies(retain_count: i64) -> (r: bool)
    ensures
        r == (retain_count > 0),
{
    retain_count > 0
}

} // verus!
