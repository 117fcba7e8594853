//! One polling cycle as a state machine.
//!
//! The program around the library performs each action (waiting, database
//! reads and writes, network fetches, indicator arithmetic) and hands back
//! what came of it as an event; [`CycleState::step`] decides what to do
//! next. Tickers are visited in order, each exactly once; a ticker whose
//! data cannot be had is counted as a failure and the cycle goes on with the
//! next one; the purge comes after the last ticker.
use vstd::prelude::*;
use crate::config::{DaemonConfig, effective_interval};
use crate::cycle::{
    alert_due, chart_rows, need_full_fetch, select_chart, should_alert, CycleStats,
};
use crate::data::OhlcvRow;
use crate::yahoo::{YFResponse, build_chart_url, chart_url};

verus! {

/// Where a cycle stands.
#[derive(Clone, Copy, Debug, PartialEq, Eq, Structural)]
pub enum Stage {
    /// Waiting for the latest stored timestamp of the current ticker.
    AwaitLatest,
    /// Waiting for the chart fetch of the current ticker.
    AwaitFetch,
    /// Waiting for the closing prices stored for the current ticker.
    AwaitPrices,
    /// Waiting for the result of the current ticker's indicator at this index.
    Evaluating(usize),
    /// Every ticker was visited.
    Finished,
}

/// The state of a cycle: the ticker being worked on, the stage, and the
/// counters so far.
#[derive(Clone, Copy, Debug)]
pub struct CycleState {
    pub ticker: usize,
    pub stage: Stage,
    pub stats: CycleStats,
}

/// What the program is to do next.
#[derive(Clone, Debug)]
pub enum CycleAction {
    /// Wait the ticker delay, then look up the latest stored timestamp of
    /// this ticker's series; answer with [`CycleEvent::Latest`].
    QueryLatest(usize),
    /// Fetch this URL for this ticker; answer with [`CycleEvent::Fetched`]
    /// or [`CycleEvent::FetchFailed`].
    Fetch(usize, String),
    /// Store these bars for this ticker, then load its closing prices;
    /// answer with [`CycleEvent::PricesLoaded`].
    StoreAndLoad(usize, Vec<OhlcvRow>),
    /// Evaluate indicator `.1` of ticker `.0`, read its previous stored
    /// result and store the new one; answer with [`CycleEvent::Evaluated`].
    Evaluate(usize, usize),
    /// Purge old bars; the cycle is over.
    Purge,
    /// The event did not fit the stage; nothing to do.
    Ignore,
}

/// What came of an action.
#[derive(Clone, Debug)]
pub enum CycleEvent {
    Latest(Option<i64>),
    FetchFailed,
    Fetched(YFResponse),
    /// The number of closing prices loaded.
    PricesLoaded(usize),
    /// Whether the indicator triggered, and the previous stored result.
    Evaluated(bool, Option<bool>),
}

/// [`CycleAction`] with the URL and the bars taken by their views.
pub enum ActionView {
    QueryLatest(usize),
    Fetch(usize, Seq<char>),
    StoreAndLoad(usize, Seq<OhlcvRow>),
    Evaluate(usize, usize),
    Purge,
    Ignore,
}

impl View for CycleAction {
    type V = ActionView;

    open spec fn view(&self) -> ActionView {
        match self {
            CycleAction::QueryLatest(t) => ActionView::QueryLatest(*t),
            CycleAction::Fetch(t, u) => ActionView::Fetch(*t, u@),
            CycleAction::StoreAndLoad(t, rows) => ActionView::StoreAndLoad(*t, rows@),
            CycleAction::Evaluate(t, j) => ActionView::Evaluate(*t, *j),
            CycleAction::Purge => ActionView::Purge,
            CycleAction::Ignore => ActionView::Ignore,
        }
    }
}

/// Begins ticker `t`, or finishes the cycle when there is none.
pub open spec fn begin_at(c: DaemonConfig, t: usize, stats: CycleStats) -> (CycleState, ActionView) {
    if t < c.tickers@.len() {
        (CycleState { ticker: t, stage: Stage::AwaitLatest, stats }, ActionView::QueryLatest(t))
    } else {
        (CycleState { ticker: t, stage: Stage::Finished, stats }, ActionView::Purge)
    }
}

pub open spec fn with_failure(stats: CycleStats) -> CycleStats {
    CycleStats { failures: (stats.failures + 1) as u32, ..stats }
}

pub open spec fn with_evaluation(stats: CycleStats, alerted: bool) -> CycleStats {
    CycleStats {
        indicators: (stats.indicators + 1) as u32,
        triggered: if alerted {
            (stats.triggered + 1) as u32
        } else {
            stats.triggered
        },
        ..stats
    }
}

/// The next state, the action, and whether an alert is to be sent for the
/// indicator result just reported.
pub open spec fn step_spec(c: DaemonConfig, s: CycleState, e: CycleEvent) -> (
    CycleState,
    ActionView,
    bool,
) {
    let ignore = (s, ActionView::Ignore, false);
    if s.ticker >= c.tickers@.len() {
        ignore
    } else {
        let t = c.tickers@[s.ticker as int];
        match (s.stage, e) {
            (Stage::AwaitLatest, CycleEvent::Latest(ts)) => (
                CycleState { stage: Stage::AwaitFetch, ..s },
                ActionView::Fetch(
                    s.ticker,
                    chart_url(
                        t.symbol@,
                        effective_interval(t, c.interval_type)@,
                        ts is None,
                    ),
                ),
                false,
            ),
            (Stage::AwaitFetch, CycleEvent::FetchFailed) => {
                let b = begin_at(c, (s.ticker + 1) as usize, with_failure(s.stats));
                (b.0, b.1, false)
            },
            (Stage::AwaitFetch, CycleEvent::Fetched(resp)) => match chart_rows(resp) {
                Ok(rows) => (
                    CycleState { stage: Stage::AwaitPrices, ..s },
                    ActionView::StoreAndLoad(s.ticker, rows),
                    false,
                ),
                Err(_) => {
                    let b = begin_at(c, (s.ticker + 1) as usize, with_failure(s.stats));
                    (b.0, b.1, false)
                },
            },
            (Stage::AwaitPrices, CycleEvent::PricesLoaded(n)) => if n < 2 || t.indicators@.len()
                == 0 {
                let b = begin_at(c, (s.ticker + 1) as usize, s.stats);
                (b.0, b.1, false)
            } else {
                (
                    CycleState { stage: Stage::Evaluating(0), ..s },
                    ActionView::Evaluate(s.ticker, 0),
                    false,
                )
            },
            (Stage::Evaluating(j), CycleEvent::Evaluated(triggered, previous)) => {
                let alert = alert_due(triggered, previous);
                let stats = with_evaluation(s.stats, alert);
                if j + 1 < t.indicators@.len() {
                    (
                        CycleState { stage: Stage::Evaluating((j + 1) as usize), stats, ..s },
                        ActionView::Evaluate(s.ticker, (j + 1) as usize),
                        alert,
                    )
                } else {
                    let b = begin_at(c, (s.ticker + 1) as usize, stats);
                    (b.0, b.1, alert)
                }
            },
            _ => ignore,
        }
    }
}

/// The counter that an event would raise is below its limit.
pub open spec fn step_counts_fit(s: CycleState, e: CycleEvent) -> bool {
    match (s.stage, e) {
        (Stage::AwaitFetch, CycleEvent::FetchFailed) => s.stats.failures < u32::MAX,
        (Stage::AwaitFetch, CycleEvent::Fetched(resp)) => chart_rows(resp) is Err
            ==> s.stats.failures < u32::MAX,
        (Stage::Evaluating(_), CycleEvent::Evaluated(triggered, previous)) => {
            &&& s.stats.indicators < u32::MAX
            &&& alert_due(triggered, previous) ==> s.stats.triggered < u32::MAX
        },
        _ => true,
    }
}

fn begin(config: &DaemonConfig, t: usize, stats: CycleStats) -> (r: (CycleState, CycleAction))
    ensures
        (r.0, r.1@) == begin_at(*config, t, stats),
{
    if t < config.tickers.len() {
        (CycleState { ticker: t, stage: Stage::AwaitLatest, stats }, CycleAction::QueryLatest(t))
    } else {
        (CycleState { ticker: t, stage: Stage::Finished, stats }, CycleAction::Purge)
    }
}

impl CycleState {
    /// The state and first action of a cycle over `config`.
    pub fn start(config: &DaemonConfig) -> (r: (CycleState, CycleAction))
        ensures
            (r.0, r.1@) == begin_at(*config, 0, CycleStats { indicators: 0, triggered: 0, failures: 0 }),
    {
        begin(config, 0, CycleStats::new())
    }

    /// Takes the event that answers the last action; returns the next state,
    /// the next action, and whether to send the alert of the indicator just
    /// evaluated (before doing the next action).
    pub fn step(&self, config: &DaemonConfig, event: CycleEvent) -> (r: (CycleState, CycleAction, bool))
        requires
            step_counts_fit(*self, event),
        ensures
            (r.0, r.1@, r.2) == step_spec(*config, *self, event),
    {
        let s = *self;
        if s.ticker >= config.tickers.len() {
            return (s, CycleAction::Ignore, false);
        }
        let t = &config.tickers[s.ticker];
        match (s.stage, event) {
            (Stage::AwaitLatest, CycleEvent::Latest(ts)) => {
                let interval = t.interval(&config.interval_type);
                let url = build_chart_url(t.symbol.as_str(), interval.as_str(), need_full_fetch(ts));
                (CycleState { stage: Stage::AwaitFetch, ..s }, CycleAction::Fetch(s.ticker, url), false)
            },
            (Stage::AwaitFetch, CycleEvent::FetchFailed) => {
                let mut stats = s.stats;
                stats.record_failure();
                let b = begin(config, s.ticker + 1, stats);
                (b.0, b.1, false)
            },
            (Stage::AwaitFetch, CycleEvent::Fetched(resp)) => match select_chart(&resp) {
                Ok(rows) => (
                    CycleState { stage: Stage::AwaitPrices, ..s },
                    CycleAction::StoreAndLoad(s.ticker, rows),
                    false,
                ),
                Err(_) => {
                    let mut stats = s.stats;
                    stats.record_failure();
                    let b = begin(config, s.ticker + 1, stats);
                    (b.0, b.1, false)
                },
            },
            (Stage::AwaitPrices, CycleEvent::PricesLoaded(n)) => {
                if n < 2 || t.indicators.len() == 0 {
                    let b = begin(config, s.ticker + 1, s.stats);
                    (b.0, b.1, false)
                } else {
                    (
                        CycleState { stage: Stage::Evaluating(0), ..s },
                        CycleAction::Evaluate(s.ticker, 0),
                        false,
                    )
                }
            },
            (Stage::Evaluating(j), CycleEvent::Evaluated(triggered, previous)) => {
                let alert = should_alert(triggered, previous);
                let mut stats = s.stats;
                stats.record_evaluation(alert);
                if j < t.indicators.len() && j + 1 < t.indicators.len() {
                    (
                        CycleState { stage: Stage::Evaluating(j + 1), stats, ..s },
                        CycleAction::Evaluate(s.ticker, j + 1),
                        alert,
                    )
                } else {
                    let b = begin(config, s.ticker + 1, stats);
                    (b.0, b.1, alert)
                }
            },
            _ => (s, CycleAction::Ignore, false),
        }
    }
}

/// Every step keeps to the order of the tickers: it stays on the current
/// ticker or moves to the next one, never back and never past the end; it
/// asks for the purge exactly when it moves past the last ticker; a failure
/// is counted only when the chart fetch failed or gave no bars, and then the
/// cycle moves on to the next ticker; no more alerts are counted than
/// evaluations.
pub proof fn lemma_step_progress(c: DaemonConfig, s: CycleState, e: CycleEvent)
    requires
        c.tickers@.len() <= usize::MAX,
        s.ticker <= c.tickers@.len(),
        s.stats.well_formed(),
        step_counts_fit(s, e),
    ensures
        s.ticker <= step_spec(c, s, e).0.ticker <= s.ticker + 1,
        step_spec(c, s, e).0.ticker <= c.tickers@.len(),
        (step_spec(c, s, e).1 is Purge) <==> (step_spec(c, s, e).0.ticker == c.tickers@.len()
            && step_spec(c, s, e).0.ticker == s.ticker + 1),
        step_spec(c, s, e).0.stats.failures == s.stats.failures || (step_spec(c, s, e).0.stats.failures
            == s.stats.failures + 1 && s.stage is AwaitFetch && step_spec(c, s, e).0.ticker == s.ticker
            + 1),
        step_spec(c, s, e).0.stats.well_formed(),
        step_spec(c, s, e).2 ==> s.stage is Evaluating && step_spec(c, s, e).0.stats.triggered
            == s.stats.triggered + 1,
{
}

/// Every indicator of a ticker is alerted on its own transition, not only
/// the last one: when indicator `j` of the current ticker reports its
/// result, the step asks for an alert exactly when the indicator triggered
/// and its previous stored result was not a trigger (or there was none), it
/// counts one more evaluation and raises the alert count by exactly that
/// flag, and it goes on to indicator `j + 1` of the same ticker when there
/// is one.
pub proof fn lemma_each_indicator_alerts(
    c: DaemonConfig,
    s: CycleState,
    j: usize,
    triggered: bool,
    previous: Option<bool>,
)
    requires
        c.tickers@.len() <= usize::MAX,
        s.ticker < c.tickers@.len(),
        s.stage == Stage::Evaluating(j),
        j < c.tickers@[s.ticker as int].indicators@.len(),
        s.stats.indicators < u32::MAX,
        s.stats.triggered < u32::MAX,
    ensures
        ({
            let (n, a, alert) = step_spec(c, s, CycleEvent::Evaluated(triggered, previous));
            let expected = triggered && previous != Some(true);
            &&& alert == expected
            &&& n.stats.indicators == s.stats.indicators + 1
            &&& n.stats.triggered == s.stats.triggered + if expected {
                1int
            } else {
                0int
            }
            &&& n.stats.failures == s.stats.failures
            &&& j + 1 < c.tickers@[s.ticker as int].indicators@.len() ==> n.ticker == s.ticker
                && n.stage == Stage::Evaluating((j + 1) as usize) && a == ActionView::Evaluate(
                s.ticker,
                (j + 1) as usize,
            )
        }),
{
}

/// The other steps on the current ticker: the latest stored timestamp leads
/// to a fetch of the ticker's chart at its own interval, over the full range
/// exactly when nothing is stored; a failed fetch, or one without bars,
/// counts one failure and moves to the next ticker; a fetch with bars asks
/// to store exactly those bars; the loaded prices lead to evaluating the
/// first indicator exactly when there are at least two prices and the
/// ticker has indicators, and otherwise to the next ticker with the counts
/// unchanged.
pub proof fn lemma_ticker_steps(c: DaemonConfig, s: CycleState, e: CycleEvent)
    requires
        c.tickers@.len() <= usize::MAX,
        s.ticker < c.tickers@.len(),
        step_counts_fit(s, e),
    ensures
        ({
            let t = c.tickers@[s.ticker as int];
            let (n, a, alert) = step_spec(c, s, e);
            let next = begin_at(c, (s.ticker + 1) as usize, n.stats);
            &&& (s.stage == Stage::AwaitLatest && e is Latest) ==> a == ActionView::Fetch(
                s.ticker,
                chart_url(t.symbol@, effective_interval(t, c.interval_type)@, e->Latest_0 is None),
            ) && n.stage == Stage::AwaitFetch && n.ticker == s.ticker && n.stats == s.stats
            &&& (s.stage == Stage::AwaitFetch && (e is FetchFailed || (e is Fetched && chart_rows(
                e->Fetched_0,
            ) is Err))) ==> (n, a) == next && n.stats.failures == s.stats.failures + 1
                && n.stats.indicators == s.stats.indicators && n.stats.triggered
                == s.stats.triggered
            &&& (s.stage == Stage::AwaitFetch && e is Fetched && chart_rows(e->Fetched_0) is Ok) ==> a
                == ActionView::StoreAndLoad(s.ticker, chart_rows(e->Fetched_0)->Ok_0) && n.stage
                == Stage::AwaitPrices && n.ticker == s.ticker && n.stats == s.stats
            &&& (s.stage == Stage::AwaitPrices && e is PricesLoaded) ==> if e->PricesLoaded_0 >= 2
                && t.indicators@.len() > 0 {
                a == ActionView::Evaluate(s.ticker, 0) && n.stage == Stage::Evaluating(0) && n.ticker
                    == s.ticker && n.stats == s.stats
            } else {
                (n, a) == next && n.stats == s.stats
            }
            &&& !(s.stage is Evaluating) ==> !alert
        }),
{
}

} // verus!
