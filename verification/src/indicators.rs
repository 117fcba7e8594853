//! The decisions of the indicators.
//!
//! The indicator values themselves (RSI, moving averages, bands) are float
//! arithmetic and are computed outside the library; what is decided from
//! them is decided here, on the bit patterns of the `f64` values: whether
//! there is enough history, whether the RSI is past its threshold, whether
//! the price broke the lower band, and whether two lines crossed.
use vstd::prelude::*;
use crate::config::{IndicatorConfig, RsiDirection};
use crate::ieee::{bits_le, bits_lt, float_le, float_lt, is_nan, order_key};

verus! {

/// What evaluating one indicator on one price history produced.
#[derive(Clone, Debug)]
pub struct IndicatorResult {
    pub triggered: bool,
    pub alert_message: Option<String>,
    pub log_label: String,
}

impl IndicatorResult {
    /// An alert carries a message exactly when it triggered.
    pub open spec fn consistent(&self) -> bool {
        self.triggered <==> self.alert_message is Some
    }

    /// A result that did not trigger.
    pub fn quiet(log_label: String) -> (r: Self)
        ensures
            !r.triggered,
            r.alert_message is None,
            r.log_label == log_label,
            r.consistent(),
    {
        IndicatorResult { triggered: false, alert_message: None, log_label }
    }

    /// A result that triggered, with its alert text.
    pub fn fired(message: String, log_label: String) -> (r: Self)
        ensures
            r.triggered,
            r.alert_message == Some(message),
            r.log_label == log_label,
            r.consistent(),
    {
        IndicatorResult { triggered: true, alert_message: Some(message), log_label }
    }
}

/// Whether `len` closing prices are enough to evaluate the indicator:
/// RSI needs more than `period`, Bollinger Bands at least `period`, MACD at
/// least `slow + signal`, a crossover more than `slow_period`.
pub open spec fn enough_data(ind: IndicatorConfig, len: int) -> bool {
    match ind {
        IndicatorConfig::Rsi(c) => len > c.period,
        IndicatorConfig::BollingerBands(c) => len >= c.period,
        IndicatorConfig::Macd(c) => len >= c.slow + c.signal,
        IndicatorConfig::Crossover(c) => len >= c.slow_period + 1,
    }
}

impl IndicatorConfig {
    /// Whether `len` closing prices are enough to evaluate this indicator.
    pub fn has_enough_data(&self, len: usize) -> (r: bool)
        ensures
            r == enough_data(*self, len as int),
    {
        match self {
            IndicatorConfig::Rsi(c) => len > c.period,
            IndicatorConfig::BollingerBands(c) => len >= c.period,
            IndicatorConfig::Macd(c) => c.slow <= len && len - c.slow >= c.signal,
            IndicatorConfig::Crossover(c) => len > c.slow_period,
        }
    }
}

/// An RSI alert fires when the RSI is strictly on the watched side of the
/// threshold.
pub open spec fn rsi_alert(rsi: u64, threshold: u64, direction: RsiDirection) -> bool {
    match direction {
        RsiDirection::Below => float_lt(rsi, threshold),
        RsiDirection::Above => float_lt(threshold, rsi),
    }
}

/// Whether an RSI value (bit pattern) triggers against the threshold.
pub fn rsi_triggered(rsi: u64, threshold: u64, direction: RsiDirection) -> (r: bool)
    ensures
        r == rsi_alert(rsi, threshold, direction),
{
    match direction {
        RsiDirection::Below => bits_lt(rsi, threshold),
        RsiDirection::Above => bits_lt(threshold, rsi),
    }
}

/// A price touches or breaks the lower band when `price <= lower`.
pub open spec fn band_touched(price: u64, lower: u64) -> bool {
    float_le(price, lower)
}

/// Whether the current price touches or breaks the lower band.
pub fn lower_band_breakout(price: u64, lower: u64) -> (r: bool)
    ensures
        r == band_touched(price, lower),
{
    bits_le(price, lower)
}

/// Direction in which a fast line crossed a slow one.
#[derive(Clone, Copy, Debug, PartialEq, Eq, Structural)]
pub enum Crossing {
    /// The fast line went from at or below the slow line to above it
    /// (a bullish MACD crossover, a golden cross).
    Upward,
    /// The fast line went from at or above the slow line to below it
    /// (a bearish MACD crossover, a death cross).
    Downward,
    NoCross,
}

pub open spec fn crosses_up(prev_fast: u64, prev_slow: u64, cur_fast: u64, cur_slow: u64) -> bool {
    float_le(prev_fast, prev_slow) && float_lt(cur_slow, cur_fast)
}

pub open spec fn crosses_down(prev_fast: u64, prev_slow: u64, cur_fast: u64, cur_slow: u64) -> bool {
    float_le(prev_slow, prev_fast) && float_lt(cur_fast, cur_slow)
}

pub open spec fn crossing_spec(prev_fast: u64, prev_slow: u64, cur_fast: u64, cur_slow: u64) -> Crossing {
    if crosses_up(prev_fast, prev_slow, cur_fast, cur_slow) {
        Crossing::Upward
    } else if crosses_down(prev_fast, prev_slow, cur_fast, cur_slow) {
        Crossing::Downward
    } else {
        Crossing::NoCross
    }
}

/// Compares the fast and slow lines one bar ago and now.
pub fn crossing(prev_fast: u64, prev_slow: u64, cur_fast: u64, cur_slow: u64) -> (r: Crossing)
    ensures
        r == crossing_spec(prev_fast, prev_slow, cur_fast, cur_slow),
{
    if bits_le(prev_fast, prev_slow) && bits_lt(cur_slow, cur_fast) {
        Crossing::Upward
    } else if bits_le(prev_slow, prev_fast) && bits_lt(cur_fast, cur_slow) {
        Crossing::Downward
    } else {
        Crossing::NoCross
    }
}

/// A crossing up and a crossing down never both hold, so which one is
/// tested first does not matter; and a reported crossing means the order of
/// the two lines really changed between the two bars.
pub proof fn lemma_crossing_exclusive(prev_fast: u64, prev_slow: u64, cur_fast: u64, cur_slow: u64)
    ensures
        !(crosses_up(prev_fast, prev_slow, cur_fast, cur_slow) && crosses_down(
            prev_fast,
            prev_slow,
            cur_fast,
            cur_slow,
        )),
        crossing_spec(prev_fast, prev_slow, cur_fast, cur_slow) == Crossing::Upward ==> !float_lt(
            prev_slow,
            prev_fast,
        ) && float_lt(cur_slow, cur_fast),
        crossing_spec(prev_fast, prev_slow, cur_fast, cur_slow) == Crossing::Downward
            ==> !float_lt(prev_fast, prev_slow) && float_lt(cur_fast, cur_slow),
{
}

/// With the same RSI value and threshold, a below-alert and an above-alert
/// never fire together.
pub proof fn lemma_rsi_directions_exclusive(rsi: u64, threshold: u64)
    ensures
        !(rsi_alert(rsi, threshold, RsiDirection::Below) && rsi_alert(
            rsi,
            threshold,
            RsiDirection::Above,
        )),
{
}

/// What a crossing means on the real values of the four lines (NaN compares
/// false with everything): it is upward exactly when the fast line was at or
/// below the slow line and is now strictly above it, downward exactly when
/// it was at or above and is now strictly below, and no crossing otherwise.
/// In particular a strict cross from below or from above is reported, not
/// only a cross from equality.
pub proof fn lemma_crossing_meaning(prev_fast: u64, prev_slow: u64, cur_fast: u64, cur_slow: u64)
    ensures
        ({
            let ok = !is_nan(prev_fast) && !is_nan(prev_slow) && !is_nan(cur_fast) && !is_nan(
                cur_slow,
            );
            let was_below = order_key(prev_fast) <= order_key(prev_slow);
            let was_above = order_key(prev_slow) <= order_key(prev_fast);
            let now_above = order_key(cur_slow) < order_key(cur_fast);
            let now_below = order_key(cur_fast) < order_key(cur_slow);
            &&& (crossing_spec(prev_fast, prev_slow, cur_fast, cur_slow) == Crossing::Upward) <==> (
            ok && was_below && now_above)
            &&& (crossing_spec(prev_fast, prev_slow, cur_fast, cur_slow) == Crossing::Downward) <==> (
            ok && was_above && now_below)
            &&& (crossing_spec(prev_fast, prev_slow, cur_fast, cur_slow) == Crossing::NoCross) <==> !(
            ok && ((was_below && now_above) || (was_above && now_below)))
        }),
{
}

/// What an RSI alert means on the real values: with direction `Below` it
/// fires exactly when the RSI is strictly less than the threshold (0.0
/// included), with `Above` exactly when it is strictly greater; a NaN on
/// either side never fires. A lower RSI fires a `Below` alert whenever a
/// higher one does, and a higher RSI fires an `Above` alert whenever a lower
/// one does.
pub proof fn lemma_rsi_alert_meaning(rsi: u64, other: u64, threshold: u64)
    ensures
        rsi_alert(rsi, threshold, RsiDirection::Below) <==> (!is_nan(rsi) && !is_nan(threshold)
            && order_key(rsi) < order_key(threshold)),
        rsi_alert(rsi, threshold, RsiDirection::Above) <==> (!is_nan(rsi) && !is_nan(threshold)
            && order_key(threshold) < order_key(rsi)),
        rsi_alert(rsi, threshold, RsiDirection::Below) && !is_nan(other) && order_key(other)
            <= order_key(rsi) ==> rsi_alert(other, threshold, RsiDirection::Below),
        rsi_alert(rsi, threshold, RsiDirection::Above) && !is_nan(other) && order_key(rsi)
            <= order_key(other) ==> rsi_alert(other, threshold, RsiDirection::Above),
{
}

/// The lower band is touched exactly when the price is at or below it as
/// real values; a NaN never touches.
pub proof fn lemma_band_breakout_meaning(price: u64, lower: u64)
    ensures
        band_touched(price, lower) <==> (!is_nan(price) && !is_nan(lower) && order_key(price)
            <= order_key(lower)),
{
}

} // verus!
