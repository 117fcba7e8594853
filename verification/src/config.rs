//! Daemon configuration: the configuration model, its defaults, the
//! environment overrides and validation.
//!
//! Reading the file and decoding its JSON happen outside the library; what
//! they produce is handed in as a [`DaemonConfig`]. Floating-point settings
//! (the RSI threshold, the Bollinger width) are held as the bit pattern of
//! their `f64` value.
use vstd::prelude::*;
use crate::ieee::{bits_le, float_le, is_nan, order_key, HUNDRED_BITS, TWO_BITS, ZERO_BITS};
use crate::text::{
    decimal_digits, decimal_text, has_prefix, is_blank, parse_u64, parse_u64_spec, starts_with,
    str_eq, trim, trimmed,
};

verus! {

/// Which side of the threshold an RSI alert watches.
#[derive(Clone, Copy, Debug, PartialEq, Eq, Structural)]
pub enum RsiDirection {
    /// Alert when RSI is strictly below the threshold (buy / oversold).
    Below,
    /// Alert when RSI is strictly above the threshold (sell / overbought).
    Above,
}

impl Default for RsiDirection {
    fn default() -> (r: Self)
        ensures
            r == RsiDirection::Below,
    {
        RsiDirection::Below
    }
}

/// Relative Strength Index alert settings.
#[derive(Clone, Copy, Debug)]
pub struct RsiConfig {
    /// Bit pattern of the `f64` RSI level compared against.
    pub threshold_bits: u64,
    pub period: usize,
    pub direction: RsiDirection,
}

/// Bollinger Bands alert settings.
#[derive(Clone, Copy, Debug)]
pub struct BollingerBandsConfig {
    pub period: usize,
    /// Bit pattern of the `f64` standard-deviation multiplier.
    pub stddev_bits: u64,
}

/// MACD alert settings.
#[derive(Clone, Copy, Debug)]
pub struct MacdConfig {
    pub fast: usize,
    pub slow: usize,
    pub signal: usize,
}

/// Moving-average crossover alert settings.
#[derive(Clone, Copy, Debug)]
pub struct CrossoverConfig {
    pub fast_period: usize,
    pub slow_period: usize,
}

/// One indicator to evaluate on a ticker.
#[derive(Clone, Copy, Debug)]
pub enum IndicatorConfig {
    Rsi(RsiConfig),
    BollingerBands(BollingerBandsConfig),
    Macd(MacdConfig),
    Crossover(CrossoverConfig),
}

/// A symbol and the indicators watched on it.
#[derive(Clone, Debug)]
pub struct TickerConfig {
    pub symbol: String,
    /// Interval for this ticker; `None` takes the daemon's interval.
    pub interval_type: Option<String>,
    pub indicators: Vec<IndicatorConfig>,
}

/// The interval a ticker is fetched, stored and evaluated at: its own
/// override when it has one, else the daemon's.
pub open spec fn effective_interval(t: TickerConfig, default: String) -> String {
    match t.interval_type {
        Some(i) => i,
        None => default,
    }
}

impl TickerConfig {
    /// The interval of this ticker, given the daemon's interval.
    pub fn interval<'a>(&'a self, default: &'a String) -> (r: &'a String)
        ensures
            *r == effective_interval(*self, *default),
    {
        match &self.interval_type {
            Some(i) => i,
            None => default,
        }
    }
}

/// The whole daemon configuration.
#[derive(Clone, Debug)]
pub struct DaemonConfig {
    pub ntfy_url: String,
    pub interval_type: String,
    pub frequency_seconds: u64,
    pub tickers: Vec<TickerConfig>,
    pub db_path: Option<String>,
    pub ticker_delay_ms: u64,
    pub max_retries: u32,
    pub retry_base_delay_ms: u64,
}

/// Default daemon interval: weekly bars.
pub fn default_interval_type() -> (r: String)
    ensures
        r@ == "1wk"@,
{
    String::from_str("1wk")
}

/// Default poll frequency, in seconds: once a day.
pub fn default_frequency_seconds() -> (r: u64)
    ensures
        r == 86400,
{
    86400
}

/// Default delay between ticker fetches, in milliseconds.
pub fn default_ticker_delay() -> (r: u64)
    ensures
        r == 1500,
{
    1500
}

/// Default number of fetch attempts.
pub fn default_max_retries() -> (r: u32)
    ensures
        r == 3,
{
    3
}

/// Default base delay between fetch attempts, in milliseconds.
pub fn default_retry_base_delay_ms() -> (r: u64)
    ensures
        r == 500,
{
    500
}

/// Default RSI period.
pub fn default_rsi_period() -> (r: usize)
    ensures
        r == 14,
{
    14
}

/// Default Bollinger period.
pub fn default_bb_period() -> (r: usize)
    ensures
        r == 20,
{
    20
}

/// Default Bollinger width: the bit pattern of `2.0`.
pub fn default_bb_stddev() -> (r: u64)
    ensures
        r == TWO_BITS,
{
    TWO_BITS
}

/// Default MACD fast period.
pub fn default_macd_fast() -> (r: usize)
    ensures
        r == 12,
{
    12
}

/// Default MACD slow period.
pub fn default_macd_slow() -> (r: usize)
    ensures
        r == 26,
{
    26
}

/// Default MACD signal period.
pub fn default_macd_signal() -> (r: usize)
    ensures
        r == 9,
{
    9
}

/// The name under which an indicator is logged, stored and alerted.
pub open spec fn indicator_name(ind: IndicatorConfig) -> Seq<char> {
    match ind {
        IndicatorConfig::Rsi(_) => "RSI"@,
        IndicatorConfig::BollingerBands(_) => "Bollinger Bands"@,
        IndicatorConfig::Macd(_) => "MACD"@,
        IndicatorConfig::Crossover(_) => "MA Crossover"@,
    }
}

/// How many bars an indicator wants kept in the price history.
pub open spec fn required_bars_spec(ind: IndicatorConfig) -> int {
    match ind {
        IndicatorConfig::Rsi(c) => 3 * c.period,
        IndicatorConfig::BollingerBands(c) => 2 * c.period,
        IndicatorConfig::Macd(c) => c.slow + c.signal + c.fast,
        IndicatorConfig::Crossover(c) => 2 * c.slow_period,
    }
}

impl IndicatorConfig {
    /// Display name of the indicator.
    pub fn name(&self) -> (r: &'static str)
        ensures
            r@ == indicator_name(*self),
    {
        match self {
            IndicatorConfig::Rsi(_) => "RSI",
            IndicatorConfig::BollingerBands(_) => "Bollinger Bands",
            IndicatorConfig::Macd(_) => "MACD",
            IndicatorConfig::Crossover(_) => "MA Crossover",
        }
    }

    /// Number of bars of history the indicator needs.
    pub fn required_bars(&self) -> (r: usize)
        requires
            required_bars_spec(*self) <= usize::MAX,
        ensures
            r == required_bars_spec(*self),
    {
        match self {
            IndicatorConfig::Rsi(c) => 3 * c.period,
            IndicatorConfig::BollingerBands(c) => 2 * c.period,
            IndicatorConfig::Macd(c) => c.slow + c.signal + c.fast,
            IndicatorConfig::Crossover(c) => 2 * c.slow_period,
        }
    }
}

/// Why a configuration is refused.
#[derive(Clone, Debug)]
pub enum ConfigError {
    EmptyNtfyUrl,
    NtfyUrlNotHttps,
    /// The trimmed URL that does not parse.
    InvalidNtfyUrl(String),
    UnsupportedInterval(String),
    ZeroFrequency,
    NoTickers,
    EmptySymbol,
    /// The symbol of the ticker without indicators.
    NoIndicators(String),
    /// Bit pattern of the offending threshold.
    RsiThresholdOutOfRange(u64),
    /// The fast and slow periods, in that order.
    CrossoverPeriods(usize, usize),
}

/// [`ConfigError`] with its text fields taken by their characters.
pub enum ConfigErrorView {
    EmptyNtfyUrl,
    NtfyUrlNotHttps,
    InvalidNtfyUrl(Seq<char>),
    UnsupportedInterval(Seq<char>),
    ZeroFrequency,
    NoTickers,
    EmptySymbol,
    NoIndicators(Seq<char>),
    RsiThresholdOutOfRange(u64),
    CrossoverPeriods(usize, usize),
}

impl View for ConfigError {
    type V = ConfigErrorView;

    open spec fn view(&self) -> ConfigErrorView {
        match self {
            ConfigError::EmptyNtfyUrl => ConfigErrorView::EmptyNtfyUrl,
            ConfigError::NtfyUrlNotHttps => ConfigErrorView::NtfyUrlNotHttps,
            ConfigError::InvalidNtfyUrl(u) => ConfigErrorView::InvalidNtfyUrl(u@),
            ConfigError::UnsupportedInterval(i) => ConfigErrorView::UnsupportedInterval(i@),
            ConfigError::ZeroFrequency => ConfigErrorView::ZeroFrequency,
            ConfigError::NoTickers => ConfigErrorView::NoTickers,
            ConfigError::EmptySymbol => ConfigErrorView::EmptySymbol,
            ConfigError::NoIndicators(s) => ConfigErrorView::NoIndicators(s@),
            ConfigError::RsiThresholdOutOfRange(t) => ConfigErrorView::RsiThresholdOutOfRange(*t),
            ConfigError::CrossoverPeriods(f, s) => ConfigErrorView::CrossoverPeriods(*f, *s),
        }
    }
}

/// `Ok` as `None`, an error as its view.
pub open spec fn outcome_view(r: Result<(), ConfigError>) -> Option<ConfigErrorView> {
    match r {
        Ok(_) => None,
        Err(e) => Some(e@),
    }
}

/// An RSI threshold is accepted when `0.0 <= threshold <= 100.0`.
pub open spec fn rsi_threshold_in_range(bits: u64) -> bool {
    float_le(ZERO_BITS, bits) && float_le(bits, HUNDRED_BITS)
}

/// The complaint about one indicator, if any.
pub open spec fn indicator_error(ind: IndicatorConfig) -> Option<ConfigErrorView> {
    match ind {
        IndicatorConfig::Rsi(c) => if rsi_threshold_in_range(c.threshold_bits) {
            None
        } else {
            Some(ConfigErrorView::RsiThresholdOutOfRange(c.threshold_bits))
        },
        IndicatorConfig::Crossover(c) => if c.fast_period >= c.slow_period {
            Some(ConfigErrorView::CrossoverPeriods(c.fast_period, c.slow_period))
        } else {
            None
        },
        _ => None,
    }
}

/// The first complaint about `inds[i..]`, in order.
pub open spec fn first_indicator_error(inds: Seq<IndicatorConfig>, i: int) -> Option<
    ConfigErrorView,
>
    decreases inds.len() - i,
{
    if 0 <= i < inds.len() {
        match indicator_error(inds[i]) {
            Some(e) => Some(e),
            None => first_indicator_error(inds, i + 1),
        }
    } else {
        None
    }
}

/// The complaint about one ticker, if any.
pub open spec fn ticker_error(t: TickerConfig) -> Option<ConfigErrorView> {
    if trim(t.symbol@).len() == 0 {
        Some(ConfigErrorView::EmptySymbol)
    } else if t.interval_type is Some && !interval_supported(t.interval_type->0@) {
        Some(ConfigErrorView::UnsupportedInterval(t.interval_type->0@))
    } else if t.indicators@.len() == 0 {
        Some(ConfigErrorView::NoIndicators(t.symbol@))
    } else {
        first_indicator_error(t.indicators@, 0)
    }
}

/// The first complaint about `ts[i..]`, in order.
pub open spec fn first_ticker_error(ts: Seq<TickerConfig>, i: int) -> Option<ConfigErrorView>
    decreases ts.len() - i,
{
    if 0 <= i < ts.len() {
        match ticker_error(ts[i]) {
            Some(e) => Some(e),
            None => first_ticker_error(ts, i + 1),
        }
    } else {
        None
    }
}

pub open spec fn interval_supported(interval: Seq<char>) -> bool {
    interval == "1d"@ || interval == "1wk"@
}

/// The first complaint about a configuration, checked in this order: the
/// notification URL (blank, not `https://`, not a URL: `url_ok` says whether
/// it parses), the interval, the poll frequency, the ticker list, then each
/// ticker and its indicators in turn.
pub open spec fn config_error(c: DaemonConfig, url_ok: bool) -> Option<ConfigErrorView> {
    let url = trim(c.ntfy_url@);
    if url.len() == 0 {
        Some(ConfigErrorView::EmptyNtfyUrl)
    } else if !has_prefix(url, "https://"@) {
        Some(ConfigErrorView::NtfyUrlNotHttps)
    } else if !url_ok {
        Some(ConfigErrorView::InvalidNtfyUrl(url))
    } else if !interval_supported(c.interval_type@) {
        Some(ConfigErrorView::UnsupportedInterval(c.interval_type@))
    } else if c.frequency_seconds == 0 {
        Some(ConfigErrorView::ZeroFrequency)
    } else if c.tickers@.len() == 0 {
        Some(ConfigErrorView::NoTickers)
    } else {
        first_ticker_error(c.tickers@, 0)
    }
}

/// What `url::Url::parse` accepts, as a function of its input text.
pub uninterp spec fn url_parse_accepts(input: Seq<char>) -> bool;

/// Calls `url::Url::parse` and keeps whether it succeeded. The contract
/// claims only that the answer depends on the input text alone.
#[verifier::external_body]
fn url_parses(input: &str) -> (ok: bool)
    ensures
        ok == url_parse_accepts(input@),
{
    url::Url::parse(input).is_ok()
}

fn check_indicator(ind: &IndicatorConfig) -> (r: Result<(), ConfigError>)
    ensures
        outcome_view(r) == indicator_error(*ind),
{
    match ind {
        IndicatorConfig::Rsi(c) => {
            if bits_le(ZERO_BITS, c.threshold_bits) && bits_le(c.threshold_bits, HUNDRED_BITS) {
                Ok(())
            } else {
                Err(ConfigError::RsiThresholdOutOfRange(c.threshold_bits))
            }
        },
        IndicatorConfig::Crossover(c) => {
            if c.fast_period >= c.slow_period {
                Err(ConfigError::CrossoverPeriods(c.fast_period, c.slow_period))
            } else {
                Ok(())
            }
        },
        _ => Ok(()),
    }
}

fn supported_interval(interval: &str) -> (r: bool)
    ensures
        r == interval_supported(interval@),
{
    str_eq(interval, "1d") || str_eq(interval, "1wk")
}

fn check_ticker(t: &TickerConfig) -> (r: Result<(), ConfigError>)
    ensures
        outcome_view(r) == ticker_error(*t),
{
    if is_blank(t.symbol.as_str()) {
        return Err(ConfigError::EmptySymbol);
    }
    if let Some(i) = &t.interval_type {
        if !supported_interval(i.as_str()) {
            return Err(ConfigError::UnsupportedInterval(i.clone()));
        }
    }
    if t.indicators.len() == 0 {
        return Err(ConfigError::NoIndicators(t.symbol.clone()));
    }
    let n = t.indicators.len();
    let mut i: usize = 0;
    while i < n
        invariant
            n == t.indicators@.len(),
            i <= n,
            ticker_error(*t) == first_indicator_error(t.indicators@, 0),
            first_indicator_error(t.indicators@, 0) == first_indicator_error(
                t.indicators@,
                i as int,
            ),
        decreases n - i,
    {
        let r = check_indicator(&t.indicators[i]);
        if r.is_err() {
            return r;
        }
        i = i + 1;
    }
    Ok(())
}

/// Validates a configuration whose notification URL has already been
/// found to parse (`url_ok == true`) or not to parse (`url_ok == false`).
pub fn check_config(config: &DaemonConfig, url_ok: bool) -> (r: Result<(), ConfigError>)
    ensures
        outcome_view(r) == config_error(*config, url_ok),
{
    let url = trimmed(config.ntfy_url.as_str());
    if is_blank(config.ntfy_url.as_str()) {
        return Err(ConfigError::EmptyNtfyUrl);
    }
    if !starts_with(url.as_str(), "https://") {
        return Err(ConfigError::NtfyUrlNotHttps);
    }
    if !url_ok {
        return Err(ConfigError::InvalidNtfyUrl(url));
    }
    if !supported_interval(config.interval_type.as_str()) {
        return Err(ConfigError::UnsupportedInterval(config.interval_type.clone()));
    }
    if config.frequency_seconds == 0 {
        return Err(ConfigError::ZeroFrequency);
    }
    if config.tickers.len() == 0 {
        return Err(ConfigError::NoTickers);
    }
    let n = config.tickers.len();
    let mut i: usize = 0;
    while i < n
        invariant
            n == config.tickers@.len(),
            i <= n,
            config_error(*config, url_ok) == first_ticker_error(config.tickers@, 0),
            first_ticker_error(config.tickers@, 0) == first_ticker_error(
                config.tickers@,
                i as int,
            ),
        decreases n - i,
    {
        let r = check_ticker(&config.tickers[i]);
        if r.is_err() {
            return r;
        }
        i = i + 1;
    }
    Ok(())
}

/// Validates a configuration; the notification URL is handed to
/// `url::Url::parse` once it is non-blank and starts with `https://`.
pub fn validate_config(config: &DaemonConfig) -> (r: Result<(), ConfigError>)
    ensures
        outcome_view(r) == config_error(*config, url_parse_accepts(trim(config.ntfy_url@))),
{
    let url = trimmed(config.ntfy_url.as_str());
    let ok = if !is_blank(config.ntfy_url.as_str()) && starts_with(url.as_str(), "https://") {
        url_parses(url.as_str())
    } else {
        true
    };
    check_config(config, ok)
}

proof fn lemma_no_indicator_error(inds: Seq<IndicatorConfig>, k: int, j: int)
    requires
        0 <= k <= j < inds.len(),
        first_indicator_error(inds, k) is None,
    ensures
        indicator_error(inds[j]) is None,
    decreases j - k,
{
    if k < j {
        lemma_no_indicator_error(inds, k + 1, j);
    }
}

proof fn lemma_no_ticker_error(ts: Seq<TickerConfig>, k: int, i: int)
    requires
        0 <= k <= i < ts.len(),
        first_ticker_error(ts, k) is None,
    ensures
        ticker_error(ts[i]) is None,
    decreases i - k,
{
    if k < i {
        lemma_no_ticker_error(ts, k + 1, i);
    }
}

/// A configuration that passes validation obeys every documented rule: an
/// `https://` notification URL that parses, a `"1d"` or `"1wk"` interval, a
/// positive poll frequency, at least one ticker, and for every ticker a
/// non-blank symbol, at least one indicator, every RSI threshold within
/// `[0, 100]` and every crossover's fast period below its slow period; and
/// the interval each ticker is fetched at is `"1d"` or `"1wk"`.
pub proof fn lemma_accepted_config_obeys_rules(c: DaemonConfig, url_ok: bool, i: int, j: int)
    requires
        config_error(c, url_ok) is None,
        0 <= i < c.tickers@.len(),
        0 <= j < c.tickers@[i].indicators@.len(),
    ensures
        trim(c.ntfy_url@).len() > 0,
        has_prefix(trim(c.ntfy_url@), "https://"@),
        url_ok,
        interval_supported(c.interval_type@),
        c.frequency_seconds > 0,
        trim(c.tickers@[i].symbol@).len() > 0,
        interval_supported(effective_interval(c.tickers@[i], c.interval_type)@),
        c.tickers@[i].indicators@.len() > 0,
        match c.tickers@[i].indicators@[j] {
            IndicatorConfig::Rsi(r) => rsi_threshold_in_range(r.threshold_bits),
            IndicatorConfig::Crossover(x) => x.fast_period < x.slow_period,
            _ => true,
        },
{
    lemma_no_ticker_error(c.tickers@, 0, i);
    lemma_no_indicator_error(c.tickers@[i].indicators@, 0, j);
}

/// The documented rules for one indicator: an RSI threshold is a number in
/// `[0, 100]`, a crossover's fast period is below its slow period; other
/// indicators have no rule.
pub open spec fn indicator_obeys_rules(ind: IndicatorConfig) -> bool {
    match ind {
        IndicatorConfig::Rsi(r) => !is_nan(r.threshold_bits) && 0 <= order_key(r.threshold_bits)
            && order_key(r.threshold_bits) <= order_key(HUNDRED_BITS),
        IndicatorConfig::Crossover(x) => x.fast_period < x.slow_period,
        _ => true,
    }
}

/// The documented rules for one ticker.
pub open spec fn ticker_obeys_rules(t: TickerConfig) -> bool {
    &&& trim(t.symbol@).len() > 0
    &&& match t.interval_type {
        Some(i) => i@ == "1d"@ || i@ == "1wk"@,
        None => true,
    }
    &&& t.indicators@.len() > 0
    &&& forall|j: int|
        0 <= j < t.indicators@.len() ==> indicator_obeys_rules(#[trigger] t.indicators@[j])
}

/// The documented rules for a whole configuration, with `url_ok` saying
/// whether the trimmed notification URL parses.
pub open spec fn config_obeys_rules(c: DaemonConfig, url_ok: bool) -> bool {
    &&& trim(c.ntfy_url@).len() > 0
    &&& has_prefix(trim(c.ntfy_url@), "https://"@)
    &&& url_ok
    &&& (c.interval_type@ == "1d"@ || c.interval_type@ == "1wk"@)
    &&& c.frequency_seconds > 0
    &&& c.tickers@.len() > 0
    &&& forall|i: int| 0 <= i < c.tickers@.len() ==> ticker_obeys_rules(#[trigger] c.tickers@[i])
}

proof fn lemma_indicators_accepted(inds: Seq<IndicatorConfig>, k: int)
    requires
        0 <= k <= inds.len(),
        forall|j: int| 0 <= j < inds.len() ==> indicator_obeys_rules(#[trigger] inds[j]),
    ensures
        first_indicator_error(inds, k) is None,
    decreases inds.len() - k,
{
    if k < inds.len() {
        assert(indicator_obeys_rules(inds[k]));
        lemma_indicators_accepted(inds, k + 1);
    }
}

proof fn lemma_tickers_accepted(ts: Seq<TickerConfig>, k: int)
    requires
        0 <= k <= ts.len(),
        forall|i: int| 0 <= i < ts.len() ==> ticker_obeys_rules(#[trigger] ts[i]),
    ensures
        first_ticker_error(ts, k) is None,
    decreases ts.len() - k,
{
    if k < ts.len() {
        assert(ticker_obeys_rules(ts[k]));
        lemma_indicators_accepted(ts[k].indicators@, 0);
        lemma_tickers_accepted(ts, k + 1);
    }
}

/// Validation refuses a configuration exactly when it breaks a documented
/// rule: a configuration that obeys every rule is accepted (so, for one, a
/// crossover whose fast period is below its slow period is never refused),
/// and an accepted one obeys every rule.
pub proof fn lemma_validation_accepts_exactly_the_rules(c: DaemonConfig, url_ok: bool)
    ensures
        (config_error(c, url_ok) is None) <==> config_obeys_rules(c, url_ok),
{
    if config_obeys_rules(c, url_ok) {
        lemma_tickers_accepted(c.tickers@, 0);
    }
    if config_error(c, url_ok) is None {
        assert forall|i: int| 0 <= i < c.tickers@.len() implies ticker_obeys_rules(
            #[trigger] c.tickers@[i],
        ) by {
            lemma_no_ticker_error(c.tickers@, 0, i);
            assert forall|j: int| 0 <= j < c.tickers@[i].indicators@.len() implies indicator_obeys_rules(
                #[trigger] c.tickers@[i].indicators@[j],
            ) by {
                lemma_no_indicator_error(c.tickers@[i].indicators@, 0, j);
            }
        }
    }
}

/// The text that describes a refused configuration. For an RSI threshold out
/// of range the offending value is carried by the error as a bit pattern and
/// is not written into the text.
pub open spec fn config_error_text(e: ConfigErrorView) -> Seq<char> {
    match e {
        ConfigErrorView::EmptyNtfyUrl => "ntfy_url must not be empty"@,
        ConfigErrorView::NtfyUrlNotHttps => "ntfy_url must use https:// scheme"@,
        ConfigErrorView::InvalidNtfyUrl(u) => "ntfy_url is not a valid URL: '"@ + u + "'"@,
        ConfigErrorView::UnsupportedInterval(i) => "unsupported interval_type: '"@ + i
            + "' (expected '1d' or '1wk')"@,
        ConfigErrorView::ZeroFrequency => "frequency_seconds must be > 0"@,
        ConfigErrorView::NoTickers => "at least one ticker is required"@,
        ConfigErrorView::EmptySymbol => "ticker symbol must not be empty"@,
        ConfigErrorView::NoIndicators(s) => "ticker '"@ + s + "' must have at least one indicator"@,
        ConfigErrorView::RsiThresholdOutOfRange(_) => "RSI threshold must be between 0 and 100"@,
        ConfigErrorView::CrossoverPeriods(f, s) => "crossover fast_period ("@ + decimal_digits(
            f as nat,
        ) + ") must be less than slow_period ("@ + decimal_digits(s as nat) + ")"@,
    }
}

impl ConfigError {
    /// The text that describes the error.
    pub fn message(&self) -> (r: String)
        ensures
            r@ == config_error_text(self@),
    {
        match self {
            ConfigError::EmptyNtfyUrl => String::from_str("ntfy_url must not be empty"),
            ConfigError::NtfyUrlNotHttps => String::from_str("ntfy_url must use https:// scheme"),
            ConfigError::InvalidNtfyUrl(u) => {
                let mut m = String::from_str("ntfy_url is not a valid URL: '");
                m.append(u.as_str());
                m.append("'");
                m
            },
            ConfigError::UnsupportedInterval(i) => {
                let mut m = String::from_str("unsupported interval_type: '");
                m.append(i.as_str());
                m.append("' (expected '1d' or '1wk')");
                m
            },
            ConfigError::ZeroFrequency => String::from_str("frequency_seconds must be > 0"),
            ConfigError::NoTickers => String::from_str("at least one ticker is required"),
            ConfigError::EmptySymbol => String::from_str("ticker symbol must not be empty"),
            ConfigError::NoIndicators(s) => {
                let mut m = String::from_str("ticker '");
                m.append(s.as_str());
                m.append("' must have at least one indicator");
                m
            },
            ConfigError::RsiThresholdOutOfRange(_) => String::from_str(
                "RSI threshold must be between 0 and 100",
            ),
            ConfigError::CrossoverPeriods(f, s) => {
                let mut m = String::from_str("crossover fast_period (");
                let ft = decimal_text(*f as u64);
                m.append(ft.as_str());
                m.append(") must be less than slow_period (");
                let st = decimal_text(*s as u64);
                m.append(st.as_str());
                m.append(")");
                m
            },
        }
    }
}

/// Values of the environment variables that override the configuration
/// file: `NTFY_URL`, `DB_PATH`, `INTERVAL_TYPE`, `FREQUENCY_SECONDS` and
/// `TICKER_DELAY_MS`; `None` where a variable is unset or not Unicode.
#[derive(Clone, Debug)]
pub struct EnvOverrides {
    pub ntfy_url: Option<String>,
    pub db_path: Option<String>,
    pub interval_type: Option<String>,
    pub frequency_seconds: Option<String>,
    pub ticker_delay_ms: Option<String>,
}

/// A text override applies when the variable trims to something non-empty.
pub open spec fn text_override(v: Option<String>) -> Option<Seq<char>> {
    match v {
        Some(s) => if trim(s@).len() > 0 {
            Some(trim(s@))
        } else {
            None
        },
        None => None,
    }
}

/// A number override applies when the trimmed variable parses as a `u64`.
pub open spec fn number_override(v: Option<String>) -> Option<u64> {
    match v {
        Some(s) => parse_u64_spec(trim(s@)),
        None => None,
    }
}

/// `new` is `old` after the text override `o`.
pub open spec fn text_field_after(new: String, old: String, o: Option<Seq<char>>) -> bool {
    match o {
        Some(t) => new@ == t,
        None => new == old,
    }
}

/// What the environment overrides do to a configuration.
pub open spec fn overridden(new: DaemonConfig, old: DaemonConfig, env: EnvOverrides) -> bool {
    &&& text_field_after(new.ntfy_url, old.ntfy_url, text_override(env.ntfy_url))
    &&& match text_override(env.db_path) {
        Some(t) => new.db_path is Some && new.db_path->0@ == t,
        None => new.db_path == old.db_path,
    }
    &&& text_field_after(new.interval_type, old.interval_type, text_override(env.interval_type))
    &&& new.frequency_seconds == match number_override(env.frequency_seconds) {
        Some(n) => n,
        None => old.frequency_seconds,
    }
    &&& new.ticker_delay_ms == match number_override(env.ticker_delay_ms) {
        Some(n) => n,
        None => old.ticker_delay_ms,
    }
    &&& new.tickers == old.tickers
    &&& new.max_retries == old.max_retries
    &&& new.retry_base_delay_ms == old.retry_base_delay_ms
}

fn text_override_of(v: &Option<String>) -> (r: Option<String>)
    ensures
        match r {
            Some(s) => text_override(*v) == Some(s@),
            None => text_override(*v) is None,
        },
{
    match v {
        Some(s) => {
            if is_blank(s.as_str()) {
                None
            } else {
                Some(trimmed(s.as_str()))
            }
        },
        None => None,
    }
}

fn number_override_of(v: &Option<String>) -> (r: Option<u64>)
    ensures
        r == number_override(*v),
{
    match v {
        Some(s) => {
            let t = trimmed(s.as_str());
            parse_u64(t.as_str())
        },
        None => None,
    }
}

/// Applies the environment overrides: a non-blank `NTFY_URL`, `DB_PATH` or
/// `INTERVAL_TYPE` replaces its setting with its trimmed text, and a
/// `FREQUENCY_SECONDS` or `TICKER_DELAY_MS` that parses as a `u64` after
/// trimming replaces its setting; everything else stays.
pub fn apply_env_overrides(config: &mut DaemonConfig, env: &EnvOverrides)
    ensures
        overridden(*final(config), *old(config), *env),
{
    if let Some(v) = text_override_of(&env.ntfy_url) {
        config.ntfy_url = v;
    }
    if let Some(v) = text_override_of(&env.db_path) {
        config.db_path = Some(v);
    }
    if let Some(v) = text_override_of(&env.interval_type) {
        config.interval_type = v;
    }
    if let Some(n) = number_override_of(&env.frequency_seconds) {
        config.frequency_seconds = n;
    }
    if let Some(n) = number_override_of(&env.ticker_delay_ms) {
        config.ticker_delay_ms = n;
    }
}

/// The part of loading a configuration that follows decoding the file:
/// the environment overrides are applied, then the result is validated.
pub fn settle_config(config: DaemonConfig, env: &EnvOverrides) -> (r: Result<
    DaemonConfig,
    ConfigError,
>)
    ensures
        exists|c: DaemonConfig|
            #![trigger config_error(c, url_parse_accepts(trim(c.ntfy_url@)))]
            {
                &&& overridden(c, config, *env)
                &&& match r {
                    Ok(out) => out == c && config_error(c, url_parse_accepts(trim(c.ntfy_url@)))
                        is None,
                    Err(e) => config_error(c, url_parse_accepts(trim(c.ntfy_url@))) == Some(e@),
                }
            },
{
    let mut c = config;
    apply_env_overrides(&mut c, env);
    match validate_config(&c) {
        Ok(()) => Ok(c),
        Err(e) => Err(e),
    }
}

} // verus!
