# indicator_alert_daemon

A daemon that polls quote charts, evaluates technical indicators (RSI, MACD,
Bollinger Bands, moving-average crossover) and sends ntfy alerts on state
transitions.

Layout:

- `src/` — the verified library (Verus): configuration model, defaults,
  environment overrides and validation (`config`); chart response model and
  request URL (`yahoo`); bar extraction (`data`); indicator decisions on
  IEEE-754 bit patterns (`indicators`, `ieee`); cycle decisions, alert
  de-duplication and retention (`cycle`); the polling cycle as a state
  machine (`machine`); fetch retry schedule (`retry`);
  database location (`paths`); alert title (`alert`); command line (`cli`);
  text helpers (`text`).
- `app/` — the program around it: file and network I/O, the SQLite store,
  the async polling loop, JSON decoding and the floating-point indicator
  arithmetic.
- `tests/` — tests of the library.
