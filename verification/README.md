# pragma

Vault accounting for the Pragma vaults, verified with Verus.

`src/` is the library. Every function in it carries a `requires`/`ensures`
contract that Verus proves; the calls into `rust_decimal`, `bigdecimal`,
`chrono`, `starknet`, `serde_json` and `dashmap` sit behind small trusted
wrappers whose
contracts are stated over the plain-value models of those types.

- `decimal`, `bigdec`, `time`, `felt`: plain-value models of `Decimal`,
  `BigDecimal`, UTC times and Starknet field elements.
- `kpi`: maximum drawdown, Sharpe and Sortino ratios and position PnL, each
  specified step by step as the computation walks the history, with `None`
  exactly where `Decimal` arithmetic would panic: an operator that overflows
  or divides by zero, or the 1000-round limit of the square root, whose
  Newton iteration is specified and computed here in full (`decimal`). The
  functions that would panic require the spec to be `Some`; a `try_` form
  returns `None` there instead.
- `indexer`: indexer status and the state changes it writes, the block to
  resume from, and the records a deposit or a redeem request produces.
- `handlers`, `query`, `response`, `dto`, `deposit`: what the HTTP API
  decides once its data is loaded: parameter checks, paging, pending
  amounts, position summaries, the alternative vault API's data, deposit
  requests, and the errors answered.
- `quoting`: USD prices by ticker.
- `service`: the rate-limit settings read from the environment.
- `numtext`, `text`, `types`: integer text, text helpers and the enumerations
  stored as text.

`app/` is ordinary Rust around the library: conversions from and to the
outside types, the JSON shapes of the API, the HTTP answer of an error, and
the few computations done in floating point. `tests/` runs the library on
concrete values.
