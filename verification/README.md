# bot_runner

The decision logic of a trade builder for binary up/down prediction markets,
written in Verus: every function in `src/` carries a contract that Verus
proves.

What the library covers:

- orders and their exit ladders: validating price and time ladders,
  splitting a position over ladder stages against a minimum order size,
  and sizing the children of a ladder family;
- runtime prices: which price triggers an order and which it executes at;
- buy guards, the confidence-ladder strategy (its configuration, model,
  fees, bands and hedge decisions) and DCA nodes;
- the armed-order cache of the websocket fast path and one evaluation
  cycle over it; the short-lived quote cache of exit orders;
- reconciling a canceled buy with the fills it turned out to have;
- the auto-scope trade analysis: sell allocation against the buy, profit
  breakdowns, the official ledger from the exchange's activity feed, the
  rows rebuilt from it, and the trade diagnostic;
- configuration diffs over a plain JSON model.

Amounts, prices and share quantities are fixed-point integers (millionths,
or hundredths of a share where orders are sized); each module says which.
Work that waits on the outside world (the store, the exchange, the clock)
is written as state machines: a step takes the state and what the last
lookup gave, and says what to look up next or how the work ends.

Layout:

- `src/`: the verified library, one module per concern, `src/lib.rs` the
  root. Laws (properties across calls or over all inputs) are public proof
  functions named `law_*` beside the functions they speak of.
- `tests/`: ordinary Rust tests against the library.
- `app/`: the unverified service side: process-wide caches, the JSON
  bridge to `serde_json`, configuration versioning, and the drivers that
  run the library's state machines against their lookups.

Calls into `chrono` (the clock, RFC 3339 text) stand behind small trusted
wrappers in `src/time.rs` and `src/decision_ids.rs`, whose contracts say
what the crate documents.
