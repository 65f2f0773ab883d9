# candlechart

The verified core of a candlestick-chart trading application: panel sections,
notifications and errors, download planning for exchange series (gaps, batches,
fetch windows), backtest playback decisions, strategy signal handling, and the
rules for restoring saved state. The functions in `src/` are verified by Verus
against their contracts; the few that read the clock or call the standard library
are trusted wrappers, whose contracts say only what the documentation gives.

- `src/` — the library, verified with Verus.
- `tests/` — tests of the library on concrete values.
- `app/` — the layer around it: JSON files, logging, waiting between retries, and
  paper trading, whose prices and amounts are floating point.

Downloads in progress are kept in a `Vec` with one entry per series (a type
invariant), viewed as a map from series name to progress. A `HashMap` keyed by the
series name would say nothing usable to Verus here: vstd's `HashMap` specifications
hold only for key types that obey its key model, which is not established for
`String` or for a struct holding one, so not even "one entry after one insert"
could be proved of it.
