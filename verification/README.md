# signalflow-bot

An auto-trading bot for Hyperliquid perpetual futures, driven by external
trading signals. The decisions the bot makes are a Verus library (`src/`),
each with a contract proved by Verus; `app/` is the program around it: the
configuration file, HTTP and WebSocket I/O, and the floating-point sizing
and profit arithmetic.

## Library modules

| module | what it decides |
|--------|-----------------|
| `config` | configuration defaults, environment overrides, and the checks a configuration must pass |
| `signing` | the wallet (private key to address) and EIP-712 signatures of exchange actions |
| `exchange` | how each reply of the exchange endpoint is answered: retry after a doubling pause, fail, or accept |
| `execution` | the IOC limit-order executor: the limit price (best bid for a long, best ask for a short), refuse, dry-run, send, wait and cancel |
| `order` | order sides, types (time-in-force, trigger kind, `normalTpsl` grouping of TP/SL orders) and statuses, and the labels trades are logged under |
| `assets` | asset ids by name, asset metadata defaults, and the built-in id table |
| `market` | latest mid prices with 60-second stale detection |
| `signal` | signals, how provider items are read, and which signals may become orders |
| `risk` | the risk gate: position limit, daily/weekly loss halts, drawdown cooldown |
| `lesson` | trade outcomes, loss and win causes, and what a closed trade teaches |
| `rules` | strategy rules planned from lessons, and coin filters |
| `macro_news` | which economic events matter, when they happen in UTC (US daylight saving from the second Sunday of March to the first Sunday of November), and blocking around them |
| `ws`, `backoff` | WebSocket subscriptions, frame handling, and reconnect delays |
| `sync` | loop cadence, closed-position detection, the trade log |
| `orderflow` | trade sides and the rolling window of the volume delta |
| `candles` | one- and five-minute candle buckets of the technical-analysis engine |
| `text`, `error` | string helpers and the error type |

Prices, sizes and other `f64` values the library only carries are held as
their IEEE-754 bit patterns (`f64::to_bits`).

## Layout

- `src/` — the verified library
- `tests/` — tests of the library
- `app/` — the bot program
