# exchange_connectors

Connectors for crypto exchanges (Binance, KuCoin, Kraken, MEXC), with the
connector logic verified by Verus.

- `src/` — the verified library: symbol normalisation, REST and WebSocket
  addresses, subscription messages (as a JSON tree and as the text sent), the
  reading of WebSocket frames as JSON (through `serde_json`) and the per-frame
  decisions of the sessions, the order-book aggregator and its name tables.
- `app/` — the program around it: the async runtime, HTTP and WebSocket I/O,
  `serde` and `thiserror` derives, and the `f64` prices.
- `tests/` — tests of the library on concrete values.

Prices and quantities cross the library as the bit patterns of their `f64`
values (`f64::to_bits`); the library stores them and hands them back
unchanged.
