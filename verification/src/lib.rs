//! Connectors for crypto exchanges (Binance, KuCoin, Kraken, MEXC): the symbol,
//! endpoint and message logic, verified with Verus. Network I/O, the async
//! runtime and floating-point parsing live in the companion binary under `app/`.

pub mod adapters;
pub mod data_aggregator;
pub mod errors;
pub mod json;
pub mod models;
pub mod pub_sub;
pub mod stream;
pub mod table;
pub mod text;
pub mod websocket_client;

pub use errors::ConnectorError;
pub use adapters::{BinanceConnector, KrakenConnector, KucoinConnector, MexcConnector};
pub use models::{OrderBook, OrderBookCollection, OrderBookDepth, OrderBookDepthCollection};
