//! Kraken: neither REST nor WebSocket is offered yet.

use vstd::prelude::*;
use crate::errors::ConnectorError;

verus! {

/// The Kraken connector.
#[derive(Clone, Default)]
pub struct KrakenConnector;

impl KrakenConnector {
    /// A Kraken connector.
    pub fn new() -> (r: Self)
        ensures
            r == KrakenConnector,
    {
        KrakenConnector
    }

    /// The spot price of `symbol` (as the bits of an `f64`): Kraken's REST
    /// ticker is not offered, so this always fails with
    /// `Other("Kraken REST not implemented")`.
    pub fn ticker_price(&self, symbol: &str) -> (r: Result<u64, ConnectorError>)
        ensures
            r matches Err(e) && e.is_other_with("Kraken REST not implemented"@),
    {
        Err(ConnectorError::Other("Kraken REST not implemented".to_owned()))
    }

    /// Subscribing to book tickers: Kraken's WebSocket feed is not offered, so
    /// this always fails with `Other("Kraken WS not implemented")`.
    pub fn subscribe_book_ticker(&self, symbols: Vec<String>) -> (r: Result<(), ConnectorError>)
        ensures
            r matches Err(e) && e.is_other_with("Kraken WS not implemented"@),
    {
        Err(ConnectorError::Other("Kraken WS not implemented".to_owned()))
    }
}

} // verus!
