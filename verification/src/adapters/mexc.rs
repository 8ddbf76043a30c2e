//! MEXC: the REST ticker; the WebSocket feed is not offered yet.

use vstd::prelude::*;
use crate::adapters::build_http_client;
use crate::errors::ConnectorError;
use crate::text::{concat_str, dashless, lemma_dashless_idempotent, normalize_symbol};

verus! {

/// The MEXC connector.
#[derive(Clone)]
pub struct MexcConnector {
    client: reqwest::Client,
}

/// The address of MEXC's price ticker for `symbol`. MEXC writes symbols
/// without a dash (`BTCUSDT`), so the dashes of `symbol` are dropped.
pub open spec fn mexc_ticker_url(symbol: Seq<char>) -> Seq<char> {
    "https://api.mexc.com/api/v3/ticker/price?symbol="@ + dashless(symbol)
}

impl MexcConnector {
    /// A MEXC connector with a new HTTP client, or `Http` with the error
    /// `reqwest` reports when it cannot make one.
    pub fn new() -> (r: Result<Self, ConnectorError>)
        ensures
            r matches Err(e) ==> e is Http,
    {
        match build_http_client() {
            Ok(client) => Ok(Self::with_client(client)),
            Err(e) => Err(ConnectorError::Http(e)),
        }
    }

    /// A MEXC connector that makes its REST calls with `client`.
    pub fn with_client(client: reqwest::Client) -> (r: Self)
        ensures
            r.http_client() == client,
    {
        MexcConnector { client }
    }

    /// The HTTP client this connector was made with.
    pub closed spec fn http_client(self) -> reqwest::Client {
        self.client
    }

    /// The HTTP client of this connector.
    pub fn client(&self) -> (r: &reqwest::Client)
        ensures
            *r == self.http_client(),
    {
        &self.client
    }

    /// The address to fetch the spot price of `symbol` from.
    pub fn ticker_url(symbol: &str) -> (r: String)
        ensures
            r@ == mexc_ticker_url(symbol@),
    {
        let symbol = normalize_symbol(symbol);
        concat_str("https://api.mexc.com/api/v3/ticker/price?symbol=", symbol.as_str())
    }

    /// Subscribing to book tickers: MEXC's WebSocket feed is not offered, so
    /// this always fails with `Other("MEXC WS not implemented")`.
    pub fn subscribe_book_ticker(&self, symbols: Vec<String>) -> (r: Result<(), ConnectorError>)
        ensures
            r matches Err(e) && e.is_other_with("MEXC WS not implemented"@),
    {
        Err(ConnectorError::Other("MEXC WS not implemented".to_owned()))
    }
}

/// Symbols with and without dashes name the same MEXC ticker:
/// `BTC-USDT` and `BTCUSDT` give the same address.
pub proof fn law_mexc_ticker_ignores_dashes(symbol: Seq<char>)
    ensures
        mexc_ticker_url(symbol) == mexc_ticker_url(dashless(symbol)),
{
    lemma_dashless_idempotent(symbol);
}

} // verus!
