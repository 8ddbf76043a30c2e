//! Binance: the REST ticker and the book-ticker streams.

use vstd::prelude::*;
use crate::adapters::build_http_client;
use crate::errors::ConnectorError;
use crate::text::{concat_str, dashless, lemma_dashless_idempotent, lowercase_of, normalize_symbol, texts, to_lowercase};

verus! {

/// The Binance connector.
#[derive(Clone)]
pub struct BinanceConnector {
    client: reqwest::Client,
}

/// The address of Binance's price ticker for `symbol`. Binance writes
/// symbols without a dash (`BTCUSDT`), so the dashes of `symbol` are dropped.
pub open spec fn binance_ticker_url(symbol: Seq<char>) -> Seq<char> {
    "https://api.binance.com/api/v3/ticker/price?symbol="@ + dashless(symbol)
}

/// The name of the book-ticker stream of `symbol`: the symbol in lower case
/// followed by `@bookTicker`.
pub open spec fn book_ticker_stream(symbol: Seq<char>) -> Seq<char> {
    lowercase_of(symbol) + "@bookTicker"@
}

impl BinanceConnector {
    /// A Binance connector with a new HTTP client, or `Http` with the error
    /// `reqwest` reports when it cannot make one.
    pub fn new() -> (r: Result<Self, ConnectorError>)
        ensures
            r matches Err(e) ==> e is Http,
    {
        match build_http_client() {
            Ok(client) => Ok(Self::with_client(client)),
            Err(e) => Err(ConnectorError::Http(e)),
        }
    }

    /// A Binance connector that makes its REST calls with `client`.
    pub fn with_client(client: reqwest::Client) -> (r: Self)
        ensures
            r.http_client() == client,
    {
        BinanceConnector { client }
    }

    /// The HTTP client this connector was made with.
    pub closed spec fn http_client(self) -> reqwest::Client {
        self.client
    }

    /// The HTTP client of this connector.
    pub fn client(&self) -> (r: &reqwest::Client)
        ensures
            *r == self.http_client(),
    {
        &self.client
    }

    /// The address to fetch the spot price of `symbol` from.
    pub fn ticker_url(symbol: &str) -> (r: String)
        ensures
            r@ == binance_ticker_url(symbol@),
    {
        let symbol = normalize_symbol(symbol);
        concat_str("https://api.binance.com/api/v3/ticker/price?symbol=", symbol.as_str())
    }

    /// The book-ticker stream names of `symbols`, in order.
    pub fn book_ticker_streams(symbols: &Vec<String>) -> (r: Vec<String>)
        ensures
            r.len() == symbols.len(),
            forall|i: int| 0 <= i < symbols.len() ==> #[trigger] r@[i]@ == book_ticker_stream(symbols@[i]@),
    {
        let mut streams: Vec<String> = Vec::new();
        let mut i: usize = 0;
        while i < symbols.len()
            invariant
                i <= symbols.len(),
                streams.len() == i,
                forall|j: int| 0 <= j < i ==> #[trigger] streams@[j]@ == book_ticker_stream(symbols@[j]@),
            decreases symbols.len() - i,
        {
            let lower = to_lowercase(symbols[i].as_str());
            streams.push(concat_str(lower.as_str(), "@bookTicker"));
            i = i + 1;
        }
        streams
    }
}

/// Symbols with and without dashes name the same Binance ticker:
/// `BTC-USDT` and `BTCUSDT` give the same address.
pub proof fn law_binance_ticker_ignores_dashes(symbol: Seq<char>)
    ensures
        binance_ticker_url(symbol) == binance_ticker_url(dashless(symbol)),
{
    lemma_dashless_idempotent(symbol);
}

} // verus!
