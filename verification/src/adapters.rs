//! One connector per exchange.

use vstd::prelude::*;

pub mod binance;
pub mod kraken;
pub mod kucoin;
pub mod mexc;

pub use binance::BinanceConnector;
pub use kraken::KrakenConnector;
pub use kucoin::KucoinConnector;
pub use mexc::MexcConnector;

verus! {

/// `reqwest::Client`, the HTTP client a connector keeps for its REST calls.
#[verifier::external_type_specification]
#[verifier::external_body]
pub struct ExHttpClient(reqwest::Client);

/// `reqwest::Client::builder().build()`: a client with the default
/// configuration, or the error `reqwest` reports when the TLS backend or the
/// resolver cannot be set up (`build` returns it where `Client::new` would
/// panic). Which of the two comes depends on the machine, and nothing is
/// stated of the client.
#[verifier::external_body]
pub(crate) fn build_http_client() -> Result<reqwest::Client, reqwest::Error> {
    reqwest::Client::builder().build()
}

/// `Clone` of `reqwest::Client`: a handle to the same client (the client
/// lives behind an `Arc`). Nothing is stated of the handle.
pub assume_specification[ <reqwest::Client as Clone>::clone ](client: &reqwest::Client) -> reqwest::Client;

} // verus!
