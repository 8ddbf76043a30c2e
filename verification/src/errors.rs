use vstd::prelude::*;

verus! {

/// `reqwest::Error`, carried opaquely inside [`ConnectorError::Http`].
#[verifier::external_type_specification]
#[verifier::external_body]
pub struct ExReqwestError(reqwest::Error);

/// The WebSocket error of `tungstenite`, carried inside [`ConnectorError::Ws`].
#[verifier::external_type_specification]
#[verifier::external_body]
pub struct ExWsError(tokio_tungstenite::tungstenite::Error);

/// The error of the `binance` crate, carried inside [`ConnectorError::Binance`].
#[verifier::external_type_specification]
#[verifier::external_body]
pub struct ExBinanceError(binance::errors::Error);

/// `serde_json::Error`, carried inside [`ConnectorError::Serde`].
#[verifier::external_type_specification]
#[verifier::external_body]
pub struct ExSerdeJsonError(serde_json::Error);

/// `tokio::task::JoinError`, carried inside [`ConnectorError::Join`].
#[verifier::external_type_specification]
#[verifier::external_body]
pub struct ExJoinError(tokio::task::JoinError);

/// The unified error of all connectors.
#[derive(Debug)]
pub enum ConnectorError {
    Http(reqwest::Error),
    Ws(tokio_tungstenite::tungstenite::Error),
    Binance(binance::errors::Error),
    Serde(serde_json::Error),
    Join(tokio::task::JoinError),
    Other(String),
}

impl ConnectorError {
    /// Whether this is `Other` with exactly the message `msg`.
    pub open spec fn is_other_with(self, msg: Seq<char>) -> bool {
        self matches ConnectorError::Other(m) && m@ == msg
    }
}

} // verus!
