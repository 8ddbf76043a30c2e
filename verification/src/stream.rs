//! What one read of a WebSocket stream gives a connector.

use vstd::prelude::*;

verus! {

/// One outcome of reading the next frame of a WebSocket stream.
#[derive(Debug)]
pub enum Incoming {
    /// A text frame with its text.
    Text(String),
    /// A ping frame with its payload.
    Ping(Vec<u8>),
    /// Any other frame (binary, pong, close, raw).
    Other,
    /// The read failed.
    Failed(tokio_tungstenite::tungstenite::Error),
    /// The stream has ended.
    Closed,
}

} // verus!
