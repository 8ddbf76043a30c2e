//! The market data the connectors collect.
//!
//! Prices and quantities travel through the library as the IEEE-754 bit
//! patterns of the `f64` values the exchanges report (`f64::to_bits`); the
//! library stores and returns them unchanged and never computes with them.

use vstd::prelude::*;
use crate::table::NameTable;

verus! {

/// The best bid and best ask of one symbol, each as `(price, quantity)`.
#[derive(Debug, Clone, Copy)]
pub struct OrderBook {
    pub bid: (u64, u64),
    pub ask: (u64, u64),
}

/// Several price levels of one symbol, each level as `(price, quantity)`.
#[derive(Debug)]
pub struct OrderBookDepth {
    pub bids: Vec<(u64, u64)>,
    pub asks: Vec<(u64, u64)>,
}

/// Order books by exchange, then by symbol.
pub type OrderBookCollection = NameTable<NameTable<OrderBook>>;

/// Order-book depths by exchange, then by symbol.
pub type OrderBookDepthCollection = NameTable<NameTable<OrderBookDepth>>;

/// The content of a collection of tables by exchange, then by symbol.
pub open spec fn nested_view<V>(t: NameTable<NameTable<V>>) -> Map<Seq<char>, Map<Seq<char>, V>> {
    Map::new(|exchange: Seq<char>| t.as_map().contains_key(exchange), |exchange: Seq<char>| t.as_map()[exchange].as_map())
}

} // verus!
