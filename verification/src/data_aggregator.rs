//! The latest market data seen for each exchange and symbol.

use vstd::prelude::*;
use crate::models::{OrderBook, OrderBookCollection, OrderBookDepth, OrderBookDepthCollection, nested_view};
use crate::table::NameTable;

verus! {

/// What writing `value` for (`exchange`, `symbol`) into the nested content
/// `m` gives: the symbol's entry is set, the exchange's table created first
/// when the exchange is new, nothing else changes.
pub open spec fn put_nested<V>(
    m: Map<Seq<char>, Map<Seq<char>, V>>,
    exchange: Seq<char>,
    symbol: Seq<char>,
    value: V,
) -> Map<Seq<char>, Map<Seq<char>, V>> {
    let symbols = if m.contains_key(exchange) { m[exchange] } else { Map::empty() };
    m.insert(exchange, symbols.insert(symbol, value))
}

/// What the nested content `m` holds for (`exchange`, `symbol`).
pub open spec fn lookup_nested<V>(m: Map<Seq<char>, Map<Seq<char>, V>>, exchange: Seq<char>, symbol: Seq<char>) -> Option<V> {
    if m.contains_key(exchange) && m[exchange].contains_key(symbol) {
        Some(m[exchange][symbol])
    } else {
        None
    }
}

/// Writes `value` for (`exchange`, `symbol`) into `tables`.
fn put_in<V>(tables: &mut NameTable<NameTable<V>>, exchange: &str, symbol: &str, value: V)
    ensures
        nested_view(*final(tables)) == put_nested(nested_view(*old(tables)), exchange@, symbol@, value),
{
    let ghost before = nested_view(*tables);
    let mut symbols = match tables.remove(exchange) {
        Some(t) => t,
        None => NameTable::new(),
    };
    symbols.insert(symbol.to_owned(), value);
    tables.insert(exchange.to_owned(), symbols);
    assert(nested_view(*tables) =~= put_nested(before, exchange@, symbol@, value));
}

/// The latest order book and depth reported for each exchange and symbol.
pub struct DataAggregator {
    pub collection: OrderBookCollection,
    pub depthcollection: OrderBookDepthCollection,
}

impl DataAggregator {
    /// The order books held, by exchange then symbol.
    pub open spec fn books(self) -> Map<Seq<char>, Map<Seq<char>, OrderBook>> {
        nested_view(self.collection)
    }

    /// The depths held, by exchange then symbol.
    pub open spec fn depths(self) -> Map<Seq<char>, Map<Seq<char>, OrderBookDepth>> {
        nested_view(self.depthcollection)
    }

    /// An aggregator that holds nothing yet.
    pub fn new() -> (r: Self)
        ensures
            r.books() == Map::<Seq<char>, Map<Seq<char>, OrderBook>>::empty(),
            r.depths() == Map::<Seq<char>, Map<Seq<char>, OrderBookDepth>>::empty(),
    {
        let r = DataAggregator { collection: NameTable::new(), depthcollection: NameTable::new() };
        assert(r.books() =~= Map::<Seq<char>, Map<Seq<char>, OrderBook>>::empty());
        assert(r.depths() =~= Map::<Seq<char>, Map<Seq<char>, OrderBookDepth>>::empty());
        r
    }

    /// Records `order_book` as the latest book of `symbol` on `exchange`.
    pub fn update_order_book(&mut self, exchange: &str, symbol: &str, order_book: OrderBook)
        ensures
            final(self).books() == put_nested(old(self).books(), exchange@, symbol@, order_book),
            final(self).depths() == old(self).depths(),
    {
        put_in(&mut self.collection, exchange, symbol, order_book);
    }

    /// The latest book recorded for `symbol` on `exchange`, if any.
    pub fn get_order_book(&self, exchange: &str, symbol: &str) -> (r: Option<OrderBook>)
        ensures
            r == lookup_nested(self.books(), exchange@, symbol@),
    {
        match self.collection.get(exchange) {
            Some(symbols) => match symbols.get(symbol) {
                Some(book) => Some(*book),
                None => None,
            },
            None => None,
        }
    }

    /// Records `order_book` as the latest depth of `symbol` on `exchange`.
    pub fn update_order_book_depth(&mut self, exchange: &str, symbol: &str, order_book: OrderBookDepth)
        ensures
            final(self).depths() == put_nested(old(self).depths(), exchange@, symbol@, order_book),
            final(self).books() == old(self).books(),
    {
        put_in(&mut self.depthcollection, exchange, symbol, order_book);
    }
}

/// Reading back a write: after `value` is written for (`exchange`,
/// `symbol`), that is what is found there.
pub proof fn law_read_after_write<V>(m: Map<Seq<char>, Map<Seq<char>, V>>, exchange: Seq<char>, symbol: Seq<char>, value: V)
    ensures
        lookup_nested(put_nested(m, exchange, symbol, value), exchange, symbol) == Some(value),
{
}

/// A write for (`exchange`, `symbol`) leaves every other exchange and symbol
/// as it was.
pub proof fn law_write_keeps_others<V>(
    m: Map<Seq<char>, Map<Seq<char>, V>>,
    exchange: Seq<char>,
    symbol: Seq<char>,
    value: V,
    other_exchange: Seq<char>,
    other_symbol: Seq<char>,
)
    requires
        other_exchange != exchange || other_symbol != symbol,
    ensures
        lookup_nested(put_nested(m, exchange, symbol, value), other_exchange, other_symbol)
            == lookup_nested(m, other_exchange, other_symbol),
{
}

/// Of two writes for the same exchange and symbol, the later one counts.
pub proof fn law_last_write_wins<V>(
    m: Map<Seq<char>, Map<Seq<char>, V>>,
    exchange: Seq<char>,
    symbol: Seq<char>,
    first: V,
    second: V,
)
    ensures
        put_nested(put_nested(m, exchange, symbol, first), exchange, symbol, second) == put_nested(
            m,
            exchange,
            symbol,
            second,
        ),
{
    let once = put_nested(m, exchange, symbol, second);
    let twice = put_nested(put_nested(m, exchange, symbol, first), exchange, symbol, second);
    assert(twice[exchange] =~= once[exchange]);
    assert(twice =~= once);
}

/// Writing an exchange and symbol never removes an exchange or a symbol.
pub proof fn law_write_only_adds<V>(
    m: Map<Seq<char>, Map<Seq<char>, V>>,
    exchange: Seq<char>,
    symbol: Seq<char>,
    value: V,
    other_exchange: Seq<char>,
    other_symbol: Seq<char>,
)
    requires
        lookup_nested(m, other_exchange, other_symbol) is Some,
    ensures
        lookup_nested(put_nested(m, exchange, symbol, value), other_exchange, other_symbol) is Some,
{
}

} // verus!
