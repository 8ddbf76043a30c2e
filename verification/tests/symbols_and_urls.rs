use exchange_connectors::adapters::binance::BinanceConnector;
use exchange_connectors::adapters::kraken::KrakenConnector;
use exchange_connectors::adapters::kucoin::KucoinConnector;
use exchange_connectors::adapters::mexc::MexcConnector;
use exchange_connectors::text::{concat_str, join_with, normalize_symbol};
use exchange_connectors::ConnectorError;

#[test]
fn normalize_drops_dashes() {
    assert_eq!(normalize_symbol("BTC-USDT"), "BTCUSDT");
    assert_eq!(normalize_symbol("A-B-C"), "ABC");
    assert_eq!(normalize_symbol("--"), "");
    assert_eq!(normalize_symbol(""), "");
}

#[test]
fn normalize_keeps_plain_symbols() {
    assert_eq!(normalize_symbol("BTCUSDT"), "BTCUSDT");
    assert_eq!(normalize_symbol("eth_btc"), "eth_btc");
}

#[test]
fn normalize_is_idempotent() {
    let once = normalize_symbol("X-Y-Z-");
    assert_eq!(normalize_symbol(&once), once);
}

#[test]
fn concat_and_join() {
    assert_eq!(concat_str("ab", "cd"), "abcd");
    let parts = vec!["BTC-USDT".to_string(), "ETH-USDT".to_string()];
    assert_eq!(join_with(&parts, ","), "BTC-USDT,ETH-USDT");
    assert_eq!(join_with(&vec!["A".to_string()], ","), "A");
    assert_eq!(join_with(&vec![], ","), "");
}

#[test]
fn binance_ticker_url_normalizes_symbol() {
    assert_eq!(
        BinanceConnector::ticker_url("BTC-USDT"),
        "https://api.binance.com/api/v3/ticker/price?symbol=BTCUSDT"
    );
    assert_eq!(BinanceConnector::ticker_url("BTC-USDT"), BinanceConnector::ticker_url("BTCUSDT"));
}

#[test]
fn binance_book_ticker_streams_are_lowercase() {
    let symbols = vec!["BTCUSDT".to_string(), "EthBtc".to_string()];
    assert_eq!(
        BinanceConnector::book_ticker_streams(&symbols),
        vec!["btcusdt@bookTicker".to_string(), "ethbtc@bookTicker".to_string()]
    );
    assert!(BinanceConnector::book_ticker_streams(&vec![]).is_empty());
}

#[test]
fn mexc_ticker_url_normalizes_symbol() {
    assert_eq!(
        MexcConnector::ticker_url("BTC-USDT"),
        "https://api.mexc.com/api/v3/ticker/price?symbol=BTCUSDT"
    );
}

#[test]
fn mexc_websocket_is_not_offered() {
    let mexc = MexcConnector::new().unwrap();
    match mexc.subscribe_book_ticker(vec!["BTCUSDT".to_string()]) {
        Err(ConnectorError::Other(m)) => assert_eq!(m, "MEXC WS not implemented"),
        other => panic!("unexpected {:?}", other),
    }
}

#[test]
fn kraken_is_not_offered() {
    let kraken = KrakenConnector::new();
    match kraken.ticker_price("BTC-USDT") {
        Err(ConnectorError::Other(m)) => assert_eq!(m, "Kraken REST not implemented"),
        other => panic!("unexpected {:?}", other),
    }
    match kraken.subscribe_book_ticker(vec![]) {
        Err(ConnectorError::Other(m)) => assert_eq!(m, "Kraken WS not implemented"),
        other => panic!("unexpected {:?}", other),
    }
}

#[test]
fn kucoin_urls_keep_the_dash() {
    let kucoin = KucoinConnector::new().unwrap();
    assert_eq!(kucoin.bullet_url(), "https://api.kucoin.com/api/v1/bullet-public");
    assert_eq!(
        kucoin.ticker_url("BTC-USDT"),
        "https://api.kucoin.com/api/v1/market/orderbook/level1?symbol=BTC-USDT"
    );
}

