use exchange_connectors::adapters::kucoin::{
    InstanceServer, KucoinConnector, KucoinWebSocketResponse, MonitorStep, TickerStep, WebSocketData,
};
use exchange_connectors::json::{parse_json, Json};
use exchange_connectors::stream::Incoming;
use exchange_connectors::ConnectorError;

fn server(endpoint: &str) -> InstanceServer {
    InstanceServer {
        endpoint: endpoint.to_string(),
        protocol: "websocket".to_string(),
        encrypt: true,
        ping_interval: 18000,
        ping_timeout: 10000,
    }
}

fn member(name: &str, value: Json) -> (String, Json) {
    (name.to_string(), value)
}

fn text(s: &str) -> Json {
    Json::Str(s.to_string())
}

fn ticker_message() -> Json {
    Json::Object(vec![
        member("type", text("message")),
        member(
            "data",
            Json::Object(vec![
                member("symbol", text("BTC-USDT")),
                member("bestBid", text("67000.1")),
                member("bestBidSize", text("0.5")),
                member("bestAsk", text("67000.2")),
                member("bestAskSize", text("1.25")),
                member("sequence", Json::Number("42".to_string())),
            ]),
        ),
    ])
}

fn serde_error() -> serde_json::Error {
    serde_json::from_str::<serde_json::Value>("{").unwrap_err()
}

#[test]
fn session_url_uses_first_server_and_token() {
    let servers = vec![server("wss://ws-api-spot.kucoin.com/"), server("wss://other/")];
    match KucoinConnector::session_url(&servers, "tok123") {
        Ok(url) => assert_eq!(url, "wss://ws-api-spot.kucoin.com/?token=tok123"),
        Err(e) => panic!("unexpected {:?}", e),
    }
}

#[test]
fn session_url_without_servers_fails() {
    match KucoinConnector::session_url(&vec![], "tok") {
        Err(ConnectorError::Other(m)) => assert_eq!(m, "No WebSocket servers available"),
        other => panic!("unexpected {:?}", other),
    }
}

#[test]
fn websocket_config_takes_servers_and_token() {
    let response = KucoinWebSocketResponse {
        code: "200000".to_string(),
        data: WebSocketData { token: "abc".to_string(), instance_servers: vec![server("wss://a/")] },
    };
    let config = KucoinConnector::websocket_config(response);
    assert_eq!(config.token, "abc");
    assert_eq!(config.servers.len(), 1);
    assert_eq!(config.servers[0].endpoint, "wss://a/");
    assert_eq!(config.servers[0].ping_interval, 18000);
}

#[test]
fn subscribe_message_names_the_ticker_topic() {
    let symbols = vec!["BTC-USDT".to_string(), "ETH-USDT".to_string()];
    let message = KucoinConnector::subscribe_message(&symbols);
    match message.get("topic") {
        Some(Json::Str(t)) => assert_eq!(t, "/market/ticker:BTC-USDT,ETH-USDT"),
        other => panic!("unexpected {:?}", other),
    }
    match message.get("type") {
        Some(Json::Str(t)) => assert_eq!(t, "subscribe"),
        other => panic!("unexpected {:?}", other),
    }
    match message.get("id") {
        Some(Json::Number(n)) => assert_eq!(n, "1"),
        other => panic!("unexpected {:?}", other),
    }
    assert!(matches!(message.get("privateChannel"), Some(Json::Bool(false))));
    assert!(matches!(message.get("response"), Some(Json::Bool(true))));
}

#[test]
fn ticker_step_hands_over_a_ticker() {
    match KucoinConnector::ticker_message_step(Ok(ticker_message())) {
        TickerStep::Update(u) => {
            assert_eq!(u.symbol, "BTC-USDT");
            assert_eq!(u.best_bid, "67000.1");
            assert_eq!(u.best_bid_size, "0.5");
            assert_eq!(u.best_ask, "67000.2");
            assert_eq!(u.best_ask_size, "1.25");
        }
        other => panic!("unexpected {:?}", other),
    }
}

#[test]
fn ticker_step_passes_over_incomplete_messages() {
    let welcome = Json::Object(vec![member("type", text("welcome"))]);
    assert!(matches!(KucoinConnector::ticker_message_step(Ok(welcome)), TickerStep::Continue));
    let partial = Json::Object(vec![member(
        "data",
        Json::Object(vec![member("symbol", text("BTC-USDT")), member("bestBid", Json::Number("1".to_string()))]),
    )]);
    assert!(matches!(KucoinConnector::ticker_message_step(Ok(partial)), TickerStep::Continue));
    assert!(matches!(KucoinConnector::ticker_step(Incoming::Other), TickerStep::Continue));
}

#[test]
fn ticker_step_answers_pings() {
    match KucoinConnector::ticker_step(Incoming::Ping(vec![1, 2, 3])) {
        TickerStep::Pong(p) => assert_eq!(p, vec![1, 2, 3]),
        other => panic!("unexpected {:?}", other),
    }
}

#[test]
fn ticker_step_errors_end_the_session() {
    assert!(matches!(
        KucoinConnector::ticker_message_step(Err(serde_error())),
        TickerStep::Finish(ConnectorError::Serde(_))
    ));
    assert!(matches!(
        KucoinConnector::ticker_step(Incoming::Text("{".to_string())),
        TickerStep::Finish(ConnectorError::Serde(_))
    ));
    assert!(matches!(
        KucoinConnector::ticker_step(Incoming::Failed(
            tokio_tungstenite::tungstenite::Error::ConnectionClosed
        )),
        TickerStep::Finish(ConnectorError::Ws(_))
    ));
    match KucoinConnector::ticker_step(Incoming::Closed) {
        TickerStep::Finish(ConnectorError::Other(m)) => assert_eq!(m, "WebSocket stream ended"),
        other => panic!("unexpected {:?}", other),
    }
}

#[test]
fn monitor_step_shows_data() {
    match KucoinConnector::monitor_message_step(Ok(ticker_message())) {
        MonitorStep::Show(data) => match data.get("symbol") {
            Some(Json::Str(s)) => assert_eq!(s, "BTC-USDT"),
            other => panic!("unexpected {:?}", other),
        },
        other => panic!("unexpected {:?}", other),
    }
    let no_data = Json::Object(vec![member("type", text("ack"))]);
    assert!(matches!(KucoinConnector::monitor_message_step(Ok(no_data)), MonitorStep::Continue));
}

#[test]
fn monitor_step_ends_after_a_fault() {
    match KucoinConnector::monitor_step(Incoming::Failed(tokio_tungstenite::tungstenite::Error::ConnectionClosed)) {
        MonitorStep::Stop { fault: Some(_), error: ConnectorError::Other(m) } => {
            assert_eq!(m, "WebSocket stream ended")
        }
        other => panic!("unexpected {:?}", other),
    }
    match KucoinConnector::monitor_step(Incoming::Closed) {
        MonitorStep::Stop { fault: None, error: ConnectorError::Other(m) } => assert_eq!(m, "WebSocket stream ended"),
        other => panic!("unexpected {:?}", other),
    }
    assert!(matches!(
        KucoinConnector::monitor_message_step(Err(serde_error())),
        MonitorStep::Stop { fault: None, error: ConnectorError::Serde(_) }
    ));
    assert!(matches!(
        KucoinConnector::monitor_step(Incoming::Text("not json".to_string())),
        MonitorStep::Stop { fault: None, error: ConnectorError::Serde(_) }
    ));
    match KucoinConnector::monitor_step(Incoming::Ping(vec![9])) {
        MonitorStep::Pong(p) => assert_eq!(p, vec![9]),
        other => panic!("unexpected {:?}", other),
    }
}

#[test]
fn ticker_step_reads_frame_text() {
    let frame = r#"{"type":"message","topic":"/market/ticker:ETH-USDT","subject":"trade.ticker","data":{"symbol":"ETH-USDT","bestBid":"3000.5","bestBidSize":"2","bestAsk":"3001","bestAskSize":"3"}}"#;
    match KucoinConnector::ticker_step(Incoming::Text(frame.to_string())) {
        TickerStep::Update(u) => {
            assert_eq!(u.symbol, "ETH-USDT");
            assert_eq!(u.best_bid, "3000.5");
            assert_eq!(u.best_bid_size, "2");
            assert_eq!(u.best_ask, "3001");
            assert_eq!(u.best_ask_size, "3");
        }
        other => panic!("unexpected {:?}", other),
    }
    let welcome = r#"{"id":"abc","type":"welcome"}"#;
    assert!(matches!(KucoinConnector::ticker_step(Incoming::Text(welcome.to_string())), TickerStep::Continue));
}

#[test]
fn ticker_step_takes_symbol_from_topic() {
    let frame = r#"{"type":"message","topic":"/market/ticker:BTC-USDT","subject":"trade.ticker","data":{"bestBid":"100.5","bestBidSize":"2","bestAsk":"101","bestAskSize":"3"}}"#;
    match KucoinConnector::ticker_step(Incoming::Text(frame.to_string())) {
        TickerStep::Update(u) => {
            assert_eq!(u.symbol, "BTC-USDT");
            assert_eq!(u.best_bid, "100.5");
            assert_eq!(u.best_bid_size, "2");
            assert_eq!(u.best_ask, "101");
            assert_eq!(u.best_ask_size, "3");
        }
        other => panic!("unexpected {:?}", other),
    }
    let other_topic = r#"{"topic":"/market/level2:BTC-USDT","data":{"bestBid":"1","bestBidSize":"2","bestAsk":"3","bestAskSize":"4"}}"#;
    assert!(matches!(KucoinConnector::ticker_step(Incoming::Text(other_topic.to_string())), TickerStep::Continue));
    let no_topic = r#"{"data":{"bestBid":"1","bestBidSize":"2","bestAsk":"3","bestAskSize":"4"}}"#;
    assert!(matches!(KucoinConnector::ticker_step(Incoming::Text(no_topic.to_string())), TickerStep::Continue));
}

#[test]
fn monitor_step_reads_frame_text() {
    let frame = r#"{"type":"message","data":{"bestAsk":"7"}}"#;
    match KucoinConnector::monitor_step(Incoming::Text(frame.to_string())) {
        MonitorStep::Show(data) => assert_eq!(data.text_field("bestAsk"), Some("7".to_string())),
        other => panic!("unexpected {:?}", other),
    }
}

#[test]
fn subscribe_text_is_the_subscription_as_json() {
    let symbols = vec!["BTC-USDT".to_string(), "ETH-USDT".to_string()];
    let text = KucoinConnector::subscribe_text(&symbols);
    let message = parse_json(&text).unwrap();
    assert_eq!(message.text_field("topic"), Some("/market/ticker:BTC-USDT,ETH-USDT".to_string()));
    assert_eq!(message.text_field("type"), Some("subscribe".to_string()));
    assert!(matches!(message.get("id"), Some(Json::Number(n)) if n == "1"));
    assert!(matches!(message.get("privateChannel"), Some(Json::Bool(false))));
    assert!(matches!(message.get("response"), Some(Json::Bool(true))));
    assert!(text.starts_with('{') && !text.contains(' '));
}

#[test]
fn kucoin_connector_with_client_uses_kucoin_base() {
    let kucoin = KucoinConnector::with_client(reqwest::Client::new());
    assert_eq!(kucoin.bullet_url(), "https://api.kucoin.com/api/v1/bullet-public");
}

#[test]
fn ticker_session_ends_only_with_an_error() {
    let events = vec![
        Incoming::Text(r#"{"id":"1","type":"welcome"}"#.to_string()),
        Incoming::Ping(vec![7]),
        Incoming::Text(
            r#"{"topic":"/market/ticker:BTC-USDT","data":{"bestBid":"1","bestBidSize":"2","bestAsk":"3","bestAskSize":"4"}}"#
                .to_string(),
        ),
        Incoming::Other,
        Incoming::Closed,
    ];
    let steps: Vec<TickerStep> = events.into_iter().map(KucoinConnector::ticker_step).collect();
    assert!(matches!(steps[0], TickerStep::Continue));
    assert!(matches!(steps[1], TickerStep::Pong(_)));
    assert!(matches!(&steps[2], TickerStep::Update(u) if u.symbol == "BTC-USDT"));
    assert!(matches!(steps[3], TickerStep::Continue));
    match &steps[4] {
        TickerStep::Finish(ConnectorError::Other(m)) => assert_eq!(m, "WebSocket stream ended"),
        other => panic!("unexpected {:?}", other),
    }
}
