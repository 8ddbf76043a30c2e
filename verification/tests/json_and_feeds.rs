use exchange_connectors::json::{parse_json, to_json_text, Json};
use exchange_connectors::pub_sub::create_pubsub_channel;
use exchange_connectors::stream::Incoming;
use exchange_connectors::websocket_client::{
    depth_message_step, depth_step, depth_streams, depth_subscribe_message, depth_subscribe_text, DepthStep, DEPTH_FEED_URL,
};

fn member(name: &str, value: Json) -> (String, Json) {
    (name.to_string(), value)
}

#[test]
fn json_get_finds_members() {
    let v = Json::Object(vec![member("a", Json::Null), member("b", Json::Str("x".to_string()))]);
    assert!(matches!(v.get("a"), Some(Json::Null)));
    assert!(matches!(v.get("b"), Some(Json::Str(s)) if s == "x"));
    assert!(v.get("c").is_none());
    assert_eq!(v.text_field("b"), Some("x".to_string()));
    assert_eq!(v.text_field("a"), None);
    assert!(Json::Array(vec![]).get("a").is_none());
    assert!(Json::Str("a".to_string()).get("a").is_none());
}

#[test]
fn json_into_field_takes_member() {
    let v = Json::Object(vec![member("data", Json::Bool(true))]);
    assert!(matches!(v.into_field("data"), Some(Json::Bool(true))));
    let w = Json::Object(vec![member("other", Json::Bool(true))]);
    assert!(w.into_field("data").is_none());
}

#[test]
fn json_texts_builds_string_array() {
    match Json::texts(&vec!["p".to_string(), "q".to_string()]) {
        Json::Array(items) => {
            assert_eq!(items.len(), 2);
            assert!(matches!(&items[0], Json::Str(s) if s == "p"));
            assert!(matches!(&items[1], Json::Str(s) if s == "q"));
        }
        other => panic!("unexpected {:?}", other),
    }
}

#[test]
fn depth_stream_names() {
    assert_eq!(DEPTH_FEED_URL, "wss://stream.binance.com:9443/stream");
    assert_eq!(
        depth_streams(&vec!["btcusdt".to_string(), "ethusdt".to_string()]),
        vec!["btcusdt@depth@100ms".to_string(), "ethusdt@depth@100ms".to_string()]
    );
}

#[test]
fn depth_subscription_message() {
    let m = depth_subscribe_message(&vec!["btcusdt".to_string()]);
    assert!(matches!(m.get("method"), Some(Json::Str(s)) if s == "SUBSCRIBE"));
    assert!(matches!(m.get("id"), Some(Json::Number(n)) if n == "1"));
    match m.get("params") {
        Some(Json::Array(items)) => {
            assert_eq!(items.len(), 1);
            assert!(matches!(&items[0], Json::Str(s) if s == "btcusdt@depth@100ms"));
        }
        other => panic!("unexpected {:?}", other),
    }
}

#[test]
fn depth_step_forwards_data() {
    let msg = Json::Object(vec![
        member("stream", Json::Str("btcusdt@depth@100ms".to_string())),
        member("data", Json::Object(vec![member("s", Json::Str("BTCUSDT".to_string()))])),
    ]);
    match depth_message_step(Ok(msg)) {
        DepthStep::Forward(data) => assert_eq!(data.text_field("s"), Some("BTCUSDT".to_string())),
        other => panic!("unexpected {:?}", other),
    }
    let ack = Json::Object(vec![member("result", Json::Null), member("id", Json::Number("1".to_string()))]);
    assert!(matches!(depth_message_step(Ok(ack)), DepthStep::Skip));
    let bad = serde_json::from_str::<serde_json::Value>("nope").unwrap_err();
    assert!(matches!(depth_message_step(Err(bad)), DepthStep::Skip));
    assert!(matches!(depth_step(Incoming::Ping(vec![])), DepthStep::Skip));
    assert!(matches!(depth_step(Incoming::Closed), DepthStep::Done));
}

#[test]
fn depth_step_reads_frame_text() {
    let frame = r#"{"stream":"btcusdt@depth@100ms","data":{"e":"depthUpdate","s":"BTCUSDT"}}"#;
    match depth_step(Incoming::Text(frame.to_string())) {
        DepthStep::Forward(data) => {
            assert_eq!(data.text_field("e"), Some("depthUpdate".to_string()));
            assert_eq!(data.text_field("s"), Some("BTCUSDT".to_string()));
        }
        other => panic!("unexpected {:?}", other),
    }
    assert!(matches!(depth_step(Incoming::Text(r#"{"result":null,"id":1}"#.to_string())), DepthStep::Skip));
    assert!(matches!(depth_step(Incoming::Text("nope".to_string())), DepthStep::Skip));
}

#[test]
fn depth_subscribe_text_is_the_subscription_as_json() {
    let text = depth_subscribe_text(&vec!["btcusdt".to_string()]);
    let message = parse_json(&text).unwrap();
    assert_eq!(message.text_field("method"), Some("SUBSCRIBE".to_string()));
    assert!(matches!(message.get("id"), Some(Json::Number(n)) if n == "1"));
    match message.get("params") {
        Some(Json::Array(items)) => {
            assert_eq!(items.len(), 1);
            assert!(matches!(&items[0], Json::Str(s) if s == "btcusdt@depth@100ms"));
        }
        other => panic!("unexpected {:?}", other),
    }
}

#[test]
fn parse_json_reads_every_kind_of_value() {
    let v = parse_json(r#"{"a":null,"b":true,"c":12,"d":"x","e":[1,"y"]}"#).unwrap();
    assert!(matches!(v.get("a"), Some(Json::Null)));
    assert!(matches!(v.get("b"), Some(Json::Bool(true))));
    assert!(matches!(v.get("c"), Some(Json::Number(n)) if n == "12"));
    assert_eq!(v.text_field("d"), Some("x".to_string()));
    match v.get("e") {
        Some(Json::Array(items)) => {
            assert_eq!(items.len(), 2);
            assert!(matches!(&items[0], Json::Number(n) if n == "1"));
            assert!(matches!(&items[1], Json::Str(s) if s == "y"));
        }
        other => panic!("unexpected {:?}", other),
    }
    assert!(parse_json("{").is_err());
    assert!(parse_json("").is_err());
}

#[test]
fn to_json_text_prints_compact_json() {
    let v = Json::Object(vec![
        member("n", Json::Number("7".to_string())),
        member("s", Json::Str("q".to_string())),
        member("l", Json::Array(vec![Json::Bool(false), Json::Null])),
    ]);
    let text = to_json_text(&v).unwrap();
    let back = parse_json(&text).unwrap();
    assert!(matches!(back.get("n"), Some(Json::Number(n)) if n == "7"));
    assert_eq!(back.text_field("s"), Some("q".to_string()));
    assert!(!text.contains(' '));
    assert_eq!(to_json_text(&Json::Str("a".to_string())), Some("\"a\"".to_string()));
    assert_eq!(to_json_text(&Json::Number("12".to_string())), Some("12".to_string()));
    assert_eq!(to_json_text(&Json::Number("not a number".to_string())), None);
}

#[test]
fn pubsub_channel_delivers() {
    let sender = create_pubsub_channel();
    let mut receiver = sender.subscribe();
    sender.send("hello".to_string()).unwrap();
    assert_eq!(receiver.try_recv().unwrap(), "hello");
}
