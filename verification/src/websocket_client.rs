//! The Binance depth feed that the relay server forwards to its clients.

use vstd::prelude::*;
use crate::json::{
    Json, JsonValue, json_text, lemma_model_members, lemma_str_values_plain, lemma_members_plain, numbers_plain,
    parse_json, parsed_json, plain_number, str_values, to_json_text,
};
use crate::stream::Incoming;
use crate::text::{concat_str, texts};

verus! {

/// One depth update of Binance's stream, as forwarded to the relay's clients.
#[allow(non_snake_case)]
#[derive(Debug)]
pub struct DepthUpdate {
    /// The event type (`depthUpdate`).
    pub e: String,
    /// The event time.
    pub E: u64,
    /// The symbol.
    pub s: String,
    /// Bids, as `(price, quantity)` texts.
    pub b: Vec<(String, String)>,
    /// Asks, as `(price, quantity)` texts.
    pub a: Vec<(String, String)>,
}

/// What the relay does after one read of the depth stream.
#[derive(Debug)]
pub enum DepthStep {
    /// Forward this `data` part of a message to the clients; read on.
    Forward(Json),
    /// Nothing; read on.
    Skip,
    /// The stream has ended.
    Done,
}

/// The name of the depth stream of `symbol` (100 ms updates).
pub open spec fn depth_stream(symbol: Seq<char>) -> Seq<char> {
    symbol + "@depth@100ms"@
}

/// The message that subscribes to the streams `streams`.
pub open spec fn stream_subscription(streams: Seq<Seq<char>>) -> JsonValue {
    JsonValue::Object(
        seq![
            ("method"@, JsonValue::Str("SUBSCRIBE"@)),
            ("params"@, JsonValue::Array(str_values(streams))),
            ("id"@, JsonValue::Number("1"@)),
        ],
    )
}

/// The depth subscription of `symbols` asks for one stream per symbol, in
/// order, and for nothing else: its `method` is `SUBSCRIBE` and its `params`
/// member is an array holding, at each index `i`, the string
/// `symbols[i] + "@depth@100ms"`.
pub proof fn law_depth_subscription_lists_every_symbol(symbols: Seq<Seq<char>>)
    ensures
        ({
            let message = stream_subscription(symbols.map_values(|s: Seq<char>| depth_stream(s)));
            &&& message.text_field("method"@) == Some("SUBSCRIBE"@)
            &&& message.field("params"@) is Some
            &&& message.field("params"@)->0 is Array
            &&& message.field("params"@)->0->Array_0.len() == symbols.len()
            &&& forall|i: int|
                0 <= i < symbols.len() ==> #[trigger] message.field("params"@)->0->Array_0[i]
                    == JsonValue::Str(symbols[i] + "@depth@100ms"@)
        }),
{
    reveal_strlit("method");
    reveal_strlit("params");
    reveal_with_fuel(crate::json::member, 3);
    let streams = symbols.map_values(|s: Seq<char>| depth_stream(s));
    let message = stream_subscription(streams);
    let ms = message->Object_0;
    assert(ms[0].0 == "method"@);
    assert("method"@[0] != "params"@[0]);
    assert(ms[0].0 != "params"@);
    assert(ms.drop_first()[0].0 == "params"@);
    assert(message.field("params"@) == Some(JsonValue::Array(str_values(streams))));
}

/// The address of Binance's combined-stream endpoint.
pub const DEPTH_FEED_URL: &'static str = "wss://stream.binance.com:9443/stream";

/// The depth stream names of `symbols`, in order.
pub fn depth_streams(symbols: &Vec<String>) -> (r: Vec<String>)
    ensures
        r.len() == symbols.len(),
        forall|i: int| 0 <= i < symbols.len() ==> #[trigger] r@[i]@ == depth_stream(symbols@[i]@),
{
    let mut streams: Vec<String> = Vec::new();
    let mut i: usize = 0;
    while i < symbols.len()
        invariant
            i <= symbols.len(),
            streams.len() == i,
            forall|j: int| 0 <= j < i ==> #[trigger] streams@[j]@ == depth_stream(symbols@[j]@),
        decreases symbols.len() - i,
    {
        streams.push(concat_str(symbols[i].as_str(), "@depth@100ms"));
        i = i + 1;
    }
    streams
}

/// The message that subscribes to the depth streams of `symbols`.
pub fn depth_subscribe_message(symbols: &Vec<String>) -> (r: Json)
    ensures
        r.model() == stream_subscription(texts(symbols@).map_values(|s: Seq<char>| depth_stream(s))),
{
    let streams = depth_streams(symbols);
    let params = Json::texts(&streams);
    let members = vec![
        ("method".to_owned(), Json::text("SUBSCRIBE")),
        ("params".to_owned(), params),
        ("id".to_owned(), Json::Number("1".to_owned())),
    ];
    proof {
        assert(texts(streams@) =~= texts(symbols@).map_values(|s: Seq<char>| depth_stream(s)));
        lemma_model_members(members@);
        assert(Json::model_members(members@) =~= stream_subscription(
            texts(symbols@).map_values(|s: Seq<char>| depth_stream(s)),
        )->Object_0);
    }
    Json::Object(members)
}

/// The text of the message that subscribes to the depth streams of
/// `symbols`, as it is sent.
pub fn depth_subscribe_text(symbols: &Vec<String>) -> (r: String)
    ensures
        json_text(stream_subscription(texts(symbols@).map_values(|s: Seq<char>| depth_stream(s)))) == Some(r@),
{
    let message = depth_subscribe_message(symbols);
    proof {
        reveal_strlit("1");
        assert(plain_number("1"@));
        lemma_str_values_plain(texts(symbols@).map_values(|s: Seq<char>| depth_stream(s)));
        let ms = message.model()->Object_0;
        assert forall|i: int| 0 <= i < ms.len() implies numbers_plain(#[trigger] ms[i].1) by {}
        lemma_members_plain(ms);
    }
    match to_json_text(&message) {
        Some(text) => text,
        None => {
            proof {
                assert(false);
            }
            String::new()
        },
    }
}

/// What the relay does with one read of the depth stream: the text of a text
/// frame is read as JSON and handled by [`depth_message_step`]; the end of
/// the stream ends the relay; anything else is passed over. A failed read is
/// not handled here (the relay stops on it before asking).
pub fn depth_step(event: Incoming) -> (r: DepthStep)
    requires
        !(event is Failed),
    ensures
        match event {
            Incoming::Text(text) => match parsed_json(text@) {
                Some(message) => match message.field("data"@) {
                    Some(d) => r matches DepthStep::Forward(data) && data.model() == d,
                    None => r is Skip,
                },
                None => r is Skip,
            },
            Incoming::Closed => r is Done,
            _ => r is Skip,
        },
{
    match event {
        Incoming::Text(text) => depth_message_step(parse_json(text.as_str())),
        Incoming::Closed => DepthStep::Done,
        _ => DepthStep::Skip,
    }
}

/// What the relay does with the outcome of reading a text frame as JSON: the
/// `data` part of a message is forwarded; a message without one, and text
/// that is not JSON, are passed over.
pub fn depth_message_step(parsed: Result<Json, serde_json::Error>) -> (r: DepthStep)
    ensures
        match parsed {
            Ok(message) => match message.model().field("data"@) {
                Some(d) => r matches DepthStep::Forward(data) && data.model() == d,
                None => r is Skip,
            },
            Err(_) => r is Skip,
        },
{
    match parsed {
        Ok(message) => match message.into_field("data") {
            Some(data) => DepthStep::Forward(data),
            None => DepthStep::Skip,
        },
        Err(_) => DepthStep::Skip,
    }
}

} // verus!
