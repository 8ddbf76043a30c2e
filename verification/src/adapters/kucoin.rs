//! KuCoin: the REST ticker and the public ticker feed over WebSocket.

use vstd::prelude::*;
use crate::adapters::build_http_client;
use crate::errors::ConnectorError;
use crate::json::{
    Json, JsonValue, json_text, lemma_model_members, lemma_members_plain, numbers_plain, parse_json, parsed_json,
    plain_number, to_json_text,
};
use crate::stream::Incoming;
use crate::text::{concat_str, join_with, joined, strip_prefix, texts};

verus! {

/// The answer of KuCoin's `bullet-public` endpoint.
#[derive(Debug)]
pub struct KucoinWebSocketResponse {
    pub code: String,
    pub data: WebSocketData,
}

/// The `data` part of [`KucoinWebSocketResponse`].
#[derive(Debug)]
pub struct WebSocketData {
    pub token: String,
    pub instance_servers: Vec<InstanceServer>,
}

/// One WebSocket server KuCoin offers.
#[derive(Debug)]
pub struct InstanceServer {
    pub endpoint: String,
    pub protocol: String,
    pub encrypt: bool,
    pub ping_interval: u64,
    pub ping_timeout: u64,
}

/// What a WebSocket session needs: the servers to connect to and the token.
#[derive(Debug)]
pub struct KucoinWebSocketConfig {
    pub servers: Vec<InstanceServer>,
    pub token: String,
}

/// The five texts of one ticker message of KuCoin's feed.
#[derive(Debug)]
pub struct TickerUpdate {
    pub symbol: String,
    pub best_bid: String,
    pub best_bid_size: String,
    pub best_ask: String,
    pub best_ask_size: String,
}

/// What a book-ticker session does after one read of its stream.
#[derive(Debug)]
pub enum TickerStep {
    /// Nothing; read on.
    Continue,
    /// Hand this ticker to the subscriber; read on.
    Update(TickerUpdate),
    /// Answer with a pong frame carrying this payload; read on.
    Pong(Vec<u8>),
    /// The session ends with this error.
    Finish(ConnectorError),
}

/// What a monitoring session does after one read of its stream.
#[derive(Debug)]
pub enum MonitorStep {
    /// Nothing; read on.
    Continue,
    /// Show this `data` part of a message; read on.
    Show(Json),
    /// Answer with a pong frame carrying this payload; read on.
    Pong(Vec<u8>),
    /// The session ends with `error`, after reporting `fault` if there is one.
    Stop { fault: Option<tokio_tungstenite::tungstenite::Error>, error: ConnectorError },
}

/// The message that subscribes to the ticker feed of `symbols`.
pub open spec fn ticker_subscription(symbols: Seq<Seq<char>>) -> JsonValue {
    JsonValue::Object(
        seq![
            ("id"@, JsonValue::Number("1"@)),
            ("type"@, JsonValue::Str("subscribe"@)),
            ("topic"@, JsonValue::Str("/market/ticker:"@ + joined(symbols, ","@))),
            ("privateChannel"@, JsonValue::Bool(false)),
            ("response"@, JsonValue::Bool(true)),
        ],
    )
}

/// The ticker subscription of `symbols` is a `subscribe` message whose
/// `topic` is `/market/ticker:` followed by the symbols, each once, in order,
/// with a comma between every two of them (see [`crate::text::law_joined_concat`]).
pub proof fn law_ticker_subscription_topic(symbols: Seq<Seq<char>>)
    ensures
        ticker_subscription(symbols).text_field("type"@) == Some("subscribe"@),
        ticker_subscription(symbols).text_field("topic"@) == Some("/market/ticker:"@ + joined(symbols, ","@)),
{
    reveal_strlit("id");
    reveal_strlit("type");
    reveal_strlit("topic");
    reveal_with_fuel(crate::json::member, 4);
    let ms = ticker_subscription(symbols)->Object_0;
    assert(ms[0].0 == "id"@);
    assert("id"@.len() != "type"@.len() && "id"@.len() != "topic"@.len());
    assert(ms[0].0 != "type"@);
    assert(ms[0].0 != "topic"@);
    assert(ms.drop_first()[0].0 == "type"@);
    assert("type"@.len() != "topic"@.len());
    assert(ms.drop_first()[0].0 != "topic"@);
    assert(ms.drop_first().drop_first()[0].0 == "topic"@);
}

/// The symbol of a ticker message `message` whose `data` part is `data`: the
/// string member `symbol` of `data` when there is one, else what follows
/// `/market/ticker:` in the string member `topic` of the message (KuCoin's
/// ticker data carries only the four quote fields).
pub open spec fn ticker_symbol(message: JsonValue, data: JsonValue) -> Option<Seq<char>> {
    match data.text_field("symbol"@) {
        Some(symbol) => Some(symbol),
        None => match message.text_field("topic"@) {
            Some(topic) => if "/market/ticker:"@.is_prefix_of(topic) {
                Some(topic.skip("/market/ticker:"@.len() as int))
            } else {
                None
            },
            None => None,
        },
    }
}

/// The texts of a ticker message: its symbol ([`ticker_symbol`]) and the
/// string members `bestBid`, `bestBidSize`, `bestAsk` and `bestAskSize` of
/// its `data` part, when all five are there.
pub open spec fn ticker_texts(message: JsonValue) -> Option<(Seq<char>, Seq<char>, Seq<char>, Seq<char>, Seq<char>)> {
    match message.field("data"@) {
        Some(data) => {
            let symbol = ticker_symbol(message, data);
            let bid = data.text_field("bestBid"@);
            let bid_size = data.text_field("bestBidSize"@);
            let ask = data.text_field("bestAsk"@);
            let ask_size = data.text_field("bestAskSize"@);
            if symbol is Some && bid is Some && bid_size is Some && ask is Some && ask_size is Some {
                Some((symbol->0, bid->0, bid_size->0, ask->0, ask_size->0))
            } else {
                None
            }
        },
        None => None,
    }
}

/// What [`KucoinConnector::ticker_step`] does with `event`: `r` is the step it
/// takes.
pub open spec fn ticker_step_spec(event: Incoming, r: TickerStep) -> bool {
    match event {
        Incoming::Text(text) => match parsed_json(text@) {
            Some(message) => match ticker_texts(message) {
                Some(t) => r matches TickerStep::Update(u) && u.texts() == t,
                None => r is Continue,
            },
            None => r matches TickerStep::Finish(e) && e is Serde,
        },
        Incoming::Ping(payload) => r == TickerStep::Pong(payload),
        Incoming::Other => r is Continue,
        Incoming::Failed(e) => r == TickerStep::Finish(ConnectorError::Ws(e)),
        Incoming::Closed => r matches TickerStep::Finish(e) && e.is_other_with("WebSocket stream ended"@),
    }
}

/// Whether the read `event` ends a book-ticker session: a failed read, the
/// end of the stream, or text that is not JSON.
pub open spec fn ends_ticker_session(event: Incoming) -> bool {
    match event {
        Incoming::Text(text) => parsed_json(text@) is None,
        Incoming::Failed(_) => true,
        Incoming::Closed => true,
        _ => false,
    }
}

/// A book-ticker session never ends in success. The session takes one step
/// per read of its stream (`steps[i]` for `events[i]`) and returns when a step
/// finishes it. A step finishes it exactly on a read that ends it (a failed
/// read, the end of the stream, or text that is not JSON), and always with an
/// error: `Ws`, `Serde`, or, at the end of the stream,
/// `Other("WebSocket stream ended")`. Every other read lets it read on, so the
/// session returns only on an error or at the end of its stream, and never
/// with `Ok`.
pub proof fn law_ticker_session_never_succeeds(events: Seq<Incoming>, steps: Seq<TickerStep>)
    requires
        steps.len() == events.len(),
        forall|i: int| 0 <= i < events.len() ==> ticker_step_spec(#[trigger] events[i], steps[i]),
    ensures
        forall|i: int| 0 <= i < events.len() ==> (#[trigger] steps[i] is Finish <==> ends_ticker_session(events[i])),
        forall|i: int|
            0 <= i < events.len() && #[trigger] events[i] is Closed ==> (steps[i] matches TickerStep::Finish(e)
                && e.is_other_with("WebSocket stream ended"@)),
        forall|i: int|
            0 <= i < events.len() ==> (#[trigger] steps[i] matches TickerStep::Finish(e) ==> (e is Ws || e is Serde
                || e.is_other_with("WebSocket stream ended"@))),
{
    assert forall|i: int| 0 <= i < events.len() implies (#[trigger] steps[i] is Finish <==> ends_ticker_session(events[i])) by {
        assert(ticker_step_spec(events[i], steps[i]));
    }
    assert forall|i: int| 0 <= i < events.len() && #[trigger] events[i] is Closed implies (steps[i] matches TickerStep::Finish(e)
        && e.is_other_with("WebSocket stream ended"@)) by {
        assert(ticker_step_spec(events[i], steps[i]));
    }
    assert forall|i: int| 0 <= i < events.len() implies (#[trigger] steps[i] matches TickerStep::Finish(e) ==> (e is Ws || e is Serde
        || e.is_other_with("WebSocket stream ended"@))) by {
        assert(ticker_step_spec(events[i], steps[i]));
    }
}

/// The quotes of a ticker are the four quote members of the message's `data`
/// part, whatever else `data` holds (a trade `price` or `size` among them):
/// the bid is `bestBid`, its size `bestBidSize`, the ask `bestAsk`, its size
/// `bestAskSize`. The symbol is `data`'s `symbol`, or, where `data` has none,
/// the symbol the message's `topic` names after `/market/ticker:`. A message
/// whose `data` holds all four quotes and a symbol is always a ticker.
pub proof fn law_ticker_quotes_are_data_members(message: JsonValue)
    ensures
        match ticker_texts(message) {
            Some(t) => {
                &&& message.field("data"@) is Some
                &&& message.field("data"@)->0.text_field("bestBid"@) == Some(t.1)
                &&& message.field("data"@)->0.text_field("bestBidSize"@) == Some(t.2)
                &&& message.field("data"@)->0.text_field("bestAsk"@) == Some(t.3)
                &&& message.field("data"@)->0.text_field("bestAskSize"@) == Some(t.4)
                &&& (message.field("data"@)->0.text_field("symbol"@) is Some ==> message.field(
                    "data"@,
                )->0.text_field("symbol"@) == Some(t.0))
                &&& (message.field("data"@)->0.text_field("symbol"@) is None ==> message.text_field(
                    "topic"@,
                ) == Some("/market/ticker:"@ + t.0))
            },
            None => true,
        },
        message.field("data"@) is Some && message.field("data"@)->0.text_field("symbol"@) is Some
            && message.field("data"@)->0.text_field("bestBid"@) is Some
            && message.field("data"@)->0.text_field("bestBidSize"@) is Some
            && message.field("data"@)->0.text_field("bestAsk"@) is Some
            && message.field("data"@)->0.text_field("bestAskSize"@) is Some ==> ticker_texts(message) is Some,
{
    if let Some(data) = message.field("data"@) {
        if data.text_field("symbol"@) is None {
            if let Some(topic) = message.text_field("topic"@) {
                let prefix = "/market/ticker:"@;
                if prefix.is_prefix_of(topic) {
                    assert(topic =~= prefix + topic.skip(prefix.len() as int));
                }
            }
        }
    }
}

impl TickerUpdate {
    /// The five texts of this update.
    pub open spec fn texts(self) -> (Seq<char>, Seq<char>, Seq<char>, Seq<char>, Seq<char>) {
        (self.symbol@, self.best_bid@, self.best_bid_size@, self.best_ask@, self.best_ask_size@)
    }

    /// The ticker carried by `message`, if it carries one.
    pub fn from_message(message: &Json) -> (r: Option<TickerUpdate>)
        ensures
            match r {
                Some(u) => ticker_texts(message.model()) == Some(u.texts()),
                None => ticker_texts(message.model()) is None,
            },
    {
        let data = match message.get("data") {
            Some(d) => d,
            None => return None,
        };
        let symbol = match data.text_field("symbol") {
            Some(symbol) => Some(symbol),
            None => match message.text_field("topic") {
                Some(topic) => strip_prefix(topic.as_str(), "/market/ticker:"),
                None => None,
            },
        };
        let bid = data.text_field("bestBid");
        let bid_size = data.text_field("bestBidSize");
        let ask = data.text_field("bestAsk");
        let ask_size = data.text_field("bestAskSize");
        match (symbol, bid, bid_size, ask, ask_size) {
            (Some(symbol), Some(best_bid), Some(best_bid_size), Some(best_ask), Some(best_ask_size)) => {
                Some(TickerUpdate { symbol, best_bid, best_bid_size, best_ask, best_ask_size })
            },
            _ => None,
        }
    }
}

/// The KuCoin connector.
pub struct KucoinConnector {
    base_url: String,
    client: reqwest::Client,
}

impl KucoinConnector {
    /// The base address of the REST API.
    pub closed spec fn base(self) -> Seq<char> {
        self.base_url@
    }

    /// A KuCoin connector for `https://api.kucoin.com` with a new HTTP
    /// client, or `Http` with the error `reqwest` reports when it cannot make
    /// one.
    pub fn new() -> (r: Result<Self, ConnectorError>)
        ensures
            match r {
                Ok(c) => c.base() == "https://api.kucoin.com"@,
                Err(e) => e is Http,
            },
    {
        match build_http_client() {
            Ok(client) => Ok(Self::with_client(client)),
            Err(e) => Err(ConnectorError::Http(e)),
        }
    }

    /// A KuCoin connector for `https://api.kucoin.com` that makes its REST
    /// calls with `client`.
    pub fn with_client(client: reqwest::Client) -> (r: Self)
        ensures
            r.base() == "https://api.kucoin.com"@,
            r.http_client() == client,
    {
        KucoinConnector { base_url: "https://api.kucoin.com".to_owned(), client }
    }

    /// The HTTP client this connector was made with.
    pub closed spec fn http_client(self) -> reqwest::Client {
        self.client
    }

    /// The HTTP client of this connector.
    pub fn client(&self) -> (r: &reqwest::Client)
        ensures
            *r == self.http_client(),
    {
        &self.client
    }

    /// The address that hands out WebSocket servers and a token.
    pub fn bullet_url(&self) -> (r: String)
        ensures
            r@ == self.base() + "/api/v1/bullet-public"@,
    {
        concat_str(self.base_url.as_str(), "/api/v1/bullet-public")
    }

    /// The session configuration in an answer of the `bullet-public` endpoint.
    pub fn websocket_config(response: KucoinWebSocketResponse) -> (r: KucoinWebSocketConfig)
        ensures
            r.servers == response.data.instance_servers,
            r.token == response.data.token,
    {
        KucoinWebSocketConfig { servers: response.data.instance_servers, token: response.data.token }
    }

    /// The address to fetch the best bid and ask of `symbol` from. KuCoin
    /// writes symbols with a dash (`BTC-USDT`); `symbol` is used as given.
    pub fn ticker_url(&self, symbol: &str) -> (r: String)
        ensures
            r@ == self.base() + "/api/v1/market/orderbook/level1?symbol="@ + symbol@,
    {
        let path = concat_str("/api/v1/market/orderbook/level1?symbol=", symbol);
        concat_str(self.base_url.as_str(), path.as_str())
    }

    /// The address of a WebSocket session: the first server's endpoint with
    /// the token as query, or `Other("No WebSocket servers available")` when
    /// there is no server.
    pub fn session_url(servers: &Vec<InstanceServer>, token: &str) -> (r: Result<String, ConnectorError>)
        ensures
            servers.len() == 0 ==> (r matches Err(e) && e.is_other_with("No WebSocket servers available"@)),
            servers.len() > 0 ==> (r matches Ok(url) && url@ == servers@[0].endpoint@ + "?token="@ + token@),
    {
        if servers.len() == 0 {
            return Err(ConnectorError::Other("No WebSocket servers available".to_owned()));
        }
        let query = concat_str("?token=", token);
        Ok(concat_str(servers[0].endpoint.as_str(), query.as_str()))
    }

    /// The message that subscribes to the ticker feed of `symbols`.
    pub fn subscribe_message(symbols: &Vec<String>) -> (r: Json)
        ensures
            r.model() == ticker_subscription(texts(symbols@)),
    {
        let topic = concat_str("/market/ticker:", join_with(symbols, ",").as_str());
        let members = vec![
            ("id".to_owned(), Json::Number("1".to_owned())),
            ("type".to_owned(), Json::text("subscribe")),
            ("topic".to_owned(), Json::text(topic.as_str())),
            ("privateChannel".to_owned(), Json::Bool(false)),
            ("response".to_owned(), Json::Bool(true)),
        ];
        proof {
            lemma_model_members(members@);
            assert(Json::model_members(members@) =~= ticker_subscription(texts(symbols@))->Object_0);
        }
        Json::Object(members)
    }

    /// The text of the message that subscribes to the ticker feed of
    /// `symbols`, as it is sent.
    pub fn subscribe_text(symbols: &Vec<String>) -> (r: String)
        ensures
            json_text(ticker_subscription(texts(symbols@))) == Some(r@),
    {
        let message = Self::subscribe_message(symbols);
        proof {
            reveal_strlit("1");
            assert(plain_number("1"@));
            let ms = message.model()->Object_0;
            assert forall|i: int| 0 <= i < ms.len() implies numbers_plain(#[trigger] ms[i].1) by {}
            lemma_members_plain(ms);
        }
        match to_json_text(&message) {
            Some(text) => text,
            None => {
                proof {
                    assert(false);
                }
                String::new()
            },
        }
    }

    /// What a book-ticker session does with one read of its stream: the text
    /// of a text frame is read as JSON and handled by
    /// [`KucoinConnector::ticker_message_step`]; a ping is answered, a failed
    /// read ends the session with `Ws`, the end of the stream with
    /// `Other("WebSocket stream ended")`; anything else is passed over.
    pub fn ticker_step(event: Incoming) -> (r: TickerStep)
        ensures
            ticker_step_spec(event, r),
    {
        match event {
            Incoming::Text(text) => Self::ticker_message_step(parse_json(text.as_str())),
            Incoming::Ping(payload) => TickerStep::Pong(payload),
            Incoming::Other => TickerStep::Continue,
            Incoming::Failed(e) => TickerStep::Finish(ConnectorError::Ws(e)),
            Incoming::Closed => TickerStep::Finish(ConnectorError::Other("WebSocket stream ended".to_owned())),
        }
    }

    /// What a book-ticker session does with the outcome of reading a text
    /// frame as JSON: a ticker message goes to the subscriber, any other
    /// message is passed over, and text that is not JSON ends the session
    /// with `Serde`.
    pub fn ticker_message_step(parsed: Result<Json, serde_json::Error>) -> (r: TickerStep)
        ensures
            match parsed {
                Ok(message) => match ticker_texts(message.model()) {
                    Some(t) => r matches TickerStep::Update(u) && u.texts() == t,
                    None => r is Continue,
                },
                Err(e) => r == TickerStep::Finish(ConnectorError::Serde(e)),
            },
    {
        match parsed {
            Ok(message) => match TickerUpdate::from_message(&message) {
                Some(update) => TickerStep::Update(update),
                None => TickerStep::Continue,
            },
            Err(e) => TickerStep::Finish(ConnectorError::Serde(e)),
        }
    }

    /// What a monitoring session does with one read of its stream: the text
    /// of a text frame is read as JSON and handled by
    /// [`KucoinConnector::monitor_message_step`]; a ping is answered; a failed
    /// read is reported and ends the session, as the end of the stream does,
    /// with `Other("WebSocket stream ended")`; anything else is passed over.
    pub fn monitor_step(event: Incoming) -> (r: MonitorStep)
        ensures
            match event {
                Incoming::Text(text) => match parsed_json(text@) {
                    Some(message) => match message.field("data"@) {
                        Some(d) => r matches MonitorStep::Show(shown) && shown.model() == d,
                        None => r is Continue,
                    },
                    None => r matches MonitorStep::Stop { fault: None, error } && error is Serde,
                },
                Incoming::Ping(payload) => r == MonitorStep::Pong(payload),
                Incoming::Other => r is Continue,
                Incoming::Failed(e) => r matches MonitorStep::Stop { fault: Some(f), error }
                    && f == e && error.is_other_with("WebSocket stream ended"@),
                Incoming::Closed => r matches MonitorStep::Stop { fault: None, error }
                    && error.is_other_with("WebSocket stream ended"@),
            },
    {
        match event {
            Incoming::Text(text) => Self::monitor_message_step(parse_json(text.as_str())),
            Incoming::Ping(payload) => MonitorStep::Pong(payload),
            Incoming::Other => MonitorStep::Continue,
            Incoming::Failed(e) => MonitorStep::Stop {
                fault: Some(e),
                error: ConnectorError::Other("WebSocket stream ended".to_owned()),
            },
            Incoming::Closed => MonitorStep::Stop {
                fault: None,
                error: ConnectorError::Other("WebSocket stream ended".to_owned()),
            },
        }
    }

    /// What a monitoring session does with the outcome of reading a text
    /// frame as JSON: the `data` part of a message is shown, a message without
    /// one is passed over, and text that is not JSON ends the session with
    /// `Serde`.
    pub fn monitor_message_step(parsed: Result<Json, serde_json::Error>) -> (r: MonitorStep)
        ensures
            match parsed {
                Ok(message) => match message.model().field("data"@) {
                    Some(d) => r matches MonitorStep::Show(shown) && shown.model() == d,
                    None => r is Continue,
                },
                Err(e) => r == MonitorStep::Stop { fault: None, error: ConnectorError::Serde(e) },
            },
    {
        match parsed {
            Ok(message) => match message.into_field("data") {
                Some(data) => MonitorStep::Show(data),
                None => MonitorStep::Continue,
            },
            Err(e) => MonitorStep::Stop { fault: None, error: ConnectorError::Serde(e) },
        }
    }
}

} // verus!
