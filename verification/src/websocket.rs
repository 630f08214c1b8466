//! Decisions of the bot's subscription connection: the messages of the
//! AppSync real-time protocol, the subscription handshake and the
//! reconnection backoff.

use vstd::prelude::*;
use vstd::string::StringExecFns;

use crate::json::{
    json_object, json_object_text, json_parse_error, json_quoted, json_string_at,
    json_text_at, json_u64_at, member_views, read_json_string, read_json_text, read_json_u64,
    write_json_string,
};
use crate::text::text_eq;
use vstd::string::StrSliceExecFns;

verus! {

/// An error of the subscription connection.
#[derive(Debug)]
pub enum WebSocketError {
    Connection(String),
    Protocol(String),
}

impl WebSocketError {
    pub open spec fn spec_message(self) -> Seq<char> {
        match self {
            WebSocketError::Connection(e) => "WebSocket connection error: "@ + e@,
            WebSocketError::Protocol(e) => "WebSocket protocol error: "@ + e@,
        }
    }

    /// The text of the error, as its `Display` writes it.
    pub fn message(&self) -> (r: String)
        ensures
            r@ == self.spec_message(),
    {
        match self {
            WebSocketError::Connection(e) => {
                let mut s = String::from_str("WebSocket connection error: ");
                s.append(e.as_str());
                s
            },
            WebSocketError::Protocol(e) => {
                let mut s = String::from_str("WebSocket protocol error: ");
                s.append(e.as_str());
                s
            },
        }
    }
}

/// The kinds of message the server sends on an open subscription.
#[derive(Debug, Clone, Copy, PartialEq, Eq, Structural)]
pub enum WsMessageKind {
    KeepAlive,
    Data,
    Error,
    Complete,
    Unknown,
}

/// The kind of a message with the given `type` field.
pub open spec fn spec_message_kind(msg_type: Seq<char>) -> WsMessageKind {
    if msg_type == "ka"@ {
        WsMessageKind::KeepAlive
    } else if msg_type == "data"@ {
        WsMessageKind::Data
    } else if msg_type == "error"@ {
        WsMessageKind::Error
    } else if msg_type == "complete"@ {
        WsMessageKind::Complete
    } else {
        WsMessageKind::Unknown
    }
}

/// The kind of a message with the given `type` field (a missing field reads
/// as the empty text).
pub fn message_kind(msg_type: &str) -> (r: WsMessageKind)
    ensures
        r == spec_message_kind(msg_type@),
{
    if text_eq(msg_type, "ka") {
        WsMessageKind::KeepAlive
    } else if text_eq(msg_type, "data") {
        WsMessageKind::Data
    } else if text_eq(msg_type, "error") {
        WsMessageKind::Error
    } else if text_eq(msg_type, "complete") {
        WsMessageKind::Complete
    } else {
        WsMessageKind::Unknown
    }
}

/// Whether a handshake message acknowledges the connection.
pub fn is_connection_ack(msg_type: &str) -> (r: bool)
    ensures
        r == (msg_type@ == "connection_ack"@),
{
    text_eq(msg_type, "connection_ack")
}

/// The keep-alive timeout the server announced, 300 000 ms where it
/// announced none.
pub fn connection_timeout_ms(announced: Option<u64>) -> (r: u64)
    ensures
        r == (match announced {
            Some(ms) => ms,
            None => 300_000,
        }),
{
    match announced {
        Some(ms) => ms,
        None => 300_000,
    }
}

/// Where the subscription handshake stands after a message.
#[derive(Debug, Clone, Copy, PartialEq, Eq, Structural)]
pub enum AckStep {
    /// The server acknowledged our subscription.
    Acknowledged,
    /// The server refused it.
    Failed,
    /// Another message; keep waiting.
    KeepWaiting,
}

/// Where the handshake of subscription `subscription_id` stands after a
/// message of type `msg_type` about subscription `msg_id`.
pub fn start_ack_step(msg_type: &str, msg_id: &str, subscription_id: &str) -> (r: AckStep)
    ensures
        r == (if msg_type@ == "start_ack"@ && msg_id@ == subscription_id@ {
            AckStep::Acknowledged
        } else if msg_type@ == "error"@ {
            AckStep::Failed
        } else {
            AckStep::KeepWaiting
        }),
{
    if text_eq(msg_type, "start_ack") && text_eq(msg_id, subscription_id) {
        AckStep::Acknowledged
    } else if text_eq(msg_type, "error") {
        AckStep::Failed
    } else {
        AckStep::KeepWaiting
    }
}

/// The longest wait between two reconnection attempts, in milliseconds.
pub const MAX_BACKOFF_MS: u64 = 30_000;

/// The wait before the next reconnection attempt: twice the last one, at
/// most 30 000 ms.
pub fn next_backoff_ms(backoff_ms: u64) -> (r: u64)
    requires
        backoff_ms * 2 <= u64::MAX,
    ensures
        r == (if backoff_ms * 2 < 30_000 { backoff_ms * 2 } else { 30_000 }),
{
    let doubled = backoff_ms * 2;
    if doubled < MAX_BACKOFF_MS {
        doubled
    } else {
        MAX_BACKOFF_MS
    }
}

/// Starting from one second, the reconnection waits double up to 30 s and
/// then stay there.
pub proof fn law_backoff_bounded(backoff_ms: u64)
    requires
        1000 <= backoff_ms <= 30_000,
    ensures
        ({
            let next = if backoff_ms * 2 < 30_000 { backoff_ms * 2 } else { 30_000 };
            &&& 1000 <= next <= 30_000
            &&& next >= backoff_ms
        }),
{
}


/// `s` with every occurrence of `from` replaced by `to`, occurrences taken
/// from left to right without overlap (what `str::replace` gives for a
/// non-empty `from`).
pub open spec fn replace_all(s: Seq<char>, from: Seq<char>, to: Seq<char>) -> Seq<char>
    decreases s.len(),
{
    if from.len() == 0 || s.len() < from.len() {
        s
    } else if s.take(from.len() as int) == from {
        to + replace_all(s.skip(from.len() as int), from, to)
    } else {
        seq![s[0]] + replace_all(s.drop_first(), from, to)
    }
}

/// `s` with every occurrence of `from` replaced by `to`.
pub fn replace_text(s: &str, from: &str, to: &str) -> (r: String)
    requires
        from@.len() > 0,
    ensures
        r@ == replace_all(s@, from@, to@),
{
    let n = s.unicode_len();
    let m = from.unicode_len();
    let mut out = String::new();
    let mut i: usize = 0;
    proof {
        assert(s@.skip(0) =~= s@);
        assert(out@ + replace_all(s@, from@, to@) =~= replace_all(s@, from@, to@));
    }
    while i < n
        invariant
            n == s@.len(),
            m == from@.len(),
            m > 0,
            i <= n,
            out@ + replace_all(s@.skip(i as int), from@, to@) == replace_all(s@, from@, to@),
        decreases n - i,
    {
        let ghost rest = s@.skip(i as int);
        if n - i >= m && text_eq(s.substring_char(i, i + m), from) {
            proof {
                assert(rest.take(m as int) =~= s@.subrange(i as int, i + m));
                assert(rest.skip(m as int) =~= s@.skip(i + m));
            }
            out.append(to);
            proof {
                assert(out@ + replace_all(s@.skip(i + m), from@, to@) =~= (out@.subrange(
                    0,
                    out@.len() - to@.len(),
                ) + to@) + replace_all(s@.skip(i + m), from@, to@));
            }
            i = i + m;
        } else {
            proof {
                if rest.len() >= m {
                    assert(rest.take(m as int) =~= s@.subrange(i as int, i + m));
                }
                assert(rest.drop_first() =~= s@.skip(i + 1));
                assert(rest[0] == s@[i as int]);
            }
            let one = s.substring_char(i, i + 1);
            proof {
                assert(one@ =~= seq![s@[i as int]]);
            }
            out.append(one);
            i = i + 1;
        }
    }
    proof {
        assert(s@.skip(n as int) =~= Seq::<char>::empty());
        assert(out@ + Seq::<char>::empty() =~= out@);
    }
    out
}

/// What `url::Url::parse` makes of a text, followed by `host_str`: the
/// URL's host, if it has one, or the text of the `url::ParseError` where
/// parsing fails.
pub uninterp spec fn url_parse_host(text: Seq<char>) -> Result<Option<Seq<char>>, Seq<char>>;

/// What `url::Url::parse` makes of a text: `None` where it fails, else the
/// URL's host, if it has one.
pub open spec fn url_host(text: Seq<char>) -> Option<Option<Seq<char>>> {
    match url_parse_host(text) {
        Ok(h) => Some(h),
        Err(_) => None,
    }
}

/// The text of the error `url::Url::parse` gives for a text it does not
/// parse (empty where it parses it).
pub open spec fn url_error_text(text: Seq<char>) -> Seq<char> {
    match url_parse_host(text) {
        Ok(_) => Seq::empty(),
        Err(e) => e,
    }
}

/// Parses a URL with `url::Url::parse` and takes its `host_str`. Claimed:
/// the result, the host or the text of the `url::ParseError`, is named
/// `url_parse_host(text)`.
#[verifier::external_body]
fn parse_url_host(text: &str) -> (r: Result<Option<String>, String>)
    ensures
        match r {
            Ok(Some(h)) => url_parse_host(text@) == Ok::<Option<Seq<char>>, Seq<char>>(Some(h@)),
            Ok(None) => url_parse_host(text@) == Ok::<Option<Seq<char>>, Seq<char>>(None),
            Err(e) => url_parse_host(text@) == Err::<Option<Seq<char>>, Seq<char>>(e@),
        },
{
    match url::Url::parse(text) {
        Ok(parsed) => Ok(parsed.host_str().map(|h| h.to_string())),
        Err(e) => Err(e.to_string()),
    }
}

/// The JSON text of the authorization object
/// `{"host": host, "x-api-key": api_key}`.
pub open spec fn auth_header_json(host: Seq<char>, api_key: Seq<char>) -> Seq<char> {
    json_object_text(seq![("host"@, json_quoted(host)), ("x-api-key"@, json_quoted(api_key))])
}

/// Writes the authorization object.
fn auth_header(host: &str, api_key: &str) -> (r: String)
    ensures
        r@ == auth_header_json(host@, api_key@),
{
    let mut members: Vec<(String, String)> = Vec::new();
    members.push((String::from_str("host"), write_json_string(host)));
    members.push((String::from_str("x-api-key"), write_json_string(api_key)));
    proof {
        assert(member_views(members@) =~= seq![
            ("host"@, json_quoted(host@)),
            ("x-api-key"@, json_quoted(api_key@)),
        ]);
    }
    json_object(&members)
}

/// The character of a 6-bit value in the standard base64 alphabet
/// (`A`-`Z`, `a`-`z`, `0`-`9`, `+`, `/`).
pub open spec fn base64_char(n: int) -> char {
    if n < 26 {
        (('A' as int) + n) as char
    } else if n < 52 {
        (('a' as int) + n - 26) as char
    } else if n < 62 {
        (('0' as int) + n - 52) as char
    } else if n == 62 {
        '+'
    } else {
        '/'
    }
}

/// The standard base64 encoding (RFC 4648, with padding) of bytes: each
/// group of three bytes, read as 24 bits, gives four characters of six bits
/// each; a last group of one or two bytes is completed with zero bits and
/// padded with `=` to four characters.
pub open spec fn base64_standard(bytes: Seq<u8>) -> Seq<char>
    decreases bytes.len(),
{
    if bytes.len() == 0 {
        Seq::empty()
    } else if bytes.len() == 1 {
        let b0 = bytes[0] as int;
        seq![base64_char(b0 / 4), base64_char((b0 % 4) * 16), '=', '=']
    } else if bytes.len() == 2 {
        let b0 = bytes[0] as int;
        let b1 = bytes[1] as int;
        seq![base64_char(b0 / 4), base64_char((b0 % 4) * 16 + b1 / 16), base64_char((b1 % 16) * 4), '=']
    } else {
        let b0 = bytes[0] as int;
        let b1 = bytes[1] as int;
        let b2 = bytes[2] as int;
        seq![
            base64_char(b0 / 4),
            base64_char((b0 % 4) * 16 + b1 / 16),
            base64_char((b1 % 16) * 4 + b2 / 64),
            base64_char(b2 % 64),
        ] + base64_standard(bytes.skip(3))
    }
}

/// Encodes bytes with the `base64` crate's `STANDARD` engine (standard
/// alphabet, with padding). Claimed: the text is `base64_standard` of the
/// bytes.
#[verifier::external_body]
fn base64_encode(bytes: &[u8]) -> (r: String)
    ensures
        r@ == base64_standard(bytes@),
{
    base64::Engine::encode(&base64::engine::general_purpose::STANDARD, bytes)
}

/// Where the real-time endpoint of the API is: the authority (host) and the
/// path with its query.
#[derive(Debug, Clone)]
pub struct WsEndpoint {
    /// The host of the GraphQL endpoint.
    pub host: String,
    pub authority: String,
    pub path_and_query: String,
}

/// The real-time endpoint of the API whose GraphQL endpoint is `graphql_url`
/// and whose key is `api_key`: the host with `appsync-api` replaced by
/// `appsync-realtime-api`, and the path `/graphql` with the base64 of the
/// JSON authorization header and an empty payload (`e30=`).
pub fn derive_ws_endpoint(graphql_url: &str, api_key: &str) -> (r: Result<WsEndpoint, WebSocketError>)
    ensures
        match url_host(graphql_url@) {
            None => r matches Err(WebSocketError::Connection(e)) && e@ == "invalid URL: "@
                + url_error_text(graphql_url@),
            Some(None) => r matches Err(WebSocketError::Connection(e)) && e@ == "no host in URL"@,
            Some(Some(host)) => r matches Ok(endpoint) && endpoint.host@ == host
                && endpoint.authority@ == replace_all(
                host,
                "appsync-api"@,
                "appsync-realtime-api"@,
            ) && endpoint.path_and_query@ == "/graphql?header="@ + base64_standard(
                crate::text::utf8_bytes(auth_header_json(host, api_key@)),
            ) + "&payload=e30="@,
        },
{
    let host = match parse_url_host(graphql_url) {
        Ok(Some(h)) => h,
        Ok(None) => {
            return Err(WebSocketError::Connection(String::from_str("no host in URL")));
        },
        Err(e) => {
            let mut msg = String::from_str("invalid URL: ");
            msg.append(e.as_str());
            return Err(WebSocketError::Connection(msg));
        },
    };
    proof {
        reveal_strlit("appsync-api");
    }
    let ws_host = replace_text(host.as_str(), "appsync-api", "appsync-realtime-api");
    let header_json = auth_header(host.as_str(), api_key);
    let header_b64 = base64_encode(header_json.as_str().as_bytes());
    let mut path_and_query = String::from_str("/graphql?header=");
    path_and_query.append(header_b64.as_str());
    path_and_query.append("&payload=e30=");
    Ok(WsEndpoint { host, authority: ws_host, path_and_query })
}

/// The message that opens the protocol on a new connection:
/// `{"type": "connection_init"}`.
pub open spec fn connection_init_json() -> Seq<char> {
    json_object_text(seq![("type"@, json_quoted("connection_init"@))])
}

/// Writes the message that opens the protocol.
pub fn connection_init_message() -> (r: String)
    ensures
        r@ == connection_init_json(),
{
    let mut members: Vec<(String, String)> = Vec::new();
    members.push((String::from_str("type"), write_json_string("connection_init")));
    proof {
        assert(member_views(members@) =~= seq![("type"@, json_quoted("connection_init"@))]);
    }
    json_object(&members)
}

/// The message that ends a subscription: `{"id": id, "type": "stop"}` (keys
/// in the sorted order `serde_json` writes them in).
pub open spec fn stop_json(subscription_id: Seq<char>) -> Seq<char> {
    json_object_text(seq![("id"@, json_quoted(subscription_id)), ("type"@, json_quoted("stop"@))])
}

/// Writes the message that ends subscription `subscription_id`.
pub fn stop_message(subscription_id: &str) -> (r: String)
    ensures
        r@ == stop_json(subscription_id@),
{
    let mut members: Vec<(String, String)> = Vec::new();
    members.push((String::from_str("id"), write_json_string(subscription_id)));
    members.push((String::from_str("type"), write_json_string("stop")));
    proof {
        assert(member_views(members@) =~= seq![
            ("id"@, json_quoted(subscription_id@)),
            ("type"@, json_quoted("stop"@)),
        ]);
    }
    json_object(&members)
}

/// The GraphQL request of a subscription: `{"query": query, "variables": {}}`.
pub open spec fn subscription_request_json(query: Seq<char>) -> Seq<char> {
    json_object_text(seq![("query"@, json_quoted(query)), ("variables"@, json_object_text(Seq::empty()))])
}

/// The message that starts a subscription: its id, a payload holding the
/// GraphQL request (as a JSON string) and the authorization object, and the
/// type `start`. Keys stand in the sorted order `serde_json` writes them in.
pub open spec fn subscribe_message_json(
    subscription_id: Seq<char>,
    graphql_host: Seq<char>,
    api_key: Seq<char>,
    query: Seq<char>,
) -> Seq<char> {
    json_object_text(
        seq![
            ("id"@, json_quoted(subscription_id)),
            ("payload"@, json_object_text(
                seq![
                    ("data"@, json_quoted(subscription_request_json(query))),
                    ("extensions"@, json_object_text(
                        seq![("authorization"@, auth_header_json(graphql_host, api_key))],
                    )),
                ],
            )),
            ("type"@, json_quoted("start"@)),
        ],
    )
}

/// Writes the message that starts subscription `subscription_id` for the
/// GraphQL `query`, authorized for `graphql_host` with `api_key`.
pub fn subscribe_message(subscription_id: &str, graphql_host: &str, api_key: &str, query: &str) -> (r:
    String)
    ensures
        r@ == subscribe_message_json(subscription_id@, graphql_host@, api_key@, query@),
{
    let mut request_members: Vec<(String, String)> = Vec::new();
    request_members.push((String::from_str("query"), write_json_string(query)));
    let empty: Vec<(String, String)> = Vec::new();
    request_members.push((String::from_str("variables"), json_object(&empty)));
    proof {
        assert(member_views(empty@) =~= Seq::<(Seq<char>, Seq<char>)>::empty());
        assert(member_views(request_members@) =~= seq![
            ("query"@, json_quoted(query@)),
            ("variables"@, json_object_text(Seq::empty())),
        ]);
    }
    let request = json_object(&request_members);

    let mut extension_members: Vec<(String, String)> = Vec::new();
    extension_members.push((String::from_str("authorization"), auth_header(graphql_host, api_key)));
    proof {
        assert(member_views(extension_members@) =~= seq![
            ("authorization"@, auth_header_json(graphql_host@, api_key@)),
        ]);
    }
    let extensions = json_object(&extension_members);

    let mut payload_members: Vec<(String, String)> = Vec::new();
    payload_members.push((String::from_str("data"), write_json_string(request.as_str())));
    payload_members.push((String::from_str("extensions"), extensions));
    let ghost ext_json = json_object_text(
        seq![("authorization"@, auth_header_json(graphql_host@, api_key@))],
    );
    proof {
        assert(member_views(payload_members@) =~= seq![
            ("data"@, json_quoted(subscription_request_json(query@))),
            ("extensions"@, ext_json),
        ]);
    }
    let payload = json_object(&payload_members);

    let mut members: Vec<(String, String)> = Vec::new();
    members.push((String::from_str("id"), write_json_string(subscription_id)));
    members.push((String::from_str("payload"), payload));
    members.push((String::from_str("type"), write_json_string("start")));
    proof {
        assert(member_views(members@) =~= seq![
            ("id"@, json_quoted(subscription_id@)),
            ("payload"@, json_object_text(
                seq![
                    ("data"@, json_quoted(subscription_request_json(query@))),
                    ("extensions"@, ext_json),
                ],
            )),
            ("type"@, json_quoted("start"@)),
        ]);
    }
    json_object(&members)
}

/// The string at `pointer` of a JSON text, the empty text where there is
/// none.
pub open spec fn string_or_empty(text: Seq<char>, pointer: Seq<char>) -> Seq<char> {
    match json_string_at(text, pointer) {
        Some(s) => s,
        None => Seq::empty(),
    }
}

/// Reads the string at `pointer`, the empty text where there is none.
fn read_string_or_empty(text: &str, pointer: &str) -> (r: Result<String, String>)
    ensures
        match json_parse_error(text@) {
            Some(e) => r matches Err(m) && m@ == e,
            None => r matches Ok(s) && s@ == string_or_empty(text@, pointer@),
        },
{
    match read_json_string(text, pointer) {
        Ok(Some(s)) => Ok(s),
        Ok(None) => Ok(String::new()),
        Err(e) => Err(e),
    }
}

/// The `type` of a protocol frame (the empty text where it has none), or
/// the error of reading a text that is not JSON.
pub fn frame_type(text: &str) -> (r: Result<String, String>)
    ensures
        match json_parse_error(text@) {
            Some(e) => r matches Err(m) && m@ == e,
            None => r matches Ok(t) && t@ == string_or_empty(text@, "/type"@),
        },
{
    read_string_or_empty(text, "/type")
}

/// The kind of a protocol frame, read from its `type`, or the error of
/// reading a text that is not JSON.
pub fn kind_of_frame(text: &str) -> (r: Result<WsMessageKind, String>)
    ensures
        match json_parse_error(text@) {
            Some(e) => r matches Err(m) && m@ == e,
            None => r == Ok::<WsMessageKind, String>(
                spec_message_kind(string_or_empty(text@, "/type"@)),
            ),
        },
{
    match frame_type(text) {
        Ok(t) => Ok(message_kind(t.as_str())),
        Err(e) => Err(e),
    }
}

/// What a handshake frame says of the connection: `Some` with the
/// keep-alive timeout (`payload.connectionTimeoutMs`, 300 000 ms where
/// missing) when it acknowledges the connection, `None` otherwise; or the
/// error of reading a text that is not JSON.
pub fn connection_ack_of_frame(text: &str) -> (r: Result<Option<u64>, String>)
    ensures
        match json_parse_error(text@) {
            Some(e) => r matches Err(m) && m@ == e,
            None => r == Ok::<Option<u64>, String>(
                if json_string_at(text@, "/type"@) == Some("connection_ack"@) {
                    Some(
                        match json_u64_at(text@, "/payload/connectionTimeoutMs"@) {
                            Some(ms) => ms,
                            None => 300_000u64,
                        },
                    )
                } else {
                    None
                },
            ),
        },
{
    let t = match read_json_string(text, "/type") {
        Ok(t) => t,
        Err(e) => {
            return Err(e);
        },
    };
    let is_ack = match &t {
        Some(s) => is_connection_ack(s.as_str()),
        None => false,
    };
    if !is_ack {
        return Ok(None);
    }
    match read_json_u64(text, "/payload/connectionTimeoutMs") {
        Ok(announced) => Ok(Some(connection_timeout_ms(announced))),
        Err(e) => Err(e),
    }
}

/// Where the handshake of subscription `subscription_id` stands after a
/// frame, read from its `type` and `id` (empty where missing); or the error
/// of reading a text that is not JSON.
pub fn start_ack_of_frame(text: &str, subscription_id: &str) -> (r: Result<AckStep, String>)
    ensures
        match json_parse_error(text@) {
            Some(e) => r matches Err(m) && m@ == e,
            None => r == Ok::<AckStep, String>(
                if string_or_empty(text@, "/type"@) == "start_ack"@ && string_or_empty(text@, "/id"@)
                    == subscription_id@ {
                    AckStep::Acknowledged
                } else if string_or_empty(text@, "/type"@) == "error"@ {
                    AckStep::Failed
                } else {
                    AckStep::KeepWaiting
                },
            ),
        },
{
    let t = match read_string_or_empty(text, "/type") {
        Ok(t) => t,
        Err(e) => {
            return Err(e);
        },
    };
    let id = match read_string_or_empty(text, "/id") {
        Ok(id) => id,
        Err(e) => {
            return Err(e);
        },
    };
    Ok(start_ack_step(t.as_str(), id.as_str(), subscription_id))
}

/// The JSON text of the `payload` of a frame, the empty text where it has
/// none or is not JSON.
pub fn frame_payload_text(text: &str) -> (r: String)
    ensures
        r@ == (match json_parse_error(text@) {
            Some(_) => Seq::empty(),
            None => match json_text_at(text@, "/payload"@) {
                Some(p) => p,
                None => Seq::empty(),
            },
        }),
{
    match read_json_text(text, "/payload") {
        Ok(Some(p)) => p,
        _ => String::new(),
    }
}

/// The subscription id and the JSON text of `payload.data` of a data frame,
/// each where present; or the error of reading a text that is not JSON.
pub fn data_of_frame(text: &str) -> (r: Result<(Option<String>, Option<String>), String>)
    ensures
        match json_parse_error(text@) {
            Some(e) => r matches Err(m) && m@ == e,
            None => r matches Ok((id, data)) && (match id {
                Some(i) => json_string_at(text@, "/id"@) == Some(i@),
                None => json_string_at(text@, "/id"@) is None,
            }) && (match data {
                Some(d) => json_text_at(text@, "/payload/data"@) == Some(d@),
                None => json_text_at(text@, "/payload/data"@) is None,
            }),
        },
{
    let id = match read_json_string(text, "/id") {
        Ok(id) => id,
        Err(e) => {
            return Err(e);
        },
    };
    let data = match read_json_text(text, "/payload/data") {
        Ok(d) => d,
        Err(e) => {
            return Err(e);
        },
    };
    Ok((id, data))
}

} // verus!

