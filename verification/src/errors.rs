//! JSON-RPC errors: the standard codes, their wire form, and context chaining.
use vstd::prelude::*;
use crate::codec::{json_text, to_text};
use crate::text::{int_text, push_i64, push_str};
use crate::json::{lemma_get_first, lemma_get_none, group_json_view, obj_get, opt_view, Json, JsonMap, JsonNumber, JsonV, NumberV};

verus! {

/// A JSON-RPC error object.
#[derive(Debug, PartialEq)]
pub struct JsonRpcError {
    pub code: i64,
    pub message: String,
    pub data: Option<Json>,
}

/// The mathematical value of a [`JsonRpcError`].
pub struct ErrorV {
    pub code: i64,
    pub message: Seq<char>,
    pub data: Option<JsonV>,
}

impl View for JsonRpcError {
    type V = ErrorV;

    open spec fn view(&self) -> ErrorV {
        ErrorV { code: self.code, message: self.message@, data: opt_view(self.data) }
    }
}

pub const PARSE_ERROR: i64 = -32700;
pub const INVALID_REQUEST: i64 = -32600;
pub const METHOD_NOT_FOUND: i64 = -32601;
pub const INVALID_PARAMS: i64 = -32602;
pub const INTERNAL_ERROR: i64 = -32603;
pub const TRANSPORT_ERROR: i64 = -32000;

/// The error with `code`, `message` and no data.
pub open spec fn plain_error(code: i64, message: Seq<char>) -> ErrorV {
    ErrorV { code, message, data: None }
}

/// The JSON number that an `i64` is written as.
pub open spec fn i64_number(n: i64) -> JsonV {
    if n >= 0 {
        JsonV::Number(NumberV::PosInt(n as u64))
    } else {
        JsonV::Number(NumberV::NegInt(n))
    }
}

/// The wire form of an error object: `code`, `message`, and `data` when present.
pub open spec fn error_json(e: ErrorV) -> JsonV {
    let base = seq![
        ("code"@, i64_number(e.code)),
        ("message"@, JsonV::Str(e.message)),
    ];
    match e.data {
        Some(d) => JsonV::Object(base.push(("data"@, d))),
        None => JsonV::Object(base),
    }
}

/// The response that reports error `e` for request `id`.
pub open spec fn error_response_json(e: ErrorV, id: JsonV) -> JsonV {
    JsonV::Object(seq![
        ("jsonrpc"@, JsonV::Str("2.0"@)),
        ("id"@, id),
        ("error"@, error_json(e)),
    ])
}

/// `id` when given, else `null`.
pub open spec fn id_or_null(id: Option<JsonV>) -> JsonV {
    match id {
        Some(v) => v,
        None => JsonV::Null,
    }
}

pub fn i64_to_json(n: i64) -> (r: Json)
    ensures
        r@ == i64_number(n),
{
    if n >= 0 {
        Json::Number(JsonNumber::PosInt(n as u64))
    } else {
        Json::Number(JsonNumber::NegInt(n))
    }
}

impl JsonRpcError {
    fn plain(code: i64, message: &str) -> (e: JsonRpcError)
        ensures
            e@ == plain_error(code, message@),
    {
        JsonRpcError { code, message: String::from_str(message), data: None }
    }

    /// Invalid JSON was received.
    pub fn parse_error() -> (e: JsonRpcError)
        ensures
            e@ == plain_error(PARSE_ERROR, "Parse error"@),
    {
        Self::plain(PARSE_ERROR, "Parse error")
    }

    /// The JSON received is not a valid request object.
    pub fn invalid_request() -> (e: JsonRpcError)
        ensures
            e@ == plain_error(INVALID_REQUEST, "Invalid Request"@),
    {
        Self::plain(INVALID_REQUEST, "Invalid Request")
    }

    /// The method does not exist.
    pub fn method_not_found() -> (e: JsonRpcError)
        ensures
            e@ == plain_error(METHOD_NOT_FOUND, "Method not found"@),
    {
        Self::plain(METHOD_NOT_FOUND, "Method not found")
    }

    /// Invalid method parameters.
    pub fn invalid_params() -> (e: JsonRpcError)
        ensures
            e@ == plain_error(INVALID_PARAMS, "Invalid params"@),
    {
        Self::plain(INVALID_PARAMS, "Invalid params")
    }

    /// An internal failure, with `message` carried as the error's data.
    pub fn internal_error(message: &str) -> (e: JsonRpcError)
        ensures
            e@ == (ErrorV {
                code: INTERNAL_ERROR,
                message: "Internal error"@,
                data: Some(JsonV::Str(message@)),
            }),
    {
        JsonRpcError {
            code: INTERNAL_ERROR,
            message: String::from_str("Internal error"),
            data: Some(Json::from_str(message)),
        }
    }

    /// A transport-level failure (connect refused, connection closed, read or
    /// write failure, bind failure): code -32000 with `message` as its message.
    pub fn transport_error(message: &str) -> (e: JsonRpcError)
        ensures
            e@ == plain_error(TRANSPORT_ERROR, message@),
    {
        Self::plain(TRANSPORT_ERROR, message)
    }

    /// The error as text: `JSON-RPC error {code}: {message}`.
    pub fn to_string(&self) -> (r: String)
        ensures
            r@ == "JSON-RPC error "@ + int_text(self.code as int) + ": "@ + self.message@,
    {
        let mut out = String::from_str("JSON-RPC error ");
        push_i64(&mut out, self.code);
        push_str(&mut out, ": ");
        push_str(&mut out, self.message.as_str());
        out
    }

    /// A copy of this error.
    pub fn copy(&self) -> (e: JsonRpcError)
        ensures
            e@ == self@,
    {
        let data = match &self.data {
            Some(d) => Some(d.copy()),
            None => None,
        };
        JsonRpcError { code: self.code, message: self.message.clone(), data }
    }

    /// The wire form of this error object.
    pub fn to_json(&self) -> (r: Json)
        ensures
            r@ == error_json(self@),
    {
        broadcast use group_json_view;
        proof {
            lemma_error_names_distinct();
        }
        let mut map = JsonMap::new();
        map.push_new(String::from_str("code"), i64_to_json(self.code));
        map.push_new(String::from_str("message"), Json::Str(self.message.clone()));
        if let Some(d) = &self.data {
            map.push_new(String::from_str("data"), d.copy());
        }
        assert(map@ =~= error_json(self@)->Object_0);
        Json::Object(map)
    }

    /// The response reporting this error for request `id` (`null` when absent).
    pub fn to_response(self, id: Option<Json>) -> (r: Json)
        ensures
            r@ == error_response_json(self@, id_or_null(opt_view(id))),
    {
        broadcast use group_json_view;
        let ghost given = opt_view(id);
        let id = match id {
            Some(v) => v,
            None => Json::Null,
        };
        proof {
            lemma_member_names_distinct();
        }
        let mut map = JsonMap::new();
        map.push_new(String::from_str("jsonrpc"), Json::from_str("2.0"));
        map.push_new(String::from_str("id"), id);
        map.push_new(String::from_str("error"), self.to_json());
        assert(map@ =~= error_response_json(self@, id_or_null(given))->Object_0);
        Json::Object(map)
    }
}


/// The `i64` a JSON number is read as: any integer in range; fractions and
/// out-of-range integers are rejected.
pub open spec fn decode_i64(v: JsonV) -> Option<i64> {
    match v {
        JsonV::Number(NumberV::PosInt(n)) => if n <= i64::MAX as u64 {
            Some(n as i64)
        } else {
            None
        },
        JsonV::Number(NumberV::NegInt(n)) => Some(n),
        _ => None,
    }
}

/// An optional member as read into an optional field: absent and `null` both
/// read as nothing.
pub open spec fn decode_optional(v: Option<JsonV>) -> Option<JsonV> {
    match v {
        None => None,
        Some(JsonV::Null) => None,
        Some(x) => Some(x),
    }
}

/// The error object made of the given `code`, `message` and `data` fields.
pub open spec fn error_from_fields(code: Option<JsonV>, message: Option<JsonV>, data: Option<JsonV>) -> Option<ErrorV> {
    match (code, message) {
        (Some(c), Some(JsonV::Str(m))) => match decode_i64(c) {
            Some(c) => Some(ErrorV { code: c, message: m, data: decode_optional(data) }),
            None => None,
        },
        _ => None,
    }
}

/// The error object that `v` reads as: an object with an integer `code`, a
/// string `message` and an optional `data` (other members are ignored), or
/// the same three fields given in order as an array of exactly three items.
pub open spec fn decode_error(v: JsonV) -> Option<ErrorV> {
    match v {
        JsonV::Object(m) => error_from_fields(obj_get(m, "code"@), obj_get(m, "message"@), obj_get(m, "data"@)),
        JsonV::Array(items) => if items.len() == 3 {
            error_from_fields(Some(items[0]), Some(items[1]), Some(items[2]))
        } else {
            None
        },
        _ => None,
    }
}

pub fn json_to_i64(v: &Json) -> (r: Option<i64>)
    ensures
        r == decode_i64(v@),
{
    match v {
        Json::Number(JsonNumber::PosInt(n)) => if *n <= i64::MAX as u64 {
            Some(*n as i64)
        } else {
            None
        },
        Json::Number(JsonNumber::NegInt(n)) => Some(*n),
        _ => None,
    }
}

/// An optional member read into an optional field: `null` reads as nothing.
pub fn json_optional(v: Option<Json>) -> (r: Option<Json>)
    ensures
        opt_view(r) == decode_optional(opt_view(v)),
{
    match v {
        None => None,
        Some(Json::Null) => None,
        Some(x) => Some(x),
    }
}

fn error_from_parts(code: Option<Json>, message: Option<Json>, data: Option<Json>) -> (r: Option<JsonRpcError>)
    ensures
        match r {
            Some(e) => error_from_fields(opt_view(code), opt_view(message), opt_view(data)) == Some(e@),
            None => error_from_fields(opt_view(code), opt_view(message), opt_view(data)) is None,
        },
{
    match (code, message) {
        (Some(c), Some(Json::Str(m))) => match json_to_i64(&c) {
            Some(c) => Some(JsonRpcError { code: c, message: m, data: json_optional(data) }),
            None => None,
        },
        _ => None,
    }
}

impl JsonRpcError {
    /// The error object that `v` reads as (see [`decode_error`]).
    pub fn from_json(v: &Json) -> (r: Option<JsonRpcError>)
        ensures
            match r {
                Some(e) => decode_error(v@) == Some(e@),
                None => decode_error(v@) is None,
            },
    {
        broadcast use group_json_view;
        match v {
            Json::Object(m) => error_from_parts(m.get("code"), m.get("message"), m.get("data")),
            Json::Array(items) => if items.len() == 3 {
                error_from_parts(Some(items[0].copy()), Some(items[1].copy()), Some(items[2].copy()))
            } else {
                None
            },
            _ => None,
        }
    }
}


/// The error that reads back from the wire form of `e`: the same, except that
/// `null` data reads back as absent.
pub open spec fn as_received(e: ErrorV) -> ErrorV {
    ErrorV { code: e.code, message: e.message, data: decode_optional(e.data) }
}

/// The member names of an error object are pairwise distinct.
proof fn lemma_error_names_distinct()
    ensures
        "code"@ != "message"@,
        "code"@ != "data"@,
        "message"@ != "data"@,
{
    reveal_strlit("code");
    reveal_strlit("message");
    reveal_strlit("data");
    assert("code"@.len() != "message"@.len());
    assert("code"@[0] != "data"@[0]);
    assert("message"@.len() != "data"@.len());
}

/// The member names of messages, errors among them, are pairwise distinct.
pub proof fn lemma_member_names_distinct()
    ensures
        "jsonrpc"@ != "method"@,
        "jsonrpc"@ != "params"@,
        "jsonrpc"@ != "id"@,
        "jsonrpc"@ != "result"@,
        "jsonrpc"@ != "error"@,
        "method"@ != "params"@,
        "method"@ != "id"@,
        "method"@ != "result"@,
        "method"@ != "error"@,
        "params"@ != "id"@,
        "params"@ != "result"@,
        "params"@ != "error"@,
        "id"@ != "result"@,
        "id"@ != "error"@,
        "result"@ != "error"@,
{
    reveal_strlit("jsonrpc");
    reveal_strlit("method");
    reveal_strlit("params");
    reveal_strlit("id");
    reveal_strlit("result");
    reveal_strlit("error");
    assert("jsonrpc"@.len() != "method"@.len());
    assert("jsonrpc"@.len() != "params"@.len());
    assert("jsonrpc"@.len() != "id"@.len());
    assert("jsonrpc"@.len() != "result"@.len());
    assert("jsonrpc"@.len() != "error"@.len());
    assert("method"@[0] != "params"@[0]);
    assert("method"@.len() != "id"@.len());
    assert("method"@[0] != "result"@[0]);
    assert("method"@.len() != "error"@.len());
    assert("params"@.len() != "id"@.len());
    assert("params"@[0] != "result"@[0]);
    assert("params"@.len() != "error"@.len());
    assert("id"@.len() != "result"@.len());
    assert("id"@.len() != "error"@.len());
    assert("result"@.len() != "error"@.len());
}

/// An error object written out reads back as the same error, except that
/// `null` data reads back as absent.
pub proof fn lemma_error_roundtrip(e: ErrorV)
    ensures
        decode_error(error_json(e)) == Some(as_received(e)),
{
    lemma_error_names_distinct();
    let m = error_json(e)->Object_0;
    lemma_get_first(m, "code"@, 0, 0);
    lemma_get_first(m, "message"@, 1, 0);
    match e.data {
        Some(d) => lemma_get_first(m, "data"@, 2, 0),
        None => lemma_get_none(m, "data"@, 0),
    }
}


/// Error `e` with `context` put in front of its data: the data becomes the
/// string `context`, followed, when `e` had data, by `": "` and that data
/// (a string as itself, any other value as its JSON text).
pub open spec fn with_context(e: ErrorV, context: Seq<char>) -> ErrorV {
    let detail = match e.data {
        Some(JsonV::Str(existing)) => context + ": "@ + existing,
        Some(other) => context + ": "@ + json_text(other),
        None => context,
    };
    ErrorV { code: e.code, message: e.message, data: Some(JsonV::Str(detail)) }
}

/// Attach human-readable context to a failed result, typically the file or
/// resource being processed; the error's earlier detail is kept after it.
pub trait Context<T>: Sized {
    fn context(self, context: &str) -> Result<T, JsonRpcError>;
}

impl<T> Context<T> for Result<T, JsonRpcError> {
    /// A success is passed on; an error gets `context` in front of its data.
    fn context(self, context: &str) -> (r: Result<T, JsonRpcError>)
        ensures
            match self {
                Ok(v) => r == Ok::<T, JsonRpcError>(v),
                Err(e) => r matches Err(e2) && e2@ == with_context(e@, context@),
            },
    {
        match self {
            Ok(v) => Ok(v),
            Err(error) => {
                let ghost ev = error@;
                let mut detail = String::from_str(context);
                match &error.data {
                    Some(Json::Str(existing)) => {
                        detail.append(": ");
                        detail.append(existing.as_str());
                    },
                    Some(other) => {
                        let text = to_text(other);
                        detail.append(": ");
                        detail.append(text.as_str());
                    },
                    None => {},
                }
                let e2 = JsonRpcError { code: error.code, message: error.message, data: Some(Json::Str(detail)) };
                assert(e2@ == with_context(ev, context@));
                Err(e2)
            },
        }
    }
}


/// The failures met at the edges of the library (encoding, decoding, I/O),
/// each reported as an error whose text names what failed.
#[derive(Clone, Copy, Debug, PartialEq, Eq, Structural)]
pub enum Failure {
    Serialize,
    Deserialize,
    SerializeParam,
    SerializeMessage,
    SerializeResult,
    DeserializeResult,
    ResponseChannelClosed,
    AcceptTask,
    TcpConnect,
    TcpBind,
    TcpAccept,
    Read,
    Write,
    Flush,
    Spawn,
    ChildStdinMissing,
    ChildStdoutMissing,
    WsConnect,
    WsWrite,
    WsBind,
    WsAccept,
    WsHandshake,
}

/// Whether a failure is in the transport (a transport error) rather than
/// inside the library (an internal error).
pub open spec fn is_transport_failure(kind: Failure) -> bool {
    !(kind is Serialize || kind is Deserialize || kind is SerializeParam || kind is SerializeMessage
        || kind is SerializeResult || kind is DeserializeResult || kind is ResponseChannelClosed
        || kind is AcceptTask)
}

/// The text in front of the description of a failure of kind `kind`.
pub open spec fn failure_prefix(kind: Failure) -> Seq<char> {
    match kind {
        Failure::Serialize => "failed to serialize JSON: "@,
        Failure::Deserialize => "failed to deserialize JSON: "@,
        Failure::SerializeParam => "failed to serialize RPC param: "@,
        Failure::SerializeMessage => "failed to serialize message: "@,
        Failure::SerializeResult => "failed to serialize RPC result: "@,
        Failure::DeserializeResult => "failed to deserialize response result: "@,
        Failure::ResponseChannelClosed => "response channel closed: "@,
        Failure::AcceptTask => "server accept task failed: "@,
        Failure::TcpConnect => "tcp connect failed: "@,
        Failure::TcpBind => "tcp bind failed: "@,
        Failure::TcpAccept => "tcp accept failed: "@,
        Failure::Read => "read failed: "@,
        Failure::Write => "write failed: "@,
        Failure::Flush => "flush failed: "@,
        Failure::Spawn => "failed to spawn process: "@,
        Failure::ChildStdinMissing => "child stdin was not captured"@,
        Failure::ChildStdoutMissing => "child stdout was not captured"@,
        Failure::WsConnect => "websocket connect failed: "@,
        Failure::WsWrite => "websocket write failed: "@,
        Failure::WsBind => "websocket bind failed: "@,
        Failure::WsAccept => "websocket accept failed: "@,
        Failure::WsHandshake => "websocket handshake failed: "@,
    }
}

/// The error for a failure of kind `kind` described by `detail`: an internal
/// error carrying the text as data, or a transport error with the text as its
/// message. A missing child stream has no description.
pub open spec fn failure_error(kind: Failure, detail: Seq<char>) -> ErrorV {
    let text = if kind is ChildStdinMissing || kind is ChildStdoutMissing {
        failure_prefix(kind)
    } else {
        failure_prefix(kind) + detail
    };
    if is_transport_failure(kind) {
        plain_error(TRANSPORT_ERROR, text)
    } else {
        ErrorV { code: INTERNAL_ERROR, message: "Internal error"@, data: Some(JsonV::Str(text)) }
    }
}

fn failure_prefix_text(kind: Failure) -> (r: &'static str)
    ensures
        r@ == failure_prefix(kind),
{
    match kind {
        Failure::Serialize => "failed to serialize JSON: ",
        Failure::Deserialize => "failed to deserialize JSON: ",
        Failure::SerializeParam => "failed to serialize RPC param: ",
        Failure::SerializeMessage => "failed to serialize message: ",
        Failure::SerializeResult => "failed to serialize RPC result: ",
        Failure::DeserializeResult => "failed to deserialize response result: ",
        Failure::ResponseChannelClosed => "response channel closed: ",
        Failure::AcceptTask => "server accept task failed: ",
        Failure::TcpConnect => "tcp connect failed: ",
        Failure::TcpBind => "tcp bind failed: ",
        Failure::TcpAccept => "tcp accept failed: ",
        Failure::Read => "read failed: ",
        Failure::Write => "write failed: ",
        Failure::Flush => "flush failed: ",
        Failure::Spawn => "failed to spawn process: ",
        Failure::ChildStdinMissing => "child stdin was not captured",
        Failure::ChildStdoutMissing => "child stdout was not captured",
        Failure::WsConnect => "websocket connect failed: ",
        Failure::WsWrite => "websocket write failed: ",
        Failure::WsBind => "websocket bind failed: ",
        Failure::WsAccept => "websocket accept failed: ",
        Failure::WsHandshake => "websocket handshake failed: ",
    }
}

impl JsonRpcError {
    /// The error reporting a failure of kind `kind`, described by `detail`.
    pub fn failure(kind: Failure, detail: &str) -> (e: JsonRpcError)
        ensures
            e@ == failure_error(kind, detail@),
    {
        let mut text = String::from_str(failure_prefix_text(kind));
        match kind {
            Failure::ChildStdinMissing | Failure::ChildStdoutMissing => {},
            _ => text.append(detail),
        }
        match kind {
            Failure::Serialize | Failure::Deserialize | Failure::SerializeParam | Failure::SerializeMessage
            | Failure::SerializeResult | Failure::DeserializeResult | Failure::ResponseChannelClosed
            | Failure::AcceptTask => JsonRpcError::internal_error(text.as_str()),
            _ => JsonRpcError::transport_error(text.as_str()),
        }
    }
}

} // verus!
