use rustsonrpc::errors::{Context, Failure, JsonRpcError};
use rustsonrpc::json::{Json, JsonMap, JsonNumber};
use rustsonrpc::params::{DynamicParams, IntoParams};
use rustsonrpc::request::JsonRpcRequest;
use rustsonrpc::response::JsonRpcResponse;

fn s(text: &str) -> Json {
    Json::Str(text.to_string())
}

fn num(n: u64) -> Json {
    Json::Number(JsonNumber::PosInt(n))
}

fn obj(members: Vec<(&str, Json)>) -> Json {
    Json::Object(JsonMap::from_members(members.into_iter().map(|(k, v)| (k.to_string(), v)).collect()))
}

fn with_context(data: Json) -> String {
    let r: Result<u8, JsonRpcError> = Err(JsonRpcError { code: 1, message: "m".to_string(), data: Some(data) });
    match r.context("c").unwrap_err().data {
        Some(Json::Str(text)) => text,
        other => panic!("unexpected data: {:?}", other),
    }
}

fn map_of(j: Json) -> JsonMap {
    match j {
        Json::Object(m) => m,
        other => panic!("not an object: {:?}", other),
    }
}

#[test]
fn standard_error_codes() {
    assert_eq!(JsonRpcError::parse_error().code, -32700);
    assert_eq!(JsonRpcError::parse_error().message, "Parse error");
    assert_eq!(JsonRpcError::invalid_request().code, -32600);
    assert_eq!(JsonRpcError::invalid_request().message, "Invalid Request");
    assert_eq!(JsonRpcError::method_not_found().code, -32601);
    assert_eq!(JsonRpcError::method_not_found().message, "Method not found");
    assert_eq!(JsonRpcError::invalid_params().code, -32602);
    assert_eq!(JsonRpcError::invalid_params().message, "Invalid params");
    assert_eq!(JsonRpcError::invalid_params().data, None);
}

#[test]
fn internal_and_transport_errors() {
    let e = JsonRpcError::internal_error("boom");
    assert_eq!(e.code, -32603);
    assert_eq!(e.message, "Internal error");
    assert_eq!(e.data, Some(s("boom")));
    let t = JsonRpcError::transport_error("connection closed");
    assert_eq!(t.code, -32000);
    assert_eq!(t.message, "connection closed");
    assert_eq!(t.data, None);
}

#[test]
fn error_text() {
    assert_eq!(JsonRpcError::method_not_found().to_string(), "JSON-RPC error -32601: Method not found");
    let e = JsonRpcError { code: 7, message: "x".to_string(), data: None };
    assert_eq!(e.to_string(), "JSON-RPC error 7: x");
}

#[test]
fn error_response_shape() {
    let r = JsonRpcError::method_not_found().to_response(Some(num(4)));
    let m = map_of(r);
    assert_eq!(m.get("jsonrpc"), Some(s("2.0")));
    assert_eq!(m.get("id"), Some(num(4)));
    let err = map_of(m.get("error").unwrap());
    assert_eq!(err.get("code"), Some(Json::Number(JsonNumber::NegInt(-32601))));
    assert_eq!(err.get("message"), Some(s("Method not found")));
    assert_eq!(err.get("data"), None);
    let r = JsonRpcError::parse_error().to_response(None);
    assert_eq!(map_of(r).get("id"), Some(Json::Null));
}

#[test]
fn context_without_data() {
    let r: Result<u8, JsonRpcError> = Err(JsonRpcError::invalid_params());
    let e = r.context("cursor.json").unwrap_err();
    assert_eq!(e.code, -32602);
    assert_eq!(e.data, Some(s("cursor.json")));
}

#[test]
fn context_with_string_data() {
    let r: Result<u8, JsonRpcError> = Err(JsonRpcError::failure(Failure::Deserialize, "eof"));
    let e = r.context("cursor.json").unwrap_err();
    assert_eq!(e.data, Some(s("cursor.json: failed to deserialize JSON: eof")));
}

#[test]
fn context_with_other_data() {
    let data = obj(vec![("a", Json::Array(vec![num(1), Json::Bool(true), Json::Null, s("q\"\n")]))]);
    let r: Result<u8, JsonRpcError> = Err(JsonRpcError { code: 1, message: "m".to_string(), data: Some(data) });
    let e = r.context("ctx").unwrap_err();
    assert_eq!(e.data, Some(s("ctx: {\"a\":[1,true,null,\"q\\\"\\n\"]}")));
}

#[test]
fn context_keeps_success() {
    let r: Result<u8, JsonRpcError> = Ok(3);
    assert_eq!(r.context("ctx").unwrap(), 3);
}

#[test]
fn json_text_escapes_controls() {
    let v = Json::Array(vec![s("\u{1}\t"), Json::Number(JsonNumber::NegInt(-12)), Json::Number(JsonNumber::Float("1.5".to_string()))]);
    assert_eq!(with_context(v), "c: [\"\\u0001\\t\",-12,1.5]");
    assert_eq!(with_context(obj(vec![])), "c: {}");
    assert_eq!(with_context(Json::Array(vec![])), "c: []");
    assert_eq!(with_context(obj(vec![("b", num(1)), ("a", Json::Null)])), "c: {\"a\":null,\"b\":1}");
}

#[test]
fn failures_name_what_failed() {
    let e = JsonRpcError::failure(Failure::TcpConnect, "refused");
    assert_eq!(e.code, -32000);
    assert_eq!(e.message, "tcp connect failed: refused");
    let e = JsonRpcError::failure(Failure::SerializeParam, "bad");
    assert_eq!(e.code, -32603);
    assert_eq!(e.data, Some(s("failed to serialize RPC param: bad")));
    let e = JsonRpcError::failure(Failure::ChildStdinMissing, "ignored");
    assert_eq!(e.message, "child stdin was not captured");
}

#[test]
fn params_from_value() {
    let p = DynamicParams::from_value(Some(obj(vec![("a", num(2))]))).unwrap();
    assert_eq!(p.get("a"), num(2));
    assert_eq!(p.get("b"), Json::Null);
    let p = DynamicParams::from_value(None).unwrap();
    assert_eq!(p.get("a"), Json::Null);
    let e = DynamicParams::from_value(Some(Json::Array(vec![num(1)]))).unwrap_err();
    assert_eq!(e.code, -32602);
}

#[test]
fn params_with_then_get() {
    let p = DynamicParams::empty().with("a".to_string(), num(1)).with("b".to_string(), s("x"));
    let p = p.with("a".to_string(), num(5));
    assert_eq!(p.get("a"), num(5));
    assert_eq!(p.get("b"), s("x"));
    assert_eq!(p.into_json(), obj(vec![("a", num(5)), ("b", s("x"))]));
}

#[test]
fn into_params_only_objects() {
    assert_eq!(().into_params(), Ok(None));
    assert_eq!(obj(vec![("a", num(1))]).into_params(), Ok(Some(obj(vec![("a", num(1))]))));
    assert_eq!(Json::Array(vec![num(1)]).into_params().unwrap_err().code, -32602);
    assert_eq!(Some(s("x")).into_params().unwrap_err().code, -32602);
    let none: Option<Json> = None;
    assert_eq!(none.into_params(), Ok(None));
    assert_eq!(JsonMap::new().into_params(), Ok(Some(obj(vec![]))));
    assert_eq!(DynamicParams::empty().into_params(), Ok(Some(obj(vec![]))));
}

#[test]
fn request_wire_form() {
    let r = JsonRpcRequest { jsonrpc: "2.0".to_string(), method: "add".to_string(), params: Some(obj(vec![("a", num(1))])), id: Some(num(0)) };
    assert_eq!(
        r.to_json(),
        obj(vec![("jsonrpc", s("2.0")), ("method", s("add")), ("params", obj(vec![("a", num(1))])), ("id", num(0))])
    );
    let n = JsonRpcRequest { jsonrpc: "2.0".to_string(), method: "tick".to_string(), params: None, id: None };
    assert_eq!(n.to_json(), obj(vec![("jsonrpc", s("2.0")), ("method", s("tick"))]));
}

#[test]
fn response_round_trip() {
    let r = JsonRpcResponse { jsonrpc: "2.0".to_string(), id: num(3), payload: Ok(num(5)) };
    let j = r.to_json();
    assert_eq!(j, obj(vec![("jsonrpc", s("2.0")), ("id", num(3)), ("result", num(5))]));
    let back = JsonRpcResponse::from_json(&j).unwrap();
    assert_eq!(back, JsonRpcResponse { jsonrpc: "2.0".to_string(), id: num(3), payload: Ok(num(5)) });
    let e = JsonRpcResponse { jsonrpc: "2.0".to_string(), id: s("k"), payload: Err(JsonRpcError::invalid_params()) };
    let back = JsonRpcResponse::from_json(&e.to_json()).unwrap();
    assert_eq!(back.payload, Err(JsonRpcError::invalid_params()));
}

#[test]
fn response_needs_exactly_one_outcome() {
    let both = obj(vec![("jsonrpc", s("2.0")), ("id", num(1)), ("result", num(1)), ("error", JsonRpcError::invalid_params().to_json())]);
    assert_eq!(JsonRpcResponse::from_json(&both), None);
    let neither = obj(vec![("jsonrpc", s("2.0")), ("id", num(1))]);
    assert_eq!(JsonRpcResponse::from_json(&neither), None);
    let null_result = obj(vec![("jsonrpc", s("2.0")), ("id", num(1)), ("result", Json::Null)]);
    assert_eq!(JsonRpcResponse::from_json(&null_result), None);
    let no_id = obj(vec![("jsonrpc", s("2.0")), ("result", num(1))]);
    assert_eq!(JsonRpcResponse::from_json(&no_id), None);
    let as_array = Json::Array(vec![s("2.0"), num(1), num(9), Json::Null]);
    assert_eq!(JsonRpcResponse::from_json(&as_array).unwrap().payload, Ok(num(9)));
}

#[test]
fn error_object_decoding() {
    let e = JsonRpcError::from_json(&obj(vec![("code", Json::Number(JsonNumber::NegInt(-1))), ("message", s("m")), ("data", Json::Null)])).unwrap();
    assert_eq!(e, JsonRpcError { code: -1, message: "m".to_string(), data: None });
    assert_eq!(JsonRpcError::from_json(&obj(vec![("code", num(u64::MAX)), ("message", s("m"))])), None);
    assert_eq!(JsonRpcError::from_json(&obj(vec![("code", Json::Number(JsonNumber::Float("1.0".to_string()))), ("message", s("m"))])), None);
    assert_eq!(JsonRpcError::from_json(&obj(vec![("message", s("m"))])), None);
    assert_eq!(JsonRpcError::from_json(&Json::Null), None);
}
