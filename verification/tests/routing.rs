use rustsonrpc::errors::JsonRpcError;
use rustsonrpc::json::{Json, JsonMap, JsonNumber};
use rustsonrpc::peer::{
    batch_reply, deliver_response, encode_message, finish_call, framed_message, handle_message, handle_object, handle_one,
    handle_parsed, is_valid_id, notification, receive, Calls, Incoming, Route,
};
use rustsonrpc::registry::{Handler, Registry};

fn s(text: &str) -> Json {
    Json::Str(text.to_string())
}

fn num(n: u64) -> Json {
    Json::Number(JsonNumber::PosInt(n))
}

fn obj(members: Vec<(&str, Json)>) -> JsonMap {
    JsonMap::from_members(members.into_iter().map(|(k, v)| (k.to_string(), v)).collect())
}

fn parsed(bytes: &[u8]) -> Json {
    match receive(bytes) {
        Incoming::Single(m) => Json::Object(m),
        _ => panic!("expected an object"),
    }
}

fn received_object(bytes: &[u8]) -> JsonMap {
    match receive(bytes) {
        Incoming::Single(m) => m,
        _ => panic!("expected an object"),
    }
}

fn field(j: &Json, name: &str) -> Option<Json> {
    match j {
        Json::Object(m) => m.get(name),
        _ => None,
    }
}

fn error_code(reply: &Json) -> i64 {
    match field(&field(reply, "error").unwrap(), "code").unwrap() {
        Json::Number(JsonNumber::NegInt(c)) => c,
        other => panic!("unexpected code {:?}", other),
    }
}

fn registry_with_add() -> (Registry, u64) {
    let mut r = Registry::new();
    let id = r.add_method("add".to_string());
    (r, id)
}

#[test]
fn request_is_invoked() {
    let (reg, id) = registry_with_add();
    let mut calls: Calls<u8> = Calls::new();
    let msg = obj(vec![("jsonrpc", s("2.0")), ("method", s("add")), ("params", Json::Object(obj(vec![("a", num(2))]))), ("id", num(7))]);
    match handle_object(msg, &reg, &mut calls) {
        Route::Invoke(inv) => {
            assert_eq!(inv.handler, Handler::Method(id));
            assert_eq!(inv.id, num(7));
            assert!(!inv.notification);
            assert_eq!(inv.params.get("a"), num(2));
            let reply = finish_call(inv.id, inv.notification, Ok(num(5))).unwrap();
            assert_eq!(field(&reply, "id"), Some(num(7)));
            assert_eq!(field(&reply, "result"), Some(num(5)));
            assert_eq!(field(&reply, "jsonrpc"), Some(s("2.0")));
        },
        _ => panic!("expected an invocation"),
    }
}

#[test]
fn unknown_method_is_reported() {
    let (reg, _) = registry_with_add();
    let mut calls: Calls<u8> = Calls::new();
    let msg = obj(vec![("jsonrpc", s("2.0")), ("method", s("nope")), ("id", s("x"))]);
    match handle_object(msg, &reg, &mut calls) {
        Route::Reply(r) => {
            assert_eq!(error_code(&r), -32601);
            assert_eq!(field(&r, "id"), Some(s("x")));
        },
        _ => panic!("expected a reply"),
    }
}

#[test]
fn notifications_get_no_reply() {
    let (reg, _) = registry_with_add();
    let mut calls: Calls<u8> = Calls::new();
    let unknown = obj(vec![("jsonrpc", s("2.0")), ("method", s("nope"))]);
    assert!(matches!(handle_object(unknown, &reg, &mut calls), Route::Silent));
    let bad_params = obj(vec![("jsonrpc", s("2.0")), ("method", s("add")), ("params", Json::Array(vec![num(1)]))]);
    assert!(matches!(handle_object(bad_params, &reg, &mut calls), Route::Silent));
    let ok = obj(vec![("jsonrpc", s("2.0")), ("method", s("add"))]);
    match handle_object(ok, &reg, &mut calls) {
        Route::Invoke(inv) => {
            assert!(inv.notification);
            assert_eq!(finish_call(inv.id, inv.notification, Ok(num(1))), None);
        },
        _ => panic!("expected an invocation"),
    }
}

#[test]
fn array_params_are_invalid() {
    let (reg, _) = registry_with_add();
    let mut calls: Calls<u8> = Calls::new();
    let msg = obj(vec![("jsonrpc", s("2.0")), ("method", s("add")), ("params", Json::Array(vec![num(1)])), ("id", num(1))]);
    match handle_object(msg, &reg, &mut calls) {
        Route::Reply(r) => assert_eq!(error_code(&r), -32602),
        _ => panic!("expected a reply"),
    }
}

#[test]
fn invalid_requests() {
    let (reg, _) = registry_with_add();
    let mut calls: Calls<u8> = Calls::new();
    let bad_id = obj(vec![("jsonrpc", s("2.0")), ("method", s("add")), ("id", Json::Bool(true))]);
    match handle_object(bad_id, &reg, &mut calls) {
        Route::Reply(r) => {
            assert_eq!(error_code(&r), -32600);
            assert_eq!(field(&r, "id"), Some(Json::Null));
        },
        _ => panic!("expected a reply"),
    }
    let bad_version = obj(vec![("jsonrpc", s("1.0")), ("method", s("add")), ("id", num(3))]);
    match handle_object(bad_version, &reg, &mut calls) {
        Route::Reply(r) => {
            assert_eq!(error_code(&r), -32600);
            assert_eq!(field(&r, "id"), Some(num(3)));
        },
        _ => panic!("expected a reply"),
    }
    let bad_method = obj(vec![("jsonrpc", s("2.0")), ("method", num(1)), ("id", num(3))]);
    assert!(matches!(handle_object(bad_method, &reg, &mut calls), Route::Reply(_)));
    let nothing = obj(vec![("jsonrpc", s("2.0"))]);
    assert!(matches!(handle_object(nothing, &reg, &mut calls), Route::Reply(_)));
}

#[test]
fn valid_ids() {
    assert!(is_valid_id(None));
    assert!(is_valid_id(Some(&Json::Null)));
    assert!(is_valid_id(Some(&s("a"))));
    assert!(is_valid_id(Some(&num(1))));
    assert!(!is_valid_id(Some(&Json::Bool(false))));
    assert!(!is_valid_id(Some(&Json::Array(vec![]))));
}

#[test]
fn call_and_response_are_matched() {
    let mut calls: Calls<&str> = Calls::new();
    let (id, bytes) = calls.call("add".to_string(), Ok(None), "waiter").unwrap();
    let request = parsed(&bytes);
    assert_eq!(id, 0);
    assert_eq!(field(&request, "id"), Some(num(0)));
    assert_eq!(field(&request, "method"), Some(s("add")));
    assert_eq!(field(&request, "params"), None);
    let (second, _) = calls.call("add".to_string(), Ok(None), "other").unwrap();
    assert_eq!(second, 1);
    let reply = finish_call(num(0), false, Ok(num(5))).unwrap();
    let reg = Registry::new();
    let m = match reply {
        Json::Object(m) => m,
        _ => panic!(),
    };
    match handle_object(m.copy_map(), &reg, &mut calls) {
        Route::Deliver { id, waiter, outcome } => {
            assert_eq!(id, 0);
            assert_eq!(waiter, "waiter");
            assert_eq!(outcome, Ok(num(5)));
        },
        _ => panic!("expected delivery"),
    }
    assert!(matches!(handle_object(m, &reg, &mut calls), Route::Silent));
}

#[test]
fn failed_params_use_an_id() {
    let mut calls: Calls<u8> = Calls::new();
    let r = calls.call("m".to_string(), Err(JsonRpcError::invalid_params()), 1);
    assert_eq!(r.unwrap_err().code, -32602);
    let (id, _) = calls.call("m".to_string(), Ok(None), 2).unwrap();
    assert_eq!(id, 1);
    assert_eq!(calls.abandon(id), Some(2));
    assert_eq!(calls.abandon(id), None);
}

#[test]
fn delivered_errors_and_malformed_responses() {
    let mut calls: Calls<u8> = Calls::new();
    let (id, _) = calls.call("m".to_string(), Ok(None), 1).unwrap();
    let resp = obj(vec![("error", JsonRpcError::invalid_params().to_json())]);
    match deliver_response(&num(id), &resp, &mut calls) {
        Route::Deliver { outcome, .. } => assert_eq!(outcome, Err(JsonRpcError::invalid_params())),
        _ => panic!(),
    }
    let (id, _) = calls.call("m".to_string(), Ok(None), 1).unwrap();
    let both = obj(vec![("error", Json::Null), ("result", num(1))]);
    match deliver_response(&num(id), &both, &mut calls) {
        Route::Deliver { outcome, .. } => assert_eq!(outcome.unwrap_err().code, -32600),
        _ => panic!(),
    }
    assert!(matches!(deliver_response(&s("0"), &both, &mut calls), Route::Silent));
}

#[test]
fn notification_message() {
    let n = parsed(&notification("tick".to_string(), Ok(None)).unwrap());
    assert_eq!(field(&n, "id"), None);
    assert_eq!(field(&n, "method"), Some(s("tick")));
    assert!(notification("tick".to_string(), Err(JsonRpcError::invalid_params())).is_err());
}

#[test]
fn message_kinds() {
    assert!(matches!(handle_message(Json::Array(vec![])), Incoming::Reply(_)));
    assert!(matches!(handle_message(num(1)), Incoming::Reply(_)));
    assert!(matches!(handle_message(Json::Array(vec![num(1)])), Incoming::Batch(_)));
    assert!(matches!(handle_message(Json::Object(JsonMap::new())), Incoming::Single(_)));
    let reg = Registry::new();
    let mut calls: Calls<u8> = Calls::new();
    match handle_one(num(1), &reg, &mut calls) {
        Route::Reply(r) => assert_eq!(error_code(&r), -32600),
        _ => panic!(),
    }
}

#[test]
fn batch_replies() {
    assert_eq!(batch_reply(vec![None, None]), None);
    assert_eq!(batch_reply(vec![None, Some(num(1)), None, Some(num(2))]), Some(Json::Array(vec![num(1), num(2)])));
}

#[test]
fn service_routing() {
    let mut reg = Registry::new();
    let m = reg.add_method("a".to_string());
    let names = vec!["a".to_string(), "b".to_string(), "a".to_string()];
    let sid = reg.register_service(&names);
    assert_eq!(sid, 0);
    assert_eq!(reg.route(&"a".to_string()), Some(Handler::Service { service: 0, method: 2 }));
    assert_eq!(reg.route(&"b".to_string()), Some(Handler::Service { service: 0, method: 1 }));
    assert_eq!(reg.route(&"c".to_string()), None);
    assert!(reg.has_service(0));
    assert!(!reg.has_service(1));
    assert_eq!(m, 0);
    let second = reg.register_service(&vec!["c".to_string()]);
    assert_eq!(second, 1);
    assert_eq!(reg.route(&"c".to_string()), Some(Handler::Service { service: 1, method: 0 }));
    assert_eq!(reg.add_method("b".to_string()), 1);
    assert_eq!(reg.route(&"b".to_string()), Some(Handler::Method(1)));
}

#[test]
fn call_round_trip_between_peers() {
    // The callee routes "add" to a handler.
    let mut callee = Registry::new();
    let handler = callee.add_method("add".to_string());
    let mut callee_calls: Calls<u8> = Calls::new();
    // The caller starts a call.
    let caller = Registry::new();
    let mut caller_calls: Calls<&str> = Calls::new();
    let params = Json::Object(obj(vec![("a", num(2)), ("b", num(3))]));
    let (id, request) = caller_calls.call("add".to_string(), Ok(Some(params)), "sum").unwrap();
    let request = received_object(&request);
    let invocation = match handle_object(request, &callee, &mut callee_calls) {
        Route::Invoke(inv) => inv,
        _ => panic!("expected an invocation"),
    };
    assert_eq!(invocation.handler, Handler::Method(handler));
    assert_eq!(invocation.params.get("a"), num(2));
    assert_eq!(invocation.params.get("b"), num(3));
    let reply = finish_call(invocation.id, invocation.notification, Ok(num(5))).unwrap();
    let reply = match reply {
        Json::Object(m) => m,
        _ => panic!(),
    };
    match handle_object(reply, &caller, &mut caller_calls) {
        Route::Deliver { id: delivered, waiter, outcome } => {
            assert_eq!(delivered, id);
            assert_eq!(waiter, "sum");
            assert_eq!(outcome, Ok(num(5)));
        },
        _ => panic!("expected delivery"),
    }
}

#[test]
fn error_reply_reaches_caller() {
    let callee = Registry::new();
    let mut callee_calls: Calls<u8> = Calls::new();
    let mut caller_calls: Calls<u8> = Calls::new();
    let (_, request) = caller_calls.call("divide".to_string(), Ok(None), 9).unwrap();
    let request = received_object(&request);
    let reply = match handle_object(request, &callee, &mut callee_calls) {
        Route::Reply(Json::Object(m)) => m,
        _ => panic!("expected a reply"),
    };
    match handle_object(reply, &Registry::new(), &mut caller_calls) {
        Route::Deliver { waiter, outcome, .. } => {
            assert_eq!(waiter, 9);
            assert_eq!(outcome, Err(JsonRpcError::method_not_found()));
        },
        _ => panic!("expected delivery"),
    }
}

#[test]
fn call_request_bytes() {
    let mut calls: Calls<u8> = Calls::new();
    let (id, bytes) = calls.call("add".to_string(), Ok(Some(Json::Object(obj(vec![("a", num(1))])))), 1).unwrap();
    assert_eq!(id, 0);
    assert_eq!(String::from_utf8(bytes).unwrap(), "{\"id\":0,\"jsonrpc\":\"2.0\",\"method\":\"add\",\"params\":{\"a\":1}}");
    let bytes = notification("tick".to_string(), Ok(None)).unwrap();
    assert_eq!(String::from_utf8(bytes).unwrap(), "{\"jsonrpc\":\"2.0\",\"method\":\"tick\"}");
}

#[test]
fn ids_count_up_and_are_never_reused() {
    let mut calls: Calls<u8> = Calls::new();
    for expected in 0..5u64 {
        let r = if expected == 2 {
            calls.call("m".to_string(), Err(JsonRpcError::invalid_params()), 0).map(|(id, _)| id)
        } else {
            calls.call("m".to_string(), Ok(None), 0).map(|(id, _)| id)
        };
        match r {
            Ok(id) => assert_eq!(id, expected),
            Err(e) => assert_eq!(e.code, -32602),
        }
    }
    assert_eq!(calls.abandon(2), None);
    assert_eq!(calls.abandon(4), Some(0));
}

#[test]
fn registering_an_encoded_call() {
    let mut calls: Calls<u8> = Calls::new();
    for _ in 0..9 {
        assert!(calls.call("m".to_string(), Err(JsonRpcError::invalid_params()), 0).is_err());
    }
    let (id, bytes) = calls.register(7, Ok(vec![1, 2]), 3).unwrap();
    assert_eq!((id, bytes), (7, vec![1, 2]));
    let e = calls.register(8, Err("boom".to_string()), 4).unwrap_err();
    assert_eq!(e, JsonRpcError::parse_error());
    assert_eq!(calls.abandon(8), None);
    assert_eq!(calls.abandon(7), Some(3));
}

#[test]
fn received_bytes_are_sorted() {
    match receive(b"{not json") {
        Incoming::Unreadable(reply) => {
            assert_eq!(error_code(&reply), -32700);
            assert_eq!(field(&reply, "id"), Some(Json::Null));
        },
        _ => panic!("expected a parse error reply"),
    }
    match receive(b" [] ") {
        Incoming::Reply(reply) => assert_eq!(error_code(&reply), -32600),
        _ => panic!("expected an invalid request reply"),
    }
    match receive(b"[1, {\"a\": -2}]") {
        Incoming::Batch(items) => {
            assert_eq!(items.len(), 2);
            assert_eq!(items[0], num(1));
            assert_eq!(field(&items[1], "a"), Some(Json::Number(JsonNumber::NegInt(-2))));
        },
        _ => panic!("expected a batch"),
    }
    let m = received_object(b"{\"jsonrpc\":\"2.0\",\"method\":\"x\",\"id\":\"q\"}");
    assert_eq!(m.get("method"), Some(s("x")));
    assert_eq!(m.get("id"), Some(s("q")));
    assert!(matches!(handle_parsed(None), Incoming::Unreadable(_)));
    assert!(matches!(handle_parsed(Some(Json::Null)), Incoming::Reply(_)));
}

#[test]
fn messages_are_encoded() {
    let reply = finish_call(num(3), false, Ok(Json::Bool(true))).unwrap();
    let bytes = encode_message(&reply).unwrap();
    assert_eq!(String::from_utf8(bytes).unwrap(), "{\"id\":3,\"jsonrpc\":\"2.0\",\"result\":true}");
    assert_eq!(framed_message(Ok(vec![7])).unwrap(), vec![7]);
    let e = framed_message(Err("boom".to_string())).unwrap_err();
    assert_eq!(e.code, -32603);
    assert_eq!(e.data, Some(s("failed to serialize message: boom")));
}

#[test]
fn later_members_replace_earlier_ones() {
    let m = obj(vec![("a", num(1)), ("b", num(2)), ("a", num(3))]);
    assert_eq!(m.len(), 2);
    assert_eq!(m.members()[0], ("a".to_string(), num(3)));
    assert_eq!(m.members()[1], ("b".to_string(), num(2)));
}

#[test]
fn new_services_replace_none() {
    let mut reg = Registry::new();
    let first = reg.register_service(&vec!["x".to_string()]);
    reg.add_method("y".to_string());
    let second = reg.register_service(&vec!["z".to_string()]);
    assert_ne!(first, second);
    assert!(reg.has_service(first));
    assert!(reg.has_service(second));
    assert_eq!(reg.route(&"x".to_string()), Some(Handler::Service { service: first, method: 0 }));
    let copy = reg.copy();
    assert_eq!(copy, reg);
}
