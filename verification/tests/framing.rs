use rustsonrpc::json::{Json, JsonMap};
use rustsonrpc::server::{accept_step, should_stop, AcceptAction, AcceptEvent};
use rustsonrpc::errors::JsonRpcError;
use rustsonrpc::service_methods::{
    arm_outcome, dispatch_arm, dispatch_target, rpc_method_name, rpc_service, AttrValue, MethodAttr, MethodDecl,
};
use rustsonrpc::transport::{
    header_map_to_value, tcp_metadata, trim_line, ws_metadata, ws_read_step, LineReader, LineWriter, MessageReader,
    MessageWriter, WsFrame,
};

fn s(text: &str) -> Json {
    Json::Str(text.to_string())
}

#[test]
fn lines_are_messages() {
    let mut w = LineWriter::new();
    w.write_message(b"{\"a\":1}".to_vec()).unwrap();
    w.write_message(b"[]".to_vec()).unwrap();
    let bytes = w.take();
    assert_eq!(bytes, b"{\"a\":1}\n[]\n".to_vec());
    assert_eq!(w.take(), Vec::<u8>::new());
    let mut r = LineReader::new();
    r.feed(&bytes[..3]);
    assert!(r.read_message().is_none());
    r.feed(&bytes[3..]);
    assert_eq!(r.read_message(), Some(Ok(b"{\"a\":1}".to_vec())));
    assert_eq!(r.read_message(), Some(Ok(b"[]".to_vec())));
    assert!(r.read_message().is_none());
}

#[test]
fn line_endings_are_trimmed() {
    assert_eq!(trim_line(b"abc\r\n".to_vec()), b"abc".to_vec());
    assert_eq!(trim_line(b"abc\r\r\n\n".to_vec()), b"abc".to_vec());
    assert_eq!(trim_line(b"\n".to_vec()), Vec::<u8>::new());
    assert_eq!(trim_line(b"a\rb".to_vec()), b"a\rb".to_vec());
}

#[test]
fn end_of_stream() {
    let mut r = LineReader::new();
    r.feed(b"partial");
    r.end();
    assert_eq!(r.read_message(), Some(Ok(b"partial".to_vec())));
    let e = r.read_message().unwrap().unwrap_err();
    assert_eq!(e.code, -32000);
    assert_eq!(e.message, "connection closed");
}

#[test]
fn websocket_frames() {
    assert_eq!(ws_read_step(Some(Ok(WsFrame::Binary(vec![1, 2])))), Some(Ok(vec![1, 2])));
    assert_eq!(ws_read_step(Some(Ok(WsFrame::Text(b"hi".to_vec())))), Some(Ok(b"hi".to_vec())));
    assert_eq!(ws_read_step(Some(Ok(WsFrame::Control))), None);
    assert_eq!(ws_read_step(Some(Ok(WsFrame::Close))).unwrap().unwrap_err().message, "websocket closed by peer");
    assert_eq!(ws_read_step(None).unwrap().unwrap_err().message, "websocket stream ended");
    assert_eq!(ws_read_step(Some(Err("reset".to_string()))).unwrap().unwrap_err().message, "websocket read failed: reset");
}

#[test]
fn metadata_objects() {
    let headers = vec![
        ("host".to_string(), b"example".to_vec()),
        ("x".to_string(), vec![0xff, b'a']),
        ("host".to_string(), b"later".to_vec()),
    ];
    let m = header_map_to_value(&headers);
    assert_eq!(m.get("host"), Some(s("later")));
    assert_eq!(m.get("x"), Some(s("\u{fffd}a")));
    assert_eq!(m.len(), 2);
    let t = tcp_metadata(Some("127.0.0.1:80".to_string()));
    assert_eq!(t, Json::Object(JsonMap::from_members(vec![("address".to_string(), s("127.0.0.1:80"))])));
    assert_eq!(tcp_metadata(None), Json::Object(JsonMap::from_members(vec![("address".to_string(), Json::Null)])));
    let w = ws_metadata(s("ws://h/rpc"), JsonMap::new());
    assert_eq!(
        w,
        Json::Object(JsonMap::from_members(vec![
            ("address".to_string(), s("ws://h/rpc")),
            ("headers".to_string(), Json::Object(JsonMap::new())),
        ]))
    );
}

#[test]
fn accept_loop_steps() {
    assert!(matches!(accept_step(AcceptEvent::Accepted), AcceptAction::StartPeer));
    assert!(matches!(accept_step(AcceptEvent::AcceptFailed), AcceptAction::KeepAccepting));
    assert!(matches!(accept_step(AcceptEvent::CloseSignal(Some(false))), AcceptAction::KeepAccepting));
    assert!(matches!(accept_step(AcceptEvent::CloseSignal(Some(true))), AcceptAction::Stop));
    assert!(matches!(accept_step(AcceptEvent::CloseSignal(None)), AcceptAction::Stop));
    assert!(should_stop(None));
    assert!(!should_stop(Some(false)));
}

fn decl(ident: &str, attr: Option<MethodAttr>, args: Vec<Option<&str>>) -> MethodDecl {
    MethodDecl {
        ident: ident.to_string(),
        attr,
        takes_self: true,
        args: args.into_iter().map(|a| a.map(|x| x.to_string())).collect(),
        returns: true,
        is_async: false,
    }
}

#[test]
fn method_names() {
    assert_eq!(rpc_method_name(&"add".to_string(), &MethodAttr::Bare), Ok("add".to_string()));
    assert_eq!(rpc_method_name(&"add".to_string(), &MethodAttr::Literal("math.add".to_string())), Ok("math.add".to_string()));
    assert_eq!(
        rpc_method_name(&"add".to_string(), &MethodAttr::NameValue { path_is_name: true, value: AttrValue::Str("m".to_string()) }),
        Ok("m".to_string())
    );
    assert_eq!(
        rpc_method_name(&"add".to_string(), &MethodAttr::NameValue { path_is_name: false, value: AttrValue::Str("m".to_string()) }),
        Err("expected `name = \"...\"`".to_string())
    );
    assert_eq!(
        rpc_method_name(&"add".to_string(), &MethodAttr::NameValue { path_is_name: true, value: AttrValue::OtherLit }),
        Err("expected string literal".to_string())
    );
    assert!(rpc_method_name(&"add".to_string(), &MethodAttr::Assigned).is_err());
}

#[test]
fn method_signatures() {
    let ok = dispatch_arm(&decl("add", None, vec![Some("a"), Some("b")]), 3).unwrap();
    assert_eq!(ok.index, 3);
    assert_eq!(ok.arg_keys, vec!["a".to_string(), "b".to_string()]);
    assert_eq!(
        dispatch_arm(&decl("add", None, vec![Some("a"), None]), 0).err(),
        Some("rpc method params must be simple named arguments".to_string())
    );
    let mut no_self = decl("f", None, vec![]);
    no_self.takes_self = false;
    assert_eq!(dispatch_arm(&no_self, 0).err(), Some("rpc methods must take `&self` as their first parameter".to_string()));
    let mut no_ret = decl("f", None, vec![]);
    no_ret.returns = false;
    assert_eq!(dispatch_arm(&no_ret, 0).err(), Some("rpc methods must return `JsonRpcResult<T>`".to_string()));
}

#[test]
fn service_plan_numbers_methods() {
    let mut broken = decl("bad", Some(MethodAttr::Bare), vec![None]);
    broken.is_async = true;
    let methods = vec![
        decl("new", None, vec![]),
        decl("add", Some(MethodAttr::Literal("math.add".to_string())), vec![Some("a"), Some("b")]),
        broken,
        decl("divide", Some(MethodAttr::Literal("math.divide".to_string())), vec![Some("a"), Some("b")]),
        decl("odd", Some(MethodAttr::Assigned), vec![]),
    ];
    let plan = rpc_service(&methods);
    assert_eq!(plan.names, vec!["math.add".to_string(), "math.divide".to_string()]);
    assert_eq!(plan.entries.len(), 2);
    assert_eq!(plan.entries[0].index, 0);
    assert_eq!(plan.entries[0].method, "add");
    assert_eq!(plan.entries[1].index, 1);
    assert_eq!(plan.entries[1].method, "divide");
    assert_eq!(plan.errors.len(), 2);
    assert_eq!(dispatch_target(&plan, 1).unwrap().method, "divide");
    assert_eq!(dispatch_target(&plan, 2).err(), Some(JsonRpcError::method_not_found()));
    assert_eq!(dispatch_target(&plan, u32::MAX).err(), Some(JsonRpcError::method_not_found()));
}

#[test]
fn method_arm_answers() {
    assert_eq!(arm_outcome(&vec![true, false], None), Err(JsonRpcError::invalid_params()));
    assert_eq!(
        arm_outcome(&vec![false], Some(Ok(Ok(s("never"))))),
        Err(JsonRpcError::invalid_params())
    );
    assert_eq!(arm_outcome(&vec![true, true], Some(Ok(Ok(s("five"))))), Ok(s("five")));
    assert_eq!(arm_outcome(&vec![], Some(Err(JsonRpcError::transport_error("x")))), Err(JsonRpcError::transport_error("x")));
    let e = arm_outcome(&vec![true], Some(Ok(Err("key must be a string".to_string())))).unwrap_err();
    assert_eq!(e.code, -32603);
    assert_eq!(e.message, "Internal error");
    assert_eq!(e.data, Some(s("failed to serialize RPC result: key must be a string")));
}
