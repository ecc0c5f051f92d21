# rustsonrpc

A bidirectional JSON-RPC 2.0 peer: one connection can call remote methods,
answer remote calls, and send and receive notifications. Params are named only.

- `src/` is the verified library: the JSON model (`json`), reading and
  writing JSON through serde_json (`codec`), errors and their
  wire form (`errors`), params (`params`), requests and responses
  (`request`, `response`), the method table (`registry`), what a peer does
  with each received message and how its own calls are matched to their
  responses (`peer`), newline framing and WebSocket frame handling
  (`transport`), decimal text of integers (`text`), the accept loop's
  decisions (`server`),
  and the rules that expose a service's methods (`service_methods`).
- `app/` runs it: async peers and servers on tokio over TCP, WebSocket and
  stdio, with serde_json converting the values that handlers take and give.
- `tests/` exercises the library on concrete messages.

The `#[rpc_service]` and `#[rpc_method]` attributes and the `Params` derive
are procedural macros, which need a crate of their own; this project has
none. Their rules are the verified `service_methods` module (which methods
are exposed, under which names and numbers, and how a call of one is
answered), and a service implements `Service` by hand: `methods()` lists the
exposed names, and `dispatch` reads params with `ParamsExt::get_as` (a param
that does not decode is Invalid params), runs the method, hands its result to
`service::answer`, and answers a number beyond `methods()` with
`JsonRpcError::method_not_found()`. Typed params are read and written with
`ParamsExt::get_as` and `with_value`.
