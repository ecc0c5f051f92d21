//! What a peer does with each message it receives, and the bookkeeping of the
//! calls it makes: the decisions of the read loop, kept apart from the I/O and
//! the handlers, which the caller runs.
use vstd::prelude::*;
use std::collections::HashMap;
use crate::codec::{encode_json, json_encoding, json_parse, parse_json};
use crate::errors::{
    as_received, failure_error, lemma_member_names_distinct, Failure, PARSE_ERROR, lemma_error_roundtrip, decode_error, error_response_json, id_or_null, plain_error, ErrorV, JsonRpcError, INTERNAL_ERROR,
    INVALID_REQUEST, METHOD_NOT_FOUND,
};
use crate::json::{lemma_get_first, lemma_get_none, group_json_view, obj_get, opt_view, Json, JsonMap, JsonV, NumberV};
use crate::params::{invalid_params_v, DynamicParams};
use crate::registry::{Handler, Registry};
use crate::request::{request_json, JsonRpcRequest, RequestV};
use crate::response::{payload_view, response_json, JsonRpcResponse, ResponseV};

verus! {

broadcast use vstd::std_specs::hash::group_hash_axioms;

/// The reply to a message that is not a valid request.
pub open spec fn invalid_request_v() -> ErrorV {
    plain_error(INVALID_REQUEST, "Invalid Request"@)
}

/// The reply to a call of a method nobody registered.
pub open spec fn method_not_found_v() -> ErrorV {
    plain_error(METHOD_NOT_FOUND, "Method not found"@)
}

/// The outcome of a call routed to a service that is no longer registered.
pub open spec fn missing_service_v() -> ErrorV {
    ErrorV {
        code: INTERNAL_ERROR,
        message: "Internal error"@,
        data: Some(JsonV::Str("registered service no longer exists"@)),
    }
}

/// A request id may be absent (a notification), `null`, a string or a number.
pub open spec fn valid_id(id: Option<JsonV>) -> bool {
    match id {
        None => true,
        Some(JsonV::Null) | Some(JsonV::Str(_)) | Some(JsonV::Number(_)) => true,
        _ => false,
    }
}

/// Whether `id` may identify a request.
pub fn is_valid_id(id: Option<&Json>) -> (r: bool)
    ensures
        r == valid_id(match id {
            Some(v) => Some(v@),
            None => None,
        }),
{
    match id {
        None => true,
        Some(Json::Null) | Some(Json::Str(_)) | Some(Json::Number(_)) => true,
        _ => false,
    }
}

/// The response to request `id` with outcome `payload`; none for a notification.
pub open spec fn reply_for(notification: bool, id: JsonV, payload: Result<JsonV, ErrorV>) -> Option<JsonV> {
    if notification {
        None
    } else {
        Some(response_json(ResponseV { jsonrpc: "2.0"@, id, payload }))
    }
}

/// What a received message asks of the peer.
pub enum RouteV {
    /// Send this reply.
    Reply(JsonV),
    /// Send nothing.
    Silent,
    /// Hand `outcome` to the waiter of outgoing call `call`.
    Deliver { call: u64, outcome: Result<JsonV, ErrorV> },
    /// Run `handler` on `params`; then reply to `id` unless it is a notification.
    Invoke { handler: Handler, params: Seq<(Seq<char>, JsonV)>, id: JsonV, notification: bool },
}

/// A reply for an error, or nothing for a notification.
pub open spec fn error_route(notification: bool, id: JsonV, e: ErrorV) -> RouteV {
    if notification {
        RouteV::Silent
    } else {
        RouteV::Reply(error_response_json(e, id))
    }
}

/// The outcome that a response object carries: its `result` when it has a
/// `result` member and no `error` member, the error of its `error` member
/// when it has only that and it is a valid error object, and an invalid
/// request error otherwise.
pub open spec fn delivery_outcome(obj: Seq<(Seq<char>, JsonV)>) -> Result<JsonV, ErrorV> {
    match (obj_get(obj, "result"@), obj_get(obj, "error"@)) {
        (Some(r), None) => Ok(r),
        (None, Some(e)) => match decode_error(e) {
            Some(e) => Err(e),
            None => Err(invalid_request_v()),
        },
        _ => Err(invalid_request_v()),
    }
}

/// What a response object with id `id` asks: delivery to the waiting call
/// when `id` is a non-negative integer that a call is waiting on, else nothing.
pub open spec fn delivery_route(id: JsonV, obj: Seq<(Seq<char>, JsonV)>, waiting: Set<u64>) -> RouteV {
    match id.spec_as_u64() {
        Some(n) => if waiting.contains(n) {
            RouteV::Deliver { call: n, outcome: delivery_outcome(obj) }
        } else {
            RouteV::Silent
        },
        None => RouteV::Silent,
    }
}

/// The params of a request: its `params` object, none when absent, or
/// nothing valid (`None`) when `params` is anything else.
pub open spec fn request_params(p: Option<JsonV>) -> Option<Seq<(Seq<char>, JsonV)>> {
    match p {
        Some(JsonV::Object(m)) => Some(m),
        None => Some(Seq::empty()),
        Some(_) => None,
    }
}

/// What a received JSON object asks of a peer with methods `reg` whose calls
/// in `waiting` await responses.
pub open spec fn object_route(obj: Seq<(Seq<char>, JsonV)>, reg: Registry, waiting: Set<u64>) -> RouteV {
    let id = obj_get(obj, "id"@);
    if !valid_id(id) {
        RouteV::Reply(error_response_json(invalid_request_v(), JsonV::Null))
    } else if obj_get(obj, "jsonrpc"@) != Some(JsonV::Str("2.0"@)) {
        RouteV::Reply(error_response_json(invalid_request_v(), id_or_null(id)))
    } else {
        match obj_get(obj, "method"@) {
            None => match id {
                Some(i) => delivery_route(i, obj, waiting),
                None => RouteV::Reply(error_response_json(invalid_request_v(), JsonV::Null)),
            },
            Some(JsonV::Str(m)) => {
                let notification = id is None;
                let idv = id_or_null(id);
                match reg.spec_route(m) {
                    None => error_route(notification, idv, method_not_found_v()),
                    Some(h) => match request_params(obj_get(obj, "params"@)) {
                        None => error_route(notification, idv, invalid_params_v()),
                        Some(p) => match h {
                            Handler::Service { service, method } => if reg.spec_has_service(service) {
                                RouteV::Invoke { handler: h, params: p, id: idv, notification }
                            } else {
                                error_route(notification, idv, missing_service_v())
                            },
                            Handler::Method(_) => RouteV::Invoke { handler: h, params: p, id: idv, notification },
                        },
                    },
                }
            },
            Some(_) => RouteV::Reply(error_response_json(invalid_request_v(), id_or_null(id))),
        }
    }
}

/// A handler to run, as a received request asks.
pub struct Invocation {
    pub handler: Handler,
    pub params: DynamicParams,
    pub id: Json,
    pub notification: bool,
}

/// What a received message asks of the peer; `S` is what waits for the
/// response of an outgoing call.
pub enum Route<S> {
    Reply(Json),
    Silent,
    Deliver { id: u64, waiter: S, outcome: Result<Json, JsonRpcError> },
    Invoke(Invocation),
}

impl<S> Route<S> {
    pub open spec fn view_route(self) -> RouteV {
        match self {
            Route::Reply(j) => RouteV::Reply(j@),
            Route::Silent => RouteV::Silent,
            Route::Deliver { id, waiter, outcome } => RouteV::Deliver { call: id, outcome: payload_view(outcome) },
            Route::Invoke(inv) => RouteV::Invoke {
                handler: inv.handler,
                params: inv.params@,
                id: inv.id@,
                notification: inv.notification,
            },
        }
    }
}

/// The ids handed out to calls: the next one, and how many have been
/// handed out.
struct IdCounter {
    next: u64,
    issued: Ghost<nat>,
}

/// The outgoing calls of a peer: the next request id, and the waiter of
/// each call whose response has not arrived.
pub struct Calls<S> {
    counter: IdCounter,
    pending: HashMap<u64, S>,
}

impl<S> Calls<S> {
    /// The waiters of the calls awaiting responses, by request id.
    pub closed spec fn waiting(self) -> Map<u64, S> {
        self.pending@
    }

    /// The id the next call gets.
    pub closed spec fn spec_next_id(self) -> u64 {
        self.counter.next
    }

    /// The number of calls started so far.
    pub closed spec fn spec_calls_made(self) -> nat {
        self.counter.issued@
    }

    /// Ids are handed out in order from 0, wrapping after `u64::MAX`; until
    /// they wrap, every call that waits has an id below the next one.
    #[verifier::type_invariant]
    spec fn ids_fresh(self) -> bool {
        &&& self.counter.next as int == self.counter.issued@ % 0x1_0000_0000_0000_0000
        &&& self.counter.issued@ < 0x1_0000_0000_0000_0000 ==> forall|n: u64|
            #[trigger] self.pending@.contains_key(n) ==> n < self.counter.next
    }

    /// No calls yet.
    pub fn new() -> (c: Calls<S>)
        ensures
            c.waiting() == Map::<u64, S>::empty(),
            c.spec_next_id() == 0,
            c.spec_calls_made() == 0,
    {
        Calls { counter: IdCounter { next: 0, issued: Ghost(0) }, pending: HashMap::new() }
    }

    /// Start a call of `method` with `params` (the outcome of turning the
    /// caller's argument into params), whose response `waiter` awaits. The
    /// call takes the next request id even when it fails. An error in
    /// `params` is returned as it is; a request that cannot be encoded fails
    /// with a parse error; in both cases nothing is registered. Otherwise the
    /// waiter is registered under the id, and the id and the encoded request
    /// are returned. Until 2^64 calls have been made, the id is one no waiting
    /// call has.
    pub fn call(&mut self, method: String, params: Result<Option<Json>, JsonRpcError>, waiter: S) -> (r: Result<(u64, Vec<u8>), JsonRpcError>)
        ensures
            final(self).spec_next_id() == (old(self).spec_next_id() as int + 1) % 0x1_0000_0000_0000_0000,
            final(self).spec_calls_made() == old(self).spec_calls_made() + 1,
            old(self).spec_calls_made() < 0x1_0000_0000_0000_0000 ==> !old(self).waiting().contains_key(old(self).spec_next_id()),
            match params {
                Err(e) => r matches Err(e2) && e2@ == e@ && final(self).waiting() == old(self).waiting(),
                Ok(p) => match json_encoding(call_request(method@, opt_view(p), old(self).spec_next_id())) {
                    Some(bytes) => r matches Ok((id, b)) && id == old(self).spec_next_id() && b@ == bytes
                        && final(self).waiting() == old(self).waiting().insert(id, waiter),
                    None => r matches Err(e2) && e2@ == parse_error_v() && final(self).waiting() == old(self).waiting(),
                },
            },
    {
        proof {
            use_type_invariant(&*self);
        }
        let id = self.counter.next;
        self.counter = IdCounter { next: id.wrapping_add(1), issued: Ghost(self.counter.issued@ + 1) };
        let params = match params {
            Ok(p) => p,
            Err(e) => return Err(e),
        };
        let request = JsonRpcRequest {
            jsonrpc: String::from_str("2.0"),
            method,
            params,
            id: Some(Json::Number(crate::json::JsonNumber::PosInt(id))),
        };
        let json = request.to_json();
        let encoded = encode_json(&json);
        self.register(id, encoded, waiter)
    }

    /// Register call `id`, an id already handed out, once its request has
    /// been encoded as `encoded`: on success the waiter is registered under
    /// the id, and the id and the bytes are returned; a failed encoding is a
    /// parse error, with nothing registered.
    pub fn register(&mut self, id: u64, encoded: Result<Vec<u8>, String>, waiter: S) -> (r: Result<(u64, Vec<u8>), JsonRpcError>)
        requires
            old(self).spec_calls_made() < 0x1_0000_0000_0000_0000 ==> id < old(self).spec_next_id(),
        ensures
            final(self).spec_next_id() == old(self).spec_next_id(),
            final(self).spec_calls_made() == old(self).spec_calls_made(),
            match encoded {
                Ok(b) => r matches Ok((n, b2)) && n == id && b2@ == b@
                    && final(self).waiting() == old(self).waiting().insert(id, waiter),
                Err(_) => r matches Err(e) && e@ == parse_error_v() && final(self).waiting() == old(self).waiting(),
            },
    {
        proof {
            use_type_invariant(&*self);
        }
        match encoded {
            Ok(bytes) => {
                let mut pending: HashMap<u64, S> = HashMap::new();
                std::mem::swap(&mut pending, &mut self.pending);
                pending.insert(id, waiter);
                proof {
                    if self.counter.issued@ < 0x1_0000_0000_0000_0000 {
                        assert forall|n: u64| #[trigger] pending@.contains_key(n) implies n < self.counter.next by {
                            if n != id {
                                assert(old(self).pending@.contains_key(n));
                            }
                        }
                    }
                }
                self.pending = pending;
                Ok((id, bytes))
            },
            Err(_) => Err(JsonRpcError::parse_error()),
        }
    }

    /// Stop waiting on call `id` (its request could not be sent, or its
    /// response has come): its waiter is removed and returned.
    pub fn abandon(&mut self, id: u64) -> (r: Option<S>)
        ensures
            final(self).waiting() == old(self).waiting().remove(id),
            final(self).spec_next_id() == old(self).spec_next_id(),
            final(self).spec_calls_made() == old(self).spec_calls_made(),
            match r {
                Some(w) => old(self).waiting().contains_key(id) && old(self).waiting()[id] == w,
                None => !old(self).waiting().contains_key(id),
            },
    {
        proof {
            use_type_invariant(&*self);
        }
        let mut pending: HashMap<u64, S> = HashMap::new();
        std::mem::swap(&mut pending, &mut self.pending);
        let r = pending.remove(&id);
        proof {
            assert forall|n: u64| #[trigger] pending@.contains_key(n) implies old(self).pending@.contains_key(n) by {}
        }
        self.pending = pending;
        r
    }
}

/// The request that call `n` of `method` with `params` sends.
pub open spec fn call_request(method: Seq<char>, params: Option<JsonV>, n: u64) -> JsonV {
    request_json(RequestV { jsonrpc: "2.0"@, method, params, id: Some(call_id(n)) })
}

/// The notification of `method` with `params`: a request without an id.
pub open spec fn notification_request(method: Seq<char>, params: Option<JsonV>) -> JsonV {
    request_json(RequestV { jsonrpc: "2.0"@, method, params, id: None })
}

/// The error of a message that could not be read or written as JSON.
pub open spec fn parse_error_v() -> ErrorV {
    plain_error(PARSE_ERROR, "Parse error"@)
}

/// A notification of `method` with `params` (the outcome of turning the
/// caller's argument into params): the encoded message to send, which has no
/// id. An error in `params` is returned as it is; a message that cannot be
/// encoded fails with a parse error.
pub fn notification(method: String, params: Result<Option<Json>, JsonRpcError>) -> (r: Result<Vec<u8>, JsonRpcError>)
    ensures
        match params {
            Err(e) => r matches Err(e2) && e2@ == e@,
            Ok(p) => match json_encoding(notification_request(method@, opt_view(p))) {
                Some(bytes) => r matches Ok(b) && b@ == bytes,
                None => r matches Err(e2) && e2@ == parse_error_v(),
            },
        },
{
    let params = match params {
        Ok(p) => p,
        Err(e) => return Err(e),
    };
    let request = JsonRpcRequest { jsonrpc: String::from_str("2.0"), method, params, id: None };
    let json = request.to_json();
    match encode_json(&json) {
        Ok(bytes) => Ok(bytes),
        Err(_) => Err(JsonRpcError::parse_error()),
    }
}

/// A message as sent: its encoding, or, when it cannot be encoded, an error
/// naming the failure (see [`framed_message`]).
pub fn encode_message(message: &Json) -> (r: Result<Vec<u8>, JsonRpcError>)
    ensures
        match json_encoding(message@) {
            Some(bytes) => r matches Ok(b) && b@ == bytes,
            None => r matches Err(e) && exists|d: Seq<char>| e@ == #[trigger] failure_error(Failure::SerializeMessage, d),
        },
{
    framed_message(encode_json(message))
}

/// A message to send once encoded as `encoded`: the bytes, or an internal
/// error carrying the description of the failure.
pub fn framed_message(encoded: Result<Vec<u8>, String>) -> (r: Result<Vec<u8>, JsonRpcError>)
    ensures
        match encoded {
            Ok(b) => r matches Ok(b2) && b2@ == b@,
            Err(d) => r matches Err(e) && e@ == failure_error(Failure::SerializeMessage, d@),
        },
{
    match encoded {
        Ok(bytes) => Ok(bytes),
        Err(detail) => Err(JsonRpcError::failure(Failure::SerializeMessage, detail.as_str())),
    }
}

/// The outcome of a call routed to a service that is no longer registered.
pub fn missing_service() -> (e: JsonRpcError)
    ensures
        e@ == missing_service_v(),
{
    JsonRpcError::internal_error("registered service no longer exists")
}

fn error_reply<S>(notification: bool, id: Json, e: JsonRpcError) -> (r: Route<S>)
    ensures
        r.view_route() == error_route(notification, id@, e@),
{
    if notification {
        Route::Silent
    } else {
        Route::Reply(e.to_response(Some(id)))
    }
}

fn outcome_of(object: &JsonMap) -> (r: Result<Json, JsonRpcError>)
    ensures
        payload_view(r) == delivery_outcome(object@),
{
    let has_result = object.contains_key("result");
    let has_error = object.contains_key("error");
    if has_result && !has_error {
        match object.get("result") {
            Some(v) => Ok(v),
            None => Ok(Json::Null),
        }
    } else if !has_result && has_error {
        match object.get("error") {
            Some(e) => match JsonRpcError::from_json(&e) {
                Some(e) => Err(e),
                None => Err(JsonRpcError::invalid_request()),
            },
            None => Err(JsonRpcError::invalid_request()),
        }
    } else {
        Err(JsonRpcError::invalid_request())
    }
}

/// Hand a response with id `id` to the call waiting on it: nothing happens
/// unless `id` is a non-negative integer that a call waits on; then that
/// call stops waiting and its waiter is returned with the response's outcome.
pub fn deliver_response<S>(id: &Json, object: &JsonMap, calls: &mut Calls<S>) -> (r: Route<S>)
    ensures
        r.view_route() == delivery_route(id@, object@, old(calls).waiting().dom()),
        final(calls).spec_next_id() == old(calls).spec_next_id(),
        final(calls).spec_calls_made() == old(calls).spec_calls_made(),
        match r {
            Route::Deliver { id: n, waiter, .. } => old(calls).waiting().contains_key(n)
                && waiter == old(calls).waiting()[n]
                && final(calls).waiting() == old(calls).waiting().remove(n),
            _ => final(calls).waiting() == old(calls).waiting(),
        },
{
    let n = match id.as_u64() {
        Some(n) => n,
        None => return Route::Silent,
    };
    let waiter = match calls.abandon(n) {
        Some(w) => w,
        None => {
            return Route::Silent;
        },
    };
    let outcome = outcome_of(object);
    Route::Deliver { id: n, waiter, outcome }
}

/// What a received JSON object asks of the peer (see [`object_route`]); a
/// response to one of the peer's calls stops that call waiting.
pub fn handle_object<S>(object: JsonMap, registry: &Registry, calls: &mut Calls<S>) -> (r: Route<S>)
    ensures
        r.view_route() == object_route(object@, *registry, old(calls).waiting().dom()),
        final(calls).spec_next_id() == old(calls).spec_next_id(),
        final(calls).spec_calls_made() == old(calls).spec_calls_made(),
        match r {
            Route::Deliver { id: n, waiter, .. } => old(calls).waiting().contains_key(n)
                && waiter == old(calls).waiting()[n]
                && final(calls).waiting() == old(calls).waiting().remove(n),
            _ => final(calls).waiting() == old(calls).waiting(),
        },
{
    broadcast use group_json_view;
    let id = object.get("id");
    let ghost idv = opt_view(id);
    let valid = match &id {
        Some(v) => is_valid_id(Some(v)),
        None => is_valid_id(None),
    };
    if !valid {
        return Route::Reply(JsonRpcError::invalid_request().to_response(None));
    }
    let version_ok = match object.get("jsonrpc") {
        Some(Json::Str(s)) => {
            let expected = String::from_str("2.0");
            s == expected
        },
        _ => false,
    };
    if !version_ok {
        return Route::Reply(JsonRpcError::invalid_request().to_response(id));
    }
    let method = match object.get("method") {
        None => {
            return match id {
                Some(i) => deliver_response(&i, &object, calls),
                None => Route::Reply(JsonRpcError::invalid_request().to_response(None)),
            };
        },
        Some(Json::Str(m)) => m,
        Some(_) => {
            return Route::Reply(JsonRpcError::invalid_request().to_response(id));
        },
    };
    let notification = id.is_none();
    let id = match id {
        Some(v) => v,
        None => Json::Null,
    };
    let params = object.get("params");
    let handler = match registry.route(&method) {
        Some(h) => h,
        None => {
            return error_reply(notification, id, JsonRpcError::method_not_found());
        },
    };
    let params = match DynamicParams::from_value(params) {
        Ok(p) => p,
        Err(e) => {
            return error_reply(notification, id, e);
        },
    };
    match handler {
        Handler::Service { service, method: _ } => {
            if !registry.has_service(service) {
                return error_reply(notification, id, missing_service());
            }
        },
        Handler::Method(_) => {},
    }
    Route::Invoke(Invocation { handler, params, id, notification })
}

/// The reply to a request once its handler has produced `result`: the
/// response for request `id`, or none for a notification.
pub fn finish_call(id: Json, notification: bool, result: Result<Json, JsonRpcError>) -> (r: Option<Json>)
    ensures
        opt_view(r) == reply_for(notification, id@, payload_view(result)),
{
    if notification {
        return None;
    }
    let response = JsonRpcResponse { jsonrpc: String::from_str("2.0"), id, payload: result };
    Some(response.to_json())
}


/// How a received message is to be handled: a reply for what is neither an
/// object nor a non-empty array, or the items of a batch, or a single object;
/// or, for bytes that are not JSON, a reply whose failure to be sent does not
/// stop the reading.
pub enum Incoming {
    Unreadable(Json),
    Reply(Json),
    Batch(Vec<Json>),
    Single(JsonMap),
}

/// How a received message is to be handled (see [`Incoming`]).
pub open spec fn message_kind(v: JsonV) -> IncomingV {
    match v {
        JsonV::Array(items) => if items.len() == 0 {
            IncomingV::Reply(error_response_json(invalid_request_v(), JsonV::Null))
        } else {
            IncomingV::Batch(items)
        },
        JsonV::Object(m) => IncomingV::Single(m),
        _ => IncomingV::Reply(error_response_json(invalid_request_v(), JsonV::Null)),
    }
}

/// The mathematical value of an [`Incoming`].
pub enum IncomingV {
    Unreadable(JsonV),
    Reply(JsonV),
    Batch(Seq<JsonV>),
    Single(Seq<(Seq<char>, JsonV)>),
}

impl View for Incoming {
    type V = IncomingV;

    open spec fn view(&self) -> IncomingV {
        match self {
            Incoming::Unreadable(j) => IncomingV::Unreadable(j@),
            Incoming::Reply(j) => IncomingV::Reply(j@),
            Incoming::Batch(items) => IncomingV::Batch(items@.map_values(|x: Json| x@)),
            Incoming::Single(m) => IncomingV::Single(m@),
        }
    }
}

/// Sort a received message: an empty batch and anything that is neither an
/// array nor an object get an invalid request reply.
pub fn handle_message(value: Json) -> (r: Incoming)
    ensures
        r@ == message_kind(value@),
{
    broadcast use group_json_view;
    match value {
        Json::Array(items) => if items.len() == 0 {
            Incoming::Reply(JsonRpcError::invalid_request().to_response(None))
        } else {
            Incoming::Batch(items)
        },
        Json::Object(m) => Incoming::Single(m),
        _ => Incoming::Reply(JsonRpcError::invalid_request().to_response(None)),
    }
}

/// How received bytes that parse as `parsed` are to be handled: bytes that
/// are not JSON get a parse error reply with id `null`; a value is sorted as
/// [`message_kind`] says.
pub open spec fn parsed_kind(parsed: Option<JsonV>) -> IncomingV {
    match parsed {
        None => IncomingV::Unreadable(error_response_json(parse_error_v(), JsonV::Null)),
        Some(v) => message_kind(v),
    }
}

/// Sort received bytes once parsed as `parsed` (see [`parsed_kind`]).
pub fn handle_parsed(parsed: Option<Json>) -> (r: Incoming)
    ensures
        r@ == parsed_kind(opt_view(parsed)),
{
    match parsed {
        Some(value) => handle_message(value),
        None => Incoming::Unreadable(JsonRpcError::parse_error().to_response(None)),
    }
}

/// Sort the bytes of a received message: they are parsed as JSON, then
/// handled as [`parsed_kind`] says.
pub fn receive(bytes: &[u8]) -> (r: Incoming)
    ensures
        r@ == parsed_kind(json_parse(bytes@)),
{
    handle_parsed(parse_json(bytes))
}

/// What one item of a batch asks: an object is handled as a message of its
/// own; anything else gets an invalid request reply.
pub open spec fn item_route(v: JsonV, reg: Registry, waiting: Set<u64>) -> RouteV {
    match v {
        JsonV::Object(m) => object_route(m, reg, waiting),
        _ => RouteV::Reply(error_response_json(invalid_request_v(), JsonV::Null)),
    }
}

/// What one item of a batch asks of the peer (see [`item_route`]).
pub fn handle_one<S>(value: Json, registry: &Registry, calls: &mut Calls<S>) -> (r: Route<S>)
    ensures
        r.view_route() == item_route(value@, *registry, old(calls).waiting().dom()),
        final(calls).spec_next_id() == old(calls).spec_next_id(),
        final(calls).spec_calls_made() == old(calls).spec_calls_made(),
        match r {
            Route::Deliver { id: n, waiter, .. } => old(calls).waiting().contains_key(n)
                && waiter == old(calls).waiting()[n]
                && final(calls).waiting() == old(calls).waiting().remove(n),
            _ => final(calls).waiting() == old(calls).waiting(),
        },
{
    broadcast use group_json_view;
    match value {
        Json::Object(m) => handle_object(m, registry, calls),
        _ => Route::Reply(JsonRpcError::invalid_request().to_response(None)),
    }
}

/// The replies among `replies`, in order.
pub open spec fn present(replies: Seq<Option<JsonV>>) -> Seq<JsonV>
    decreases replies.len(),
{
    if replies.len() == 0 {
        Seq::empty()
    } else {
        let rest = present(replies.drop_last());
        match replies.last() {
            Some(v) => rest.push(v),
            None => rest,
        }
    }
}

/// The reply to a batch whose items got `replies`: the array of the items'
/// replies in order, or nothing when no item got one.
pub fn batch_reply(replies: Vec<Option<Json>>) -> (r: Option<Json>)
    ensures
        match r {
            Some(j) => present(replies@.map_values(|o: Option<Json>| opt_view(o))).len() > 0
                && j@ == JsonV::Array(present(replies@.map_values(|o: Option<Json>| opt_view(o)))),
            None => present(replies@.map_values(|o: Option<Json>| opt_view(o))).len() == 0,
        },
{
    broadcast use group_json_view;
    let ghost rv = replies@.map_values(|o: Option<Json>| opt_view(o));
    let mut out: Vec<Json> = Vec::new();
    let mut replies = replies;
    let ghost all = replies@;
    let mut i: usize = 0;
    let n = replies.len();
    while i < n
        invariant
            n == all.len(),
            i <= n,
            rv == all.map_values(|o: Option<Json>| opt_view(o)),
            replies@.len() == n - i,
            forall|j: int| 0 <= j < n - i ==> replies@[j] == all[j + i],
            out@.map_values(|x: Json| x@) == present(rv.subrange(0, i as int)),
        decreases n - i,
    {
        let item = replies.remove(0);
        assert(item == all[i as int]);
        assert(rv.subrange(0, i + 1).drop_last() =~= rv.subrange(0, i as int));
        let ghost prev = out@;
        match item {
            Some(v) => {
                out.push(v);
                assert(out@.map_values(|x: Json| x@) =~= prev.map_values(|x: Json| x@).push(opt_view(all[i as int])->Some_0));
            },
            None => {},
        }
        i = i + 1;
    }
    assert(rv.subrange(0, n as int) =~= rv);
    if out.len() == 0 {
        None
    } else {
        Some(Json::Array(out))
    }
}


/// The outcome of a handler as the caller receives it: the same, except that
/// error data `null` arrives as absent.
pub open spec fn received_outcome(result: Result<JsonV, ErrorV>) -> Result<JsonV, ErrorV> {
    match result {
        Ok(v) => Ok(v),
        Err(e) => Err(as_received(e)),
    }
}

/// The id that call `n` is sent with.
pub open spec fn call_id(n: u64) -> JsonV {
    JsonV::Number(NumberV::PosInt(n))
}

/// A call is answered to the caller. The request that call `n` of `method`
/// with named `params` sends asks a peer that routes `method` to run that
/// handler on those params for request `n`; the reply to it asks the caller,
/// while the call waits, to hand the handler's outcome to call `n`.
pub proof fn lemma_call_answered(
    method: Seq<char>,
    params: Option<JsonV>,
    n: u64,
    callee: Registry,
    callee_waiting: Set<u64>,
    caller: Registry,
    caller_waiting: Set<u64>,
    result: Result<JsonV, ErrorV>,
)
    requires
        params matches Some(p) ==> p is Object,
        callee.spec_route(method) is Some,
        callee.spec_route(method) matches Some(Handler::Service { service, .. }) ==> callee.spec_has_service(service),
        caller_waiting.contains(n),
    ensures
        object_route(
            request_json(RequestV { jsonrpc: "2.0"@, method, params, id: Some(call_id(n)) })->Object_0,
            callee,
            callee_waiting,
        ) == (RouteV::Invoke {
            handler: callee.spec_route(method)->Some_0,
            params: request_params(params)->Some_0,
            id: call_id(n),
            notification: false,
        }),
        reply_for(false, call_id(n), result) is Some,
        object_route(reply_for(false, call_id(n), result)->Some_0->Object_0, caller, caller_waiting)
            == (RouteV::Deliver { call: n, outcome: received_outcome(result) }),
{
    lemma_member_names_distinct();
    let req = request_json(RequestV { jsonrpc: "2.0"@, method, params, id: Some(call_id(n)) })->Object_0;
    lemma_get_first(req, "jsonrpc"@, 0, 0);
    lemma_get_first(req, "method"@, 1, 0);
    match params {
        Some(p) => {
            lemma_get_first(req, "params"@, 2, 0);
            lemma_get_first(req, "id"@, 3, 0);
        },
        None => {
            lemma_get_none(req, "params"@, 0);
            lemma_get_first(req, "id"@, 2, 0);
        },
    }
    let resp = reply_for(false, call_id(n), result)->Some_0->Object_0;
    lemma_get_first(resp, "jsonrpc"@, 0, 0);
    lemma_get_first(resp, "id"@, 1, 0);
    lemma_get_none(resp, "method"@, 0);
    match result {
        Ok(v) => {
            lemma_get_first(resp, "result"@, 2, 0);
            lemma_get_none(resp, "error"@, 0);
        },
        Err(e) => {
            lemma_get_none(resp, "result"@, 0);
            lemma_get_first(resp, "error"@, 2, 0);
            lemma_error_roundtrip(e);
        },
    }
}

/// Calls are numbered from 0 in the order they are made: along the states
/// of a `Calls` that starts new, where each step is one call (which takes the
/// next id and advances it by one), call `j` gets id `j`.
pub proof fn lemma_ids_count_from_zero(next: Seq<u64>, ids: Seq<u64>)
    requires
        next.len() == ids.len() + 1,
        next[0] == 0,
        ids.len() <= u64::MAX,
        forall|j: int| 0 <= j < ids.len() ==> #[trigger] ids[j] == next[j]
            && next[j + 1] == (next[j] as int + 1) % 0x1_0000_0000_0000_0000,
    ensures
        forall|j: int| 0 <= j < ids.len() ==> #[trigger] ids[j] == j,
    decreases ids.len(),
{
    if ids.len() > 0 {
        let n2 = next.drop_last();
        let i2 = ids.drop_last();
        assert forall|j: int| 0 <= j < i2.len() implies #[trigger] i2[j] == n2[j]
            && n2[j + 1] == (n2[j] as int + 1) % 0x1_0000_0000_0000_0000 by {
            assert(ids[j] == next[j]);
        }
        lemma_ids_count_from_zero(n2, i2);
        let k = ids.len() - 1;
        assert forall|j: int| 0 <= j < ids.len() implies #[trigger] ids[j] == j by {
            if j < k {
                assert(i2[j] == j);
            } else {
                assert(ids[k] == next[k]);
                if k > 0 {
                    assert(i2[k - 1] == k - 1);
                    assert(ids[k - 1] == next[k - 1]);
                }
            }
        }
    }
}

/// A well-formed notification is never answered: it is either ignored or run
/// with nothing to reply.
pub proof fn lemma_notification_unanswered(obj: Seq<(Seq<char>, JsonV)>, reg: Registry, waiting: Set<u64>)
    requires
        obj_get(obj, "id"@) is None,
        obj_get(obj, "jsonrpc"@) == Some(JsonV::Str("2.0"@)),
        obj_get(obj, "method"@) matches Some(JsonV::Str(_)),
    ensures
        object_route(obj, reg, waiting) matches RouteV::Silent
            || object_route(obj, reg, waiting) matches RouteV::Invoke { notification: true, .. },
        forall|id: JsonV, r: Result<JsonV, ErrorV>| #[trigger] reply_for(true, id, r) is None,
{
}

/// Every reply to a request carries the request's id: whatever a message with
/// a method and a valid id `v` asks, its reply, now or once its handler has
/// run, has id `v`.
pub proof fn lemma_reply_carries_id(obj: Seq<(Seq<char>, JsonV)>, reg: Registry, waiting: Set<u64>, v: JsonV, outcome: Result<JsonV, ErrorV>)
    requires
        obj_get(obj, "id"@) == Some(v),
        valid_id(Some(v)),
        obj_get(obj, "method"@) is Some,
    ensures
        match object_route(obj, reg, waiting) {
            RouteV::Reply(j) => j is Object && obj_get(j->Object_0, "id"@) == Some(v),
            RouteV::Invoke { id, notification, .. } => {
                &&& id == v
                &&& !notification
                &&& reply_for(notification, id, outcome) matches Some(j)
                &&& obj_get(j->Object_0, "id"@) == Some(v)
            },
            _ => false,
        },
{
    lemma_member_names_distinct();
    let route = object_route(obj, reg, waiting);
    match route {
        RouteV::Reply(j) => {
            lemma_get_first(j->Object_0, "id"@, 1, 0);
        },
        RouteV::Invoke { id, notification, .. } => {
            let j = reply_for(notification, id, outcome)->Some_0;
            lemma_get_first(j->Object_0, "id"@, 1, 0);
        },
        _ => {},
    }
}

/// A response is delivered at most once: once it has been handed to the call
/// waiting on it, the same response asks nothing more.
pub proof fn lemma_delivered_once(obj: Seq<(Seq<char>, JsonV)>, reg: Registry, waiting: Set<u64>)
    ensures
        object_route(obj, reg, waiting) matches RouteV::Deliver { call: n, .. } ==> object_route(
            obj,
            reg,
            waiting.remove(n),
        ) == RouteV::Silent,
{
}


/// A batch is answered by the replies of its items in order: when no item
/// gets a reply (all are notifications), the batch gets none; otherwise it
/// gets as many replies as its items do.
pub proof fn lemma_batch_replies(replies: Seq<Option<JsonV>>)
    ensures
        (forall|i: int| 0 <= i < replies.len() ==> replies[i] is None) ==> present(replies).len() == 0,
        present(replies).len() <= replies.len(),
    decreases replies.len(),
{
    if replies.len() > 0 {
        lemma_batch_replies(replies.drop_last());
        if forall|i: int| 0 <= i < replies.len() ==> replies[i] is None {
            assert forall|i: int| 0 <= i < replies.drop_last().len() implies replies.drop_last()[i] is None by {
                assert(replies[i] is None);
            }
            assert(replies[replies.len() - 1] is None);
        }
    }
}


/// The members of a request as sent: `jsonrpc` and `method`, then `params`
/// and `id` exactly when they are given.
proof fn lemma_request_members(r: RequestV)
    ensures
        request_json(r) is Object,
        obj_get(request_json(r)->Object_0, "jsonrpc"@) == Some(JsonV::Str(r.jsonrpc)),
        obj_get(request_json(r)->Object_0, "method"@) == Some(JsonV::Str(r.method)),
        obj_get(request_json(r)->Object_0, "params"@) == r.params,
        obj_get(request_json(r)->Object_0, "id"@) == r.id,
{
    lemma_member_names_distinct();
    let m = request_json(r)->Object_0;
    lemma_get_first(m, "jsonrpc"@, 0, 0);
    lemma_get_first(m, "method"@, 1, 0);
    match r.params {
        Some(_) => {
            lemma_get_first(m, "params"@, 2, 0);
            match r.id {
                Some(_) => lemma_get_first(m, "id"@, 3, 0),
                None => lemma_get_none(m, "id"@, 0),
            }
        },
        None => {
            lemma_get_none(m, "params"@, 0);
            match r.id {
                Some(_) => lemma_get_first(m, "id"@, 2, 0),
                None => lemma_get_none(m, "id"@, 0),
            }
        },
    }
}

/// The request that call `n` sends is a JSON-RPC 2.0 object naming the
/// method, carrying the params exactly when they are given, and carrying the
/// call's own id `n`, the id under which its waiter is registered.
pub proof fn lemma_call_request_members(method: Seq<char>, params: Option<JsonV>, n: u64)
    ensures
        call_request(method, params, n) is Object,
        obj_get(call_request(method, params, n)->Object_0, "jsonrpc"@) == Some(JsonV::Str("2.0"@)),
        obj_get(call_request(method, params, n)->Object_0, "method"@) == Some(JsonV::Str(method)),
        obj_get(call_request(method, params, n)->Object_0, "params"@) == params,
        obj_get(call_request(method, params, n)->Object_0, "id"@) == Some(JsonV::Number(NumberV::PosInt(n))),
{
    lemma_request_members(RequestV { jsonrpc: "2.0"@, method, params, id: Some(call_id(n)) });
}

/// A notification is a JSON-RPC 2.0 object naming the method, carrying the
/// params exactly when they are given, and without an id.
pub proof fn lemma_notification_members(method: Seq<char>, params: Option<JsonV>)
    ensures
        notification_request(method, params) is Object,
        obj_get(notification_request(method, params)->Object_0, "jsonrpc"@) == Some(JsonV::Str("2.0"@)),
        obj_get(notification_request(method, params)->Object_0, "method"@) == Some(JsonV::Str(method)),
        obj_get(notification_request(method, params)->Object_0, "params"@) == params,
        obj_get(notification_request(method, params)->Object_0, "id"@) is None,
{
    lemma_request_members(RequestV { jsonrpc: "2.0"@, method, params, id: None });
}

/// The id a message is answered with: its own, or `null` when it has none.
pub open spec fn answer_id(obj: Seq<(Seq<char>, JsonV)>) -> JsonV {
    match obj_get(obj, "id"@) {
        Some(v) => v,
        None => JsonV::Null,
    }
}

/// A message with an id that is neither `null`, a string nor a number is
/// answered Invalid Request (-32600) with id `null`.
pub proof fn lemma_bad_id_rejected(obj: Seq<(Seq<char>, JsonV)>, reg: Registry, waiting: Set<u64>, v: JsonV)
    requires
        obj_get(obj, "id"@) == Some(v),
        !(v is Null || v is Str || v is Number),
    ensures
        object_route(obj, reg, waiting) == RouteV::Reply(
            error_response_json(plain_error(-32600i64, "Invalid Request"@), JsonV::Null),
        ),
{
}

/// A message with an acceptable id (or none) whose version is not "2.0", or
/// whose method member is present but not a string, is answered Invalid
/// Request (-32600) carrying its id.
pub proof fn lemma_malformed_rejected(obj: Seq<(Seq<char>, JsonV)>, reg: Registry, waiting: Set<u64>)
    requires
        obj_get(obj, "id"@) matches Some(v) ==> (v is Null || v is Str || v is Number),
        obj_get(obj, "jsonrpc"@) != Some(JsonV::Str("2.0"@))
            || (obj_get(obj, "method"@) matches Some(x) && !(x is Str)),
    ensures
        object_route(obj, reg, waiting) == RouteV::Reply(
            error_response_json(plain_error(-32600i64, "Invalid Request"@), answer_id(obj)),
        ),
{
}

/// A well-formed request or notification of method `m`: a method nobody
/// routes is answered Method not found (-32601) carrying the request's id;
/// params that are present but not an object are answered Invalid params
/// (-32602) carrying the id; a notification is never answered.
pub proof fn lemma_request_errors(obj: Seq<(Seq<char>, JsonV)>, reg: Registry, waiting: Set<u64>, m: Seq<char>)
    requires
        obj_get(obj, "id"@) matches Some(v) ==> (v is Null || v is Str || v is Number),
        obj_get(obj, "jsonrpc"@) == Some(JsonV::Str("2.0"@)),
        obj_get(obj, "method"@) == Some(JsonV::Str(m)),
    ensures
        reg.spec_route(m) is None ==> object_route(obj, reg, waiting) == if obj_get(obj, "id"@) is None {
            RouteV::Silent
        } else {
            RouteV::Reply(error_response_json(plain_error(-32601i64, "Method not found"@), answer_id(obj)))
        },
        reg.spec_route(m) is Some && (obj_get(obj, "params"@) matches Some(p) && !(p is Object))
            ==> object_route(obj, reg, waiting) == if obj_get(obj, "id"@) is None {
            RouteV::Silent
        } else {
            RouteV::Reply(error_response_json(plain_error(-32602i64, "Invalid params"@), answer_id(obj)))
        },
        match reg.spec_route(m) {
            Some(h) => (obj_get(obj, "params"@) matches Some(p) ==> p is Object)
                && (h matches Handler::Service { service, .. } ==> reg.spec_has_service(service))
                ==> object_route(obj, reg, waiting) == (RouteV::Invoke {
                handler: h,
                params: match obj_get(obj, "params"@) {
                    Some(p) => p->Object_0,
                    None => Seq::empty(),
                },
                id: answer_id(obj),
                notification: obj_get(obj, "id"@) is None,
            }),
            None => true,
        },
{
}

/// A batch's reply holds the reply of every item that got one, each once and
/// in the order of the items, and nothing else; so it has as many replies as
/// there are items that got one.
pub proof fn lemma_batch_keeps_every_reply(replies: Seq<Option<JsonV>>)
    ensures
        present(replies) == replies.filter_map(|o: Option<JsonV>| o),
        present(replies).len() == replies.filter(|o: Option<JsonV>| o is Some).len(),
    decreases replies.len(),
{
    if replies.len() > 0 {
        lemma_batch_keeps_every_reply(replies.drop_last());
        let rest = replies.drop_last();
        let pred = |o: Option<JsonV>| o is Some;
        reveal(Seq::filter);
        assert(replies.filter(pred) == if pred(replies.last()) {
            rest.filter(pred).push(replies.last())
        } else {
            rest.filter(pred)
        });
        match replies.last() {
            Some(v) => {
                assert(rest.filter_map(|o: Option<JsonV>| o) + seq![v] =~= rest.filter_map(|o: Option<JsonV>| o).push(v));
            },
            None => {},
        }
    }
}


/// The standard errors of the protocol, by code and message.
pub proof fn lemma_standard_errors()
    ensures
        parse_error_v() == plain_error(-32700i64, "Parse error"@),
        invalid_request_v() == plain_error(-32600i64, "Invalid Request"@),
        method_not_found_v() == plain_error(-32601i64, "Method not found"@),
        invalid_params_v() == plain_error(-32602i64, "Invalid params"@),
{
}

/// How received bytes are sorted: bytes that are not JSON get a Parse error
/// (-32700) reply with id `null`; a non-empty array is a batch of its items;
/// an object is a single message; an empty array or any other value gets an
/// Invalid Request (-32600) reply with id `null`.
pub proof fn lemma_received_kinds(parsed: Option<JsonV>)
    ensures
        match parsed {
            None => parsed_kind(parsed) == IncomingV::Unreadable(
                error_response_json(plain_error(-32700i64, "Parse error"@), JsonV::Null),
            ),
            Some(JsonV::Array(items)) => parsed_kind(parsed) == if items.len() > 0 {
                IncomingV::Batch(items)
            } else {
                IncomingV::Reply(error_response_json(plain_error(-32600i64, "Invalid Request"@), JsonV::Null))
            },
            Some(JsonV::Object(m)) => parsed_kind(parsed) == IncomingV::Single(m),
            Some(_) => parsed_kind(parsed) == IncomingV::Reply(
                error_response_json(plain_error(-32600i64, "Invalid Request"@), JsonV::Null),
            ),
        },
{
}

/// A response with the id `n` of a waiting call is delivered to that call,
/// with its `result` when it has only that, or the error of its `error`
/// member when it has only that and it reads as an error; a response whose
/// id no call waits on is ignored.
pub proof fn lemma_response_delivered(obj: Seq<(Seq<char>, JsonV)>, reg: Registry, waiting: Set<u64>, n: u64)
    requires
        obj_get(obj, "id"@) == Some(JsonV::Number(NumberV::PosInt(n))),
        obj_get(obj, "jsonrpc"@) == Some(JsonV::Str("2.0"@)),
        obj_get(obj, "method"@) is None,
    ensures
        !waiting.contains(n) ==> object_route(obj, reg, waiting) == RouteV::Silent,
        waiting.contains(n) ==> match object_route(obj, reg, waiting) {
            RouteV::Deliver { call, outcome } => call == n && match (obj_get(obj, "result"@), obj_get(obj, "error"@)) {
                (Some(r), None) => outcome == Ok::<JsonV, ErrorV>(r),
                (None, Some(e)) => match decode_error(e) {
                    Some(x) => outcome == Err::<JsonV, ErrorV>(x),
                    None => outcome == Err::<JsonV, ErrorV>(plain_error(-32600i64, "Invalid Request"@)),
                },
                _ => outcome == Err::<JsonV, ErrorV>(plain_error(-32600i64, "Invalid Request"@)),
            },
            _ => false,
        },
{
}

} // verus!
