//! Outgoing calls and notifications.
use vstd::prelude::*;
use crate::errors::lemma_member_names_distinct;
use crate::json::{group_json_view, opt_view, Json, JsonMap, JsonV};

verus! {

/// A request or notification as sent: a notification has no `id`.
#[derive(Debug, PartialEq)]
pub struct JsonRpcRequest {
    pub jsonrpc: String,
    pub method: String,
    pub params: Option<Json>,
    pub id: Option<Json>,
}

/// The mathematical value of a [`JsonRpcRequest`].
pub struct RequestV {
    pub jsonrpc: Seq<char>,
    pub method: Seq<char>,
    pub params: Option<JsonV>,
    pub id: Option<JsonV>,
}

impl View for JsonRpcRequest {
    type V = RequestV;

    open spec fn view(&self) -> RequestV {
        RequestV {
            jsonrpc: self.jsonrpc@,
            method: self.method@,
            params: opt_view(self.params),
            id: opt_view(self.id),
        }
    }
}

/// `members` followed by member `name` when `value` is present.
pub open spec fn push_present(members: Seq<(Seq<char>, JsonV)>, name: Seq<char>, value: Option<JsonV>) -> Seq<(Seq<char>, JsonV)> {
    match value {
        Some(v) => members.push((name, v)),
        None => members,
    }
}

/// The wire form of a request: `jsonrpc` and `method`, then `params` and `id`
/// when present.
pub open spec fn request_json(r: RequestV) -> JsonV {
    JsonV::Object(
        push_present(
            push_present(seq![("jsonrpc"@, JsonV::Str(r.jsonrpc)), ("method"@, JsonV::Str(r.method))], "params"@, r.params),
            "id"@,
            r.id,
        ),
    )
}

impl JsonRpcRequest {
    /// The wire form of this request.
    pub fn to_json(self) -> (r: Json)
        ensures
            r@ == request_json(self@),
    {
        broadcast use group_json_view;
        let ghost v = self@;
        proof {
            lemma_member_names_distinct();
        }
        let mut map = JsonMap::new();
        map.push_new(String::from_str("jsonrpc"), Json::Str(self.jsonrpc));
        map.push_new(String::from_str("method"), Json::Str(self.method));
        if let Some(p) = self.params {
            map.push_new(String::from_str("params"), p);
        }
        if let Some(id) = self.id {
            map.push_new(String::from_str("id"), id);
        }
        assert(map@ =~= request_json(v)->Object_0);
        Json::Object(map)
    }
}

} // verus!
