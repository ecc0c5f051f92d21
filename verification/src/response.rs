//! Responses: their wire form and how one is read back.
use vstd::prelude::*;
use crate::errors::{as_received, lemma_member_names_distinct, lemma_error_roundtrip, decode_error, decode_optional, error_json, json_optional, ErrorV, JsonRpcError};
use crate::json::{lemma_get_first, lemma_get_none, group_json_view, obj_get, opt_view, Json, JsonMap, JsonV};

verus! {

/// A response: the id of the request it answers and either its result or
/// its error.
#[derive(Debug, PartialEq)]
pub struct JsonRpcResponse {
    pub jsonrpc: String,
    pub id: Json,
    pub payload: Result<Json, JsonRpcError>,
}

/// The mathematical value of a [`JsonRpcResponse`].
pub struct ResponseV {
    pub jsonrpc: Seq<char>,
    pub id: JsonV,
    pub payload: Result<JsonV, ErrorV>,
}

/// A payload seen through the values of its contents.
pub open spec fn payload_view(p: Result<Json, JsonRpcError>) -> Result<JsonV, ErrorV> {
    match p {
        Ok(v) => Ok(v@),
        Err(e) => Err(e@),
    }
}

impl View for JsonRpcResponse {
    type V = ResponseV;

    open spec fn view(&self) -> ResponseV {
        ResponseV { jsonrpc: self.jsonrpc@, id: self.id@, payload: payload_view(self.payload) }
    }
}

/// The wire form of a response: `jsonrpc`, `id`, then `result` or `error`.
pub open spec fn response_json(r: ResponseV) -> JsonV {
    let base = seq![("jsonrpc"@, JsonV::Str(r.jsonrpc)), ("id"@, r.id)];
    match r.payload {
        Ok(v) => JsonV::Object(base.push(("result"@, v))),
        Err(e) => JsonV::Object(base.push(("error"@, error_json(e)))),
    }
}

/// The response made of the given `jsonrpc`, `id`, `result` and `error`
/// fields: `jsonrpc` a string, `id` present, and exactly one of `result` and
/// `error` present and not `null`, the error a valid error object.
pub open spec fn response_from_fields(
    jsonrpc: Option<JsonV>,
    id: Option<JsonV>,
    result: Option<JsonV>,
    error: Option<JsonV>,
) -> Option<ResponseV> {
    match (jsonrpc, id) {
        (Some(JsonV::Str(j)), Some(id)) => {
            let error = match decode_optional(error) {
                None => Some(None),
                Some(e) => match decode_error(e) {
                    Some(e) => Some(Some(e)),
                    None => None,
                },
            };
            match (decode_optional(result), error) {
                (Some(r), Some(None)) => Some(ResponseV { jsonrpc: j, id, payload: Ok(r) }),
                (None, Some(Some(e))) => Some(ResponseV { jsonrpc: j, id, payload: Err(e) }),
                _ => None,
            }
        },
        _ => None,
    }
}

/// The response that `v` reads as: an object with the members above (others
/// are ignored), or the four fields in order as an array of exactly four items.
pub open spec fn decode_response(v: JsonV) -> Option<ResponseV> {
    match v {
        JsonV::Object(m) => response_from_fields(
            obj_get(m, "jsonrpc"@),
            obj_get(m, "id"@),
            obj_get(m, "result"@),
            obj_get(m, "error"@),
        ),
        JsonV::Array(items) => if items.len() == 4 {
            response_from_fields(Some(items[0]), Some(items[1]), Some(items[2]), Some(items[3]))
        } else {
            None
        },
        _ => None,
    }
}

fn response_from_parts(jsonrpc: Option<Json>, id: Option<Json>, result: Option<Json>, error: Option<Json>) -> (r: Option<JsonRpcResponse>)
    ensures
        match r {
            Some(x) => response_from_fields(opt_view(jsonrpc), opt_view(id), opt_view(result), opt_view(error)) == Some(x@),
            None => response_from_fields(opt_view(jsonrpc), opt_view(id), opt_view(result), opt_view(error)) is None,
        },
{
    match (jsonrpc, id) {
        (Some(Json::Str(j)), Some(id)) => {
            let error = match json_optional(error) {
                None => Some(None),
                Some(e) => match JsonRpcError::from_json(&e) {
                    Some(e) => Some(Some(e)),
                    None => None,
                },
            };
            match (json_optional(result), error) {
                (Some(r), Some(None)) => Some(JsonRpcResponse { jsonrpc: j, id, payload: Ok(r) }),
                (None, Some(Some(e))) => Some(JsonRpcResponse { jsonrpc: j, id, payload: Err(e) }),
                _ => None,
            }
        },
        _ => None,
    }
}

impl JsonRpcResponse {
    /// The wire form of this response.
    pub fn to_json(self) -> (r: Json)
        ensures
            r@ == response_json(self@),
    {
        broadcast use group_json_view;
        let ghost v = self@;
        proof {
            lemma_member_names_distinct();
        }
        let mut map = JsonMap::new();
        map.push_new(String::from_str("jsonrpc"), Json::Str(self.jsonrpc));
        map.push_new(String::from_str("id"), self.id);
        match self.payload {
            Ok(result) => map.push_new(String::from_str("result"), result),
            Err(error) => map.push_new(String::from_str("error"), error.to_json()),
        }
        assert(map@ =~= response_json(v)->Object_0);
        Json::Object(map)
    }

    /// The response that `v` reads as (see [`decode_response`]); `None` when
    /// `v` is not a well-formed response.
    pub fn from_json(v: &Json) -> (r: Option<JsonRpcResponse>)
        ensures
            match r {
                Some(x) => decode_response(v@) == Some(x@),
                None => decode_response(v@) is None,
            },
    {
        broadcast use group_json_view;
        match v {
            Json::Object(m) => response_from_parts(m.get("jsonrpc"), m.get("id"), m.get("result"), m.get("error")),
            Json::Array(items) => if items.len() == 4 {
                response_from_parts(
                    Some(items[0].copy()),
                    Some(items[1].copy()),
                    Some(items[2].copy()),
                    Some(items[3].copy()),
                )
            } else {
                None
            },
            _ => None,
        }
    }
}


/// A response written out reads back as the same response, provided its result
/// is not `null` and its error carries no `null` data (a `null` result reads
/// back as absent, which is not a valid response, and `null` data as absent).
pub proof fn lemma_response_roundtrip(r: ResponseV)
    requires
        r.payload != Ok::<JsonV, ErrorV>(JsonV::Null),
        r.payload matches Err(e) ==> e.data != Some(JsonV::Null),
    ensures
        decode_response(response_json(r)) == Some(r),
{
    reveal_strlit("jsonrpc");
    reveal_strlit("id");
    reveal_strlit("result");
    reveal_strlit("error");
    let m = response_json(r)->Object_0;
    assert("jsonrpc"@ != "id"@ && "jsonrpc"@ != "result"@ && "jsonrpc"@ != "error"@ && "id"@ != "result"@
        && "id"@ != "error"@ && "result"@ != "error"@) by {
        assert("jsonrpc"@.len() != "id"@.len());
        assert("jsonrpc"@.len() != "result"@.len());
        assert("jsonrpc"@.len() != "error"@.len());
        assert("id"@.len() != "result"@.len());
        assert("id"@.len() != "error"@.len());
        assert("result"@.len() != "error"@.len());
    }
    lemma_get_first(m, "jsonrpc"@, 0, 0);
    lemma_get_first(m, "id"@, 1, 0);
    match r.payload {
        Ok(v) => {
            lemma_get_first(m, "result"@, 2, 0);
            lemma_get_none(m, "error"@, 0);
        },
        Err(e) => {
            lemma_get_none(m, "result"@, 0);
            lemma_get_first(m, "error"@, 2, 0);
            lemma_error_roundtrip(e);
            assert(as_received(e) == e);
        },
    }
}

} // verus!
