//! Named call parameters.
use vstd::prelude::*;
use crate::errors::{plain_error, JsonRpcError, ErrorV, INVALID_PARAMS};
use crate::json::{position_from, group_json_view, obj_get, opt_view, Json, JsonMap, JsonV};

verus! {

/// The named parameters of a call: a JSON object.
#[derive(Debug, PartialEq)]
pub struct DynamicParams {
    values: JsonMap,
}

impl View for DynamicParams {
    type V = Seq<(Seq<char>, JsonV)>;

    closed spec fn view(&self) -> Seq<(Seq<char>, JsonV)> {
        self.values@
    }
}

/// The value read for param `name`: its value, or `null` when it is absent.
pub open spec fn param_value(params: Seq<(Seq<char>, JsonV)>, name: Seq<char>) -> JsonV {
    match obj_get(params, name) {
        Some(v) => v,
        None => JsonV::Null,
    }
}

/// A param read back gives what was set: after setting `name` to `v` (as
/// [`DynamicParams::with`] does), reading `name` gives `v`, and reading any
/// other name gives what it gave before.
pub proof fn lemma_set_then_get(before: Seq<(Seq<char>, JsonV)>, after: Seq<(Seq<char>, JsonV)>, name: Seq<char>, v: JsonV)
    requires
        obj_get(after, name) == Some(v),
        forall|k: Seq<char>| k != name ==> obj_get(after, k) == obj_get(before, k),
    ensures
        param_value(after, name) == v,
        forall|k: Seq<char>| k != name ==> param_value(after, k) == param_value(before, k),
{
}

/// The error for parameters that are not an object.
pub open spec fn invalid_params_v() -> ErrorV {
    plain_error(INVALID_PARAMS, "Invalid params"@)
}

/// `r` is an error result carrying `e`.
pub open spec fn is_err_with<T>(r: Result<T, JsonRpcError>, e: ErrorV) -> bool {
    r matches Err(x) && x@ == e
}

impl DynamicParams {
    /// The parameters with the members of `values`.
    pub fn new(values: JsonMap) -> (p: DynamicParams)
        ensures
            p@ == values@,
    {
        DynamicParams { values }
    }

    /// No parameters.
    pub fn empty() -> (p: DynamicParams)
        ensures
            p@ == Seq::<(Seq<char>, JsonV)>::empty(),
    {
        DynamicParams { values: JsonMap::new() }
    }

    /// The parameters of a request: its `params` object, or none when absent.
    /// Any other `params` (an array, a string, ...) is rejected as invalid.
    pub fn from_value(value: Option<Json>) -> (r: Result<DynamicParams, JsonRpcError>)
        ensures
            match opt_view(value) {
                Some(JsonV::Object(members)) => r matches Ok(p) && p@ == members,
                None => r matches Ok(p) && p@ == Seq::<(Seq<char>, JsonV)>::empty(),
                Some(_) => is_err_with(r, invalid_params_v()),
            },
    {
        broadcast use group_json_view;
        match value {
            Some(Json::Object(values)) => Ok(DynamicParams::new(values)),
            None => Ok(DynamicParams::empty()),
            Some(_) => Err(JsonRpcError::invalid_params()),
        }
    }

    /// The parameter `name`, or `null` when it is absent.
    pub fn get(&self, name: &str) -> (r: Json)
        ensures
            r@ == param_value(self@, name@),
    {
        match self.values.get(name) {
            Some(v) => v,
            None => Json::Null,
        }
    }

    /// These parameters with `name` set to `value`.
    pub fn with(self, name: String, value: Json) -> (p: DynamicParams)
        ensures
            obj_get(p@, name@) == Some(value@),
            forall|k: Seq<char>| k != name@ ==> obj_get(p@, k) == obj_get(self@, k),
            p@ == match position_from(self@, name@, 0) {
                Some(i) => self@.update(i, (name@, value@)),
                None => self@.push((name@, value@)),
            },
    {
        let mut values = self.values;
        values.insert(name, value);
        DynamicParams { values }
    }

    /// The parameters as a JSON object.
    pub fn into_json(self) -> (r: Json)
        ensures
            r@ == JsonV::Object(self@),
    {
        broadcast use group_json_view;
        Json::Object(self.values)
    }
}

/// Whether `r` is an acceptable outcome for a value turned into call params:
/// params are always named, so any params given are an object.
pub open spec fn named_params(r: Result<Option<Json>, JsonRpcError>) -> bool {
    r matches Ok(Some(v)) ==> v@ is Object
}

/// Values that can be passed as the params of a call or notification.
pub trait IntoParams: Sized {
    fn into_params(self) -> (r: Result<Option<Json>, JsonRpcError>)
        ensures
            named_params(r),
    ;
}

impl IntoParams for () {
    /// No params.
    fn into_params(self) -> (r: Result<Option<Json>, JsonRpcError>)
        ensures
            r matches Ok(None),
    {
        Ok(None)
    }
}

impl IntoParams for DynamicParams {
    fn into_params(self) -> (r: Result<Option<Json>, JsonRpcError>)
        ensures
            r matches Ok(Some(v)) && v@ == JsonV::Object(self@),
    {
        Ok(Some(self.into_json()))
    }
}

impl IntoParams for JsonMap {
    fn into_params(self) -> (r: Result<Option<Json>, JsonRpcError>)
        ensures
            r matches Ok(Some(v)) && v@ == JsonV::Object(self@),
    {
        broadcast use group_json_view;
        Ok(Some(Json::Object(self)))
    }
}

impl IntoParams for Option<Json> {
    /// An object or nothing is passed on; anything else is invalid params.
    fn into_params(self) -> (r: Result<Option<Json>, JsonRpcError>)
        ensures
            match opt_view(self) {
                Some(JsonV::Object(_)) | None => r matches Ok(o) && opt_view(o) == opt_view(self),
                Some(_) => is_err_with(r, invalid_params_v()),
            },
    {
        broadcast use group_json_view;
        match self {
            Some(Json::Object(m)) => Ok(Some(Json::Object(m))),
            None => Ok(None),
            Some(_) => Err(JsonRpcError::invalid_params()),
        }
    }
}

impl IntoParams for Json {
    /// An object is passed on; anything else is invalid params.
    fn into_params(self) -> (r: Result<Option<Json>, JsonRpcError>)
        ensures
            match self@ {
                JsonV::Object(_) => r matches Ok(Some(v)) && v@ == self@,
                _ => is_err_with(r, invalid_params_v()),
            },
    {
        broadcast use group_json_view;
        match self {
            Json::Object(m) => Ok(Some(Json::Object(m))),
            _ => Err(JsonRpcError::invalid_params()),
        }
    }
}

} // verus!
