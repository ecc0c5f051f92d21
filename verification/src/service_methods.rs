//! Which methods of a service are exposed, under which names and numbers: the
//! rules that `#[rpc_service]` and `#[rpc_method]` apply to an impl block.
use vstd::prelude::*;
use crate::errors::{failure_error, ErrorV, Failure, JsonRpcError};
use crate::json::{opt_view, Json, JsonV};
use crate::params::invalid_params_v;
use crate::peer::method_not_found_v;

verus! {

/// The value of `#[rpc_method(name = value)]`.
pub enum AttrValue {
    /// A string literal.
    Str(String),
    /// A literal that is not a string.
    OtherLit,
    /// Not a literal.
    OtherExpr,
}

/// An `#[rpc_method]` attribute as written.
pub enum MethodAttr {
    /// `#[rpc_method]`.
    Bare,
    /// `#[rpc_method("name")]`.
    Literal(String),
    /// `#[rpc_method(path = value)]`; `path_is_name` tells whether the path is `name`.
    NameValue { path_is_name: bool, value: AttrValue },
    /// `#[rpc_method(...)]` whose argument is neither of the above, with the
    /// reason it could not be read.
    Malformed(String),
    /// `#[rpc_method = ...]`.
    Assigned,
}

/// A method of the impl block, as far as the exposure rules read it.
pub struct MethodDecl {
    /// The method's own name.
    pub ident: String,
    /// Its first `#[rpc_method]` attribute, if any.
    pub attr: Option<MethodAttr>,
    /// Whether its first parameter is `self`.
    pub takes_self: bool,
    /// Its other parameters: the name of each one that is a plain name,
    /// `None` for one that is a pattern.
    pub args: Vec<Option<String>>,
    /// Whether it declares a return type.
    pub returns: bool,
    /// Whether it is `async`.
    pub is_async: bool,
}

/// How an exposed method is called: number `index`, the method `method`,
/// taking the params named `arg_keys` in order, awaited when `awaits`.
pub struct MethodEntry {
    pub index: u32,
    pub method: String,
    pub arg_keys: Vec<String>,
    pub awaits: bool,
}

/// The outcome for an impl block: the exposed names, where the name at
/// position `i` is method number `i`; how each is called; and the errors to
/// report, in the order of the methods.
pub struct ServicePlan {
    pub names: Vec<String>,
    pub entries: Vec<MethodEntry>,
    pub errors: Vec<String>,
}

/// The mathematical value of a [`MethodEntry`].
pub struct EntryV {
    pub index: u32,
    pub method: Seq<char>,
    pub arg_keys: Seq<Seq<char>>,
    pub awaits: bool,
}

/// The mathematical value of a [`ServicePlan`].
#[verifier::ext_equal]
pub struct PlanV {
    pub names: Seq<Seq<char>>,
    pub entries: Seq<EntryV>,
    pub errors: Seq<Seq<char>>,
}

impl View for MethodEntry {
    type V = EntryV;

    open spec fn view(&self) -> EntryV {
        EntryV {
            index: self.index,
            method: self.method@,
            arg_keys: self.arg_keys@.map_values(|k: String| k@),
            awaits: self.awaits,
        }
    }
}

impl View for ServicePlan {
    type V = PlanV;

    open spec fn view(&self) -> PlanV {
        PlanV {
            names: self.names@.map_values(|n: String| n@),
            entries: self.entries@.map_values(|e: MethodEntry| e@),
            errors: self.errors@.map_values(|e: String| e@),
        }
    }
}

/// The exposed name of a method: its own name for `#[rpc_method]`, else the
/// string given; otherwise the error to report.
pub open spec fn exposed_name(ident: Seq<char>, attr: MethodAttr) -> Result<Seq<char>, Seq<char>> {
    match attr {
        MethodAttr::Bare => Ok(ident),
        MethodAttr::Literal(s) => Ok(s@),
        MethodAttr::NameValue { path_is_name, value } => if !path_is_name {
            Err("expected `name = \"...\"`"@)
        } else {
            match value {
                AttrValue::Str(s) => Ok(s@),
                _ => Err("expected string literal"@),
            }
        },
        MethodAttr::Malformed(reason) => Err(reason@),
        MethodAttr::Assigned => Err(
            "expected `#[rpc_method]`, `#[rpc_method(\"name\")]`, or `#[rpc_method(name = \"name\")]`"@,
        ),
    }
}

/// Whether all of `args` are plain names.
pub open spec fn all_named(args: Seq<Option<String>>) -> bool {
    forall|i: int| 0 <= i < args.len() ==> args[i] is Some
}

/// How method `m` is called as method number `index`, or the error to report:
/// it must take `self` first, name each other parameter plainly, and return
/// a value; each parameter is read from the param of the same name.
pub open spec fn method_entry(m: MethodDecl, index: u32) -> Result<EntryV, Seq<char>> {
    if !m.takes_self {
        Err("rpc methods must take `&self` as their first parameter"@)
    } else if !all_named(m.args@) {
        Err("rpc method params must be simple named arguments"@)
    } else if !m.returns {
        Err("rpc methods must return `JsonRpcResult<T>`"@)
    } else {
        Ok(EntryV {
            index,
            method: m.ident@,
            arg_keys: m.args@.map_values(|a: Option<String>| a->Some_0@),
            awaits: m.is_async,
        })
    }
}

/// The plan for the first `n` of `methods`: methods without `#[rpc_method]`
/// are left out; each other method is exposed under the next number if both
/// its name and its signature are accepted, and otherwise yields an error.
pub open spec fn plan_upto(methods: Seq<MethodDecl>, n: int) -> PlanV
    decreases n,
{
    if n <= 0 {
        PlanV { names: Seq::empty(), entries: Seq::empty(), errors: Seq::empty() }
    } else {
        let p = plan_upto(methods, n - 1);
        let m = methods[n - 1];
        match m.attr {
            None => p,
            Some(attr) => match exposed_name(m.ident@, attr) {
                Err(e) => PlanV { errors: p.errors.push(e), ..p },
                Ok(name) => match method_entry(m, p.names.len() as u32) {
                    Ok(entry) => PlanV { names: p.names.push(name), entries: p.entries.push(entry), errors: p.errors },
                    Err(e) => PlanV { errors: p.errors.push(e), ..p },
                },
            },
        }
    }
}


/// The exposed name of the method `ident` with attribute `attr` (see
/// [`exposed_name`]).
pub fn rpc_method_name(ident: &String, attr: &MethodAttr) -> (r: Result<String, String>)
    ensures
        match r {
            Ok(name) => exposed_name(ident@, *attr) == Ok::<Seq<char>, Seq<char>>(name@),
            Err(e) => exposed_name(ident@, *attr) == Err::<Seq<char>, Seq<char>>(e@),
        },
{
    match attr {
        MethodAttr::Bare => Ok(ident.clone()),
        MethodAttr::Literal(s) => Ok(s.clone()),
        MethodAttr::NameValue { path_is_name, value } => if !*path_is_name {
            Err(String::from_str("expected `name = \"...\"`"))
        } else {
            match value {
                AttrValue::Str(s) => Ok(s.clone()),
                _ => Err(String::from_str("expected string literal")),
            }
        },
        MethodAttr::Malformed(reason) => Err(reason.clone()),
        MethodAttr::Assigned => Err(
            String::from_str(
                "expected `#[rpc_method]`, `#[rpc_method(\"name\")]`, or `#[rpc_method(name = \"name\")]`",
            ),
        ),
    }
}

/// How method `m` is called as method number `index` (see [`method_entry`]).
pub fn dispatch_arm(m: &MethodDecl, index: u32) -> (r: Result<MethodEntry, String>)
    ensures
        match r {
            Ok(entry) => method_entry(*m, index) == Ok::<EntryV, Seq<char>>(entry@),
            Err(e) => method_entry(*m, index) == Err::<EntryV, Seq<char>>(e@),
        },
{
    if !m.takes_self {
        return Err(String::from_str("rpc methods must take `&self` as their first parameter"));
    }
    let mut keys: Vec<String> = Vec::new();
    let mut i: usize = 0;
    while i < m.args.len()
        invariant
            i <= m.args@.len(),
            m.takes_self,
            all_named(m.args@.subrange(0, i as int)),
            keys@.len() == i,
            forall|j: int| 0 <= j < i ==> keys@[j]@ == m.args@[j]->Some_0@,
        decreases m.args@.len() - i,
    {
        match &m.args[i] {
            Some(name) => keys.push(name.clone()),
            None => {
                assert(!all_named(m.args@));
                return Err(String::from_str("rpc method params must be simple named arguments"));
            },
        }
        i = i + 1;
        assert(all_named(m.args@.subrange(0, i as int))) by {
            assert forall|j: int| 0 <= j < i implies m.args@.subrange(0, i as int)[j] is Some by {
                if j < i - 1 {
                    assert(m.args@.subrange(0, i - 1)[j] == m.args@[j]);
                }
            }
        }
    }
    assert(m.args@.subrange(0, m.args@.len() as int) =~= m.args@);
    if !m.returns {
        return Err(String::from_str("rpc methods must return `JsonRpcResult<T>`"));
    }
    let entry = MethodEntry { index, method: m.ident.clone(), arg_keys: keys, awaits: m.is_async };
    assert(entry@.arg_keys =~= m.args@.map_values(|a: Option<String>| a->Some_0@));
    Ok(entry)
}

/// The plan for an impl block whose methods are `methods`, in order (see
/// [`plan_upto`]).
pub fn rpc_service(methods: &Vec<MethodDecl>) -> (r: ServicePlan)
    requires
        methods@.len() <= u32::MAX,
    ensures
        r@ == plan_upto(methods@, methods@.len() as int),
        r.names@.len() == r.entries@.len(),
        forall|i: int| 0 <= i < r.entries@.len() ==> #[trigger] r.entries@[i].index == i,
{
    proof {
        lemma_method_numbers(methods@, methods@.len() as int);
    }
    let mut plan = ServicePlan { names: Vec::new(), entries: Vec::new(), errors: Vec::new() };
    let mut index: u32 = 0;
    let mut i: usize = 0;
    assert(plan@ =~= plan_upto(methods@, 0));
    while i < methods.len()
        invariant
            i <= methods@.len(),
            methods@.len() <= u32::MAX,
            plan@ == plan_upto(methods@, i as int),
            index as int == plan@.names.len(),
            plan@.names.len() <= i,
        decreases methods@.len() - i,
    {
        let ghost before = plan@;
        let m = &methods[i];
        match &m.attr {
            None => {},
            Some(attr) => match rpc_method_name(&m.ident, attr) {
                Err(e) => {
                    plan.errors.push(e);
                    assert(plan@ =~= plan_upto(methods@, i + 1));
                },
                Ok(name) => match dispatch_arm(m, index) {
                    Ok(entry) => {
                        plan.names.push(name);
                        plan.entries.push(entry);
                        index = index + 1;
                        assert(plan@ =~= plan_upto(methods@, i + 1));
                    },
                    Err(e) => {
                        plan.errors.push(e);
                        assert(plan@ =~= plan_upto(methods@, i + 1));
                    },
                },
            },
        }
        i = i + 1;
    }
    assert(plan.names@.len() == plan@.names.len());
    assert forall|i: int| 0 <= i < plan.entries@.len() implies #[trigger] plan.entries@[i].index == i by {
        assert(plan@.entries[i] == plan.entries@[i]@);
        assert(plan_upto(methods@, methods@.len() as int).entries[i].index == i);
    }
    plan
}

/// The method that a call of method number `method` runs: the exposed method
/// of that number; a number beyond the exposed methods is answered Method
/// not found.
pub fn dispatch_target(plan: &ServicePlan, method: u32) -> (r: Result<&MethodEntry, JsonRpcError>)
    ensures
        method < plan.entries@.len() ==> (r matches Ok(e) && *e == plan.entries@[method as int]),
        method >= plan.entries@.len() ==> (r matches Err(e) && e@ == method_not_found_v()),
{
    if (method as usize) < plan.entries.len() {
        Ok(&plan.entries[method as usize])
    } else {
        Err(JsonRpcError::method_not_found())
    }
}

/// How a call of an exposed method is answered. `decoded` tells, in order,
/// whether each param read so far decoded; the first that did not ends the
/// call with Invalid params, and the method is not run. Otherwise `called`
/// is the method's outcome, with its value already encoded (the encoding, or
/// the description of why encoding failed): the method's error is passed on
/// unchanged, and its value is the answer, or, when it could not be encoded,
/// an internal error naming the failure.
pub open spec fn arm_answer(decoded: Seq<bool>, called: Option<Result<Result<JsonV, Seq<char>>, ErrorV>>) -> Result<JsonV, ErrorV> {
    if exists|i: int| 0 <= i < decoded.len() && !decoded[i] {
        Err(invalid_params_v())
    } else {
        match called {
            Some(Err(e)) => Err(e),
            Some(Ok(Ok(v))) => Ok(v),
            Some(Ok(Err(d))) => Err(failure_error(Failure::SerializeResult, d)),
            None => Err(invalid_params_v()),
        }
    }
}

/// The outcome of a call as the caller hands it over: the error, or the
/// encoding of the value, or why encoding failed.
pub open spec fn called_view(called: Option<Result<Result<Json, String>, JsonRpcError>>) -> Option<Result<Result<JsonV, Seq<char>>, ErrorV>> {
    match called {
        None => None,
        Some(Err(e)) => Some(Err(e@)),
        Some(Ok(Ok(v))) => Some(Ok(Ok(v@))),
        Some(Ok(Err(d))) => Some(Ok(Err(d@))),
    }
}

/// How a call of an exposed method is answered (see [`arm_answer`]); the
/// method runs only when all its params decoded, so `called` is given then.
pub fn arm_outcome(decoded: &Vec<bool>, called: Option<Result<Result<Json, String>, JsonRpcError>>) -> (r: Result<Json, JsonRpcError>)
    requires
        (forall|i: int| 0 <= i < decoded@.len() ==> decoded@[i]) ==> called is Some,
    ensures
        match r {
            Ok(v) => arm_answer(decoded@, called_view(called)) == Ok::<JsonV, ErrorV>(v@),
            Err(e) => arm_answer(decoded@, called_view(called)) == Err::<JsonV, ErrorV>(e@),
        },
{
    let mut i: usize = 0;
    while i < decoded.len()
        invariant
            i <= decoded@.len(),
            forall|j: int| 0 <= j < i ==> decoded@[j],
        decreases decoded@.len() - i,
    {
        if !decoded[i] {
            return Err(JsonRpcError::invalid_params());
        }
        i = i + 1;
    }
    match called {
        Some(Err(e)) => Err(e),
        Some(Ok(Ok(v))) => Ok(v),
        Some(Ok(Err(d))) => Err(JsonRpcError::failure(Failure::SerializeResult, d.as_str())),
        None => Err(JsonRpcError::invalid_params()),
    }
}


/// The number of each exposed method is its position among the exposed
/// names: the service receives number `i` for a call of `names[i]`.
pub proof fn lemma_method_numbers(methods: Seq<MethodDecl>, n: int)
    requires
        0 <= n <= methods.len(),
        methods.len() <= u32::MAX,
    ensures
        plan_upto(methods, n).names.len() == plan_upto(methods, n).entries.len(),
        plan_upto(methods, n).names.len() <= n,
        forall|i: int| 0 <= i < plan_upto(methods, n).entries.len() ==> #[trigger] plan_upto(methods, n).entries[i].index == i,
    decreases n,
{
    if n > 0 {
        lemma_method_numbers(methods, n - 1);
    }
}


/// An exposed method is called as written: under the number it is given, by
/// its own name, reading one param per parameter under that parameter's name
/// in order, and awaited exactly when it is `async`. It is accepted exactly
/// when it takes `self`, names every parameter plainly, and returns a value.
pub proof fn lemma_entry_calls_method(m: MethodDecl, index: u32)
    ensures
        method_entry(m, index) is Ok <==> (m.takes_self && all_named(m.args@) && m.returns),
        method_entry(m, index) matches Ok(e) ==> {
            &&& e.index == index
            &&& e.method == m.ident@
            &&& e.awaits == m.is_async
            &&& e.arg_keys.len() == m.args@.len()
            &&& forall|i: int| 0 <= i < m.args@.len() ==> m.args@[i] is Some && #[trigger] e.arg_keys[i] == m.args@[i]->Some_0@
        },
{
}


/// How a call of an exposed method is answered: a param that did not decode
/// gives Invalid params (-32602); otherwise the method's error is passed on
/// unchanged, its encoded value is the answer, and a value that could not be
/// encoded gives an Internal error (-32603) whose data names the failure.
pub proof fn lemma_arm_answers(decoded: Seq<bool>, called: Option<Result<Result<JsonV, Seq<char>>, ErrorV>>)
    ensures
        (exists|i: int| 0 <= i < decoded.len() && !decoded[i]) ==> arm_answer(decoded, called) == Err::<JsonV, ErrorV>(
            ErrorV { code: -32602i64, message: "Invalid params"@, data: None },
        ),
        (forall|i: int| 0 <= i < decoded.len() ==> decoded[i]) ==> {
            &&& called matches Some(Err(e)) ==> arm_answer(decoded, called) == Err::<JsonV, ErrorV>(e)
            &&& called matches Some(Ok(Ok(v))) ==> arm_answer(decoded, called) == Ok::<JsonV, ErrorV>(v)
            &&& called matches Some(Ok(Err(d))) ==> arm_answer(decoded, called) == Err::<JsonV, ErrorV>(
                ErrorV {
                    code: -32603i64,
                    message: "Internal error"@,
                    data: Some(JsonV::Str("failed to serialize RPC result: "@ + d)),
                },
            )
        },
{
}

/// A call of a method number beyond the exposed methods is answered Method
/// not found (-32601).
pub proof fn lemma_unknown_number_not_found()
    ensures
        method_not_found_v() == (ErrorV { code: -32601i64, message: "Method not found"@, data: None }),
{
}

} // verus!
