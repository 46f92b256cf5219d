//! The dispatcher.
//!
//! Routes a query value to the matching method invocation and wraps the
//! produced value as the response variant with the same id.  The query
//! union is closed over exactly the registered descriptors, so a query
//! whose id lies outside the table contradicts the registry invariant:
//! that defect path is excluded by precondition here, never handled as a
//! recoverable error.
//!
//! The actual method bodies are user code outside this library; the
//! dispatcher is therefore split around the invocation.  `prepare_args`
//! performs the self-reference elision on the call's arguments,
//! `dispatch_query` takes the value the invoked method produced and pins
//! the response to it, and `dispatch_via` runs the whole route through a
//! `Service` implementation.

use vstd::prelude::*;

use crate::protocol::Protocol;

verus! {

/// A wire value: what a query field or a response field carries.
#[derive(Debug, Clone, PartialEq, Eq)]
pub enum Value {
    Unit,
    Bool(bool),
    Int(i64),
    Text(String),
}

/// Mathematical model of a `Value`.
pub ghost enum ValModel {
    Unit,
    Bool(bool),
    Int(int),
    Text(Seq<char>),
}

impl View for Value {
    type V = ValModel;

    open spec fn view(&self) -> ValModel {
        match self {
            Value::Unit => ValModel::Unit,
            Value::Bool(b) => ValModel::Bool(*b),
            Value::Int(n) => ValModel::Int(*n as int),
            Value::Text(s) => ValModel::Text(s@),
        }
    }
}

/// The view of an argument list.
pub open spec fn vals_view(v: Seq<Value>) -> Seq<ValModel> {
    v.map_values(|x: Value| x@)
}

/// A value of the query union: the variant id and its positional
/// fields.
#[derive(Debug, Clone, PartialEq, Eq)]
pub struct QueryMsg {
    pub entry_id: u64,
    pub args: Vec<Value>,
}

/// Mathematical model of a `QueryMsg`.
pub ghost struct QueryModel {
    pub id: int,
    pub args: Seq<ValModel>,
}

impl View for QueryMsg {
    type V = QueryModel;

    open spec fn view(&self) -> QueryModel {
        QueryModel { id: self.entry_id as int, args: vals_view(self.args@) }
    }
}

/// A value of the response union: the variant id and its single field.
#[derive(Debug, Clone, PartialEq, Eq)]
pub struct ResponseMsg {
    pub entry_id: u64,
    pub value: Value,
}

/// Mathematical model of a `ResponseMsg`.
pub ghost struct RespModel {
    pub id: int,
    pub value: ValModel,
}

impl View for ResponseMsg {
    type V = RespModel;

    open spec fn view(&self) -> RespModel {
        RespModel { id: self.entry_id as int, value: self.value@ }
    }
}

/// The two-branch wire envelope.
#[derive(Debug, Clone, PartialEq, Eq)]
pub enum Proto {
    Query(QueryMsg),
    Response(ResponseMsg),
}

/// Mathematical model of a `Proto` envelope.
pub ghost enum ProtoModel {
    Query(QueryModel),
    Response(RespModel),
}

impl View for Proto {
    type V = ProtoModel;

    open spec fn view(&self) -> ProtoModel {
        match self {
            Proto::Query(q) => ProtoModel::Query(q@),
            Proto::Response(m) => ProtoModel::Response(m@),
        }
    }
}

/// How one argument reaches the callee: by value, or by reference when
/// its declared type equals the owner type (self-reference elision).
#[derive(Debug, Clone, PartialEq, Eq)]
pub enum ArgPass {
    ByValue(Value),
    ByRef(Value),
}

/// Mathematical model of an `ArgPass`.
pub ghost enum ArgPassModel {
    ByValue(ValModel),
    ByRef(ValModel),
}

impl View for ArgPass {
    type V = ArgPassModel;

    open spec fn view(&self) -> ArgPassModel {
        match self {
            ArgPass::ByValue(v) => ArgPassModel::ByValue(v@),
            ArgPass::ByRef(v) => ArgPassModel::ByRef(v@),
        }
    }
}

/// The logical value the callee sees: elision changes only the passing
/// mode, never the value.
pub open spec fn seen_by_callee(a: ArgPassModel) -> ValModel {
    match a {
        ArgPassModel::ByValue(v) => v,
        ArgPassModel::ByRef(v) => v,
    }
}

/// The argument list a dispatch row prepares: each argument wrapped
/// by-reference exactly where the row says so.
pub open spec fn passed_args(by_ref: Seq<bool>, args: Seq<ValModel>) -> Seq<ArgPassModel> {
    Seq::new(args.len(), |j: int| if by_ref[j] {
        ArgPassModel::ByRef(args[j])
    } else {
        ArgPassModel::ByValue(args[j])
    })
}

/// Copies one wire value.
pub fn clone_value(v: &Value) -> (r: Value)
    ensures
        r@ == v@,
{
    match v {
        Value::Unit => Value::Unit,
        Value::Bool(b) => Value::Bool(*b),
        Value::Int(n) => Value::Int(*n),
        Value::Text(s) => Value::Text(s.clone()),
    }
}

/// Copies an argument list.
pub fn clone_values(v: &Vec<Value>) -> (r: Vec<Value>)
    ensures
        vals_view(r@) == vals_view(v@),
{
    let mut r: Vec<Value> = Vec::new();
    let mut i: usize = 0;
    while i < v.len()
        invariant
            i <= v@.len(),
            r@.len() == i,
            forall|k: int| 0 <= k < i ==> (#[trigger] r@[k])@ == v@[k]@,
        decreases v@.len() - i,
    {
        let c = clone_value(&v[i]);
        r.push(c);
        i += 1;
    }
    proof {
        assert(vals_view(r@) =~= vals_view(v@));
    }
    r
}

/// Applies the self-reference elision of one dispatch row to a call's
/// actual arguments.
pub fn prepare_args(arm_by_ref: &Vec<bool>, args: &Vec<Value>) -> (r: Vec<ArgPass>)
    requires
        arm_by_ref@.len() == args@.len(),
    ensures
        r@.map_values(|a: ArgPass| a@) == passed_args(arm_by_ref@, vals_view(args@)),
{
    let mut r: Vec<ArgPass> = Vec::new();
    let mut i: usize = 0;
    while i < args.len()
        invariant
            arm_by_ref@.len() == args@.len(),
            i <= args@.len(),
            r@.len() == i,
            forall|k: int|
                0 <= k < i ==> (#[trigger] r@[k])@ == passed_args(arm_by_ref@, vals_view(args@))[k],
        decreases args@.len() - i,
    {
        let v = clone_value(&args[i]);
        let a = if arm_by_ref[i] {
            ArgPass::ByRef(v)
        } else {
            ArgPass::ByValue(v)
        };
        proof {
            assert(vals_view(args@)[i as int] == args@[i as int]@);
        }
        r.push(a);
        i += 1;
    }
    proof {
        assert(r@.map_values(|a: ArgPass| a@) =~= passed_args(arm_by_ref@, vals_view(args@)));
    }
    r
}

/// What dispatching a query yields once the routed method has produced
/// `invoked`: the response variant with the same id, carrying exactly
/// that value.
pub open spec fn dispatch_outcome(q: QueryModel, invoked: ValModel) -> Option<RespModel> {
    Option::Some(RespModel { id: q.id, value: invoked })
}

/// Wraps the value produced by the routed method invocation as the
/// matching response variant.  `invoked` is the value the underlying
/// method returned for this query's arguments; the invocation itself is
/// user code outside this library.
pub fn dispatch_query(p: &Protocol, q: &QueryMsg, invoked: Value) -> (r: Option<ResponseMsg>)
    requires
        q@.id < p@.arms.len(),
    ensures
        r matches Option::Some(m) && m@ == dispatch_outcome(q@, invoked@).unwrap(),
{
    Option::Some(ResponseMsg { entry_id: q.entry_id, value: invoked })
}

/// The terminal half of the dispatcher: a response message is never
/// re-dispatched; it is consumed by the waiting caller.
pub fn dispatch_response(p: &Protocol, m: ResponseMsg) -> (r: Option<ResponseMsg>)
    requires
        m@.id < p@.response_variants.len(),
    ensures
        r is None,
{
    Option::None
}

/// One shared service interface over all registered methods: the host
/// side implements it by invoking the real method bodies.  Method
/// bodies are user code, so nothing is promised of the produced value.
pub trait Service {
    /// Invokes the method of descriptor `entry_id` on the prepared
    /// arguments and returns its produced value.
    fn invoke(&self, entry_id: u64, args: Vec<ArgPass>) -> Value;
}

/// Routes a query value through a service: prepares the arguments with
/// self-reference elision, invokes the routed method, and wraps the
/// produced value as the response variant with the query's id.
pub fn dispatch_via<S: Service>(p: &Protocol, svc: &S, q: &QueryMsg) -> (r: Option<ResponseMsg>)
    requires
        q@.id < p@.arms.len(),
        p@.arms[q@.id].by_ref.len() == q@.args.len(),
    ensures
        r matches Option::Some(m) && m@.id == q@.id,
{
    let n = p.arms.len();
    proof {
        assert(p@.arms.len() == p.arms@.len());
        assert(q.entry_id < n);
    }
    let arm = &p.arms[q.entry_id as usize];
    proof {
        assert(p@.arms[q@.id] == p.arms@[q@.id]@);
        assert(vals_view(q.args@).len() == q.args@.len());
    }
    let passed = prepare_args(&arm.by_ref, &q.args);
    let produced = svc.invoke(q.entry_id, passed);
    dispatch_query(p, q, produced)
}

/// Law: the dispatcher is a round trip around the invoked method.
/// Dispatching a query yields `Some` of the response variant with the
/// query's id carrying `result` exactly when the underlying invocation
/// produced `result`.
pub proof fn lemma_dispatch_round_trip(
    q: QueryModel,
    invoked: ValModel,
    r: Option<RespModel>,
    result: ValModel,
)
    requires
        r == dispatch_outcome(q, invoked),
    ensures
        (r == Option::Some(RespModel { id: q.id, value: result })) <==> (result == invoked),
{
}

/// Law: self-reference elision does not change observable results.
/// Whatever pattern of by-reference passing a dispatch row applies, the
/// callee sees exactly the argument values it would see under
/// pass-by-value.
pub proof fn lemma_elision_unobservable(by_ref: Seq<bool>, args: Seq<ValModel>)
    requires
        by_ref.len() == args.len(),
    ensures
        passed_args(by_ref, args).map_values(|a: ArgPassModel| seen_by_callee(a)) == args,
{
    assert(passed_args(by_ref, args).map_values(|a: ArgPassModel| seen_by_callee(a)) =~= args);
}

} // verus!
