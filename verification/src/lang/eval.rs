//! The evaluator: walks an expression tree and produces a value, resolving
//! function applications first against the built-in table and then against a
//! registry of user definitions.

pub mod builtins;
pub mod defs;
pub mod exp;

use vstd::prelude::*;

use self::builtins::{eval_core, spec_eval_core, spec_types_of, types_of};
use self::defs::{first_matching_sig, Defs, FnDef};
use self::exp::{vals_of, Exp, Value, ValueV};
use crate::util::{first_named, IndexNode, IndexTree};

verus! {

/// Everything that can go wrong during registration or evaluation.  All are
/// recoverable, typed results; the evaluator never panics.
#[derive(Clone, Copy, Debug, PartialEq, Eq, Structural)]
pub enum EvalError {
    /// A value was read at a type other than its tag.
    TypeError,
    TypeMismatch,
    /// Evaluated argument types match no signature.
    ParamsTypeMismatch,
    /// Reserved for numeric-coercion failure paths.
    NotANumber,
    /// A tree or registry invariant was violated by the producing front end;
    /// never expected from well-formed input.
    InternalError,
    /// A definition was registered under a name already taken.
    NameAlreadyExists,
    /// A name was found neither among the built-ins nor in the registry.
    UnknownFn,
    /// Reserved for future named-parameter support.
    UnknownParam,
    /// The name is known but no signature accepts the argument types.
    UnknownFnSignature,
}

/// The evaluation budget behind the public entry points.  Each tree level
/// and each dispatched application consumes one unit, so any computation
/// that would exhaust it would long before have exhausted the host's call
/// stack; running out reports `InternalError`.
pub const EVAL_FUEL: u64 = 0x1_0000_0000;

/// The mathematical contents of an optional parameter vector.
pub open spec fn spec_params(params: Option<&Vec<Value>>) -> Option<Seq<ValueV>> {
    match params {
        Option::Some(p) => Option::Some(vals_of(p@)),
        Option::None => Option::None,
    }
}

/// The outcome of the specification-level evaluator: a value, a typed
/// error, or exhaustion of the evaluation budget.
pub enum OutV {
    Done(ValueV),
    Fail(EvalError),
    OutOfFuel,
}

/// The outcome of evaluating a list of argument expressions.
pub enum ChildrenV {
    AllDone(Seq<ValueV>),
    ChildFail(EvalError),
    ChildrenOutOfFuel,
}

/// The specification of evaluation, by structural cases on the node at
/// `idx`:
/// - a literal evaluates to its value, unchanged;
/// - a bound variable evaluates to the parameter at its position, and is an
///   internal error when no parameter vector is active or the position is
///   out of range;
/// - an application evaluates its children left to right, dispatches the
///   results against the built-in table first, and on any built-in failure
///   falls back to the registry; when both fail, the built-in's error is
///   the one reported;
/// - any other node variant is an internal error, as is an out-of-range
///   node index.
pub open spec fn spec_eval(
    tree: Seq<IndexNode<Exp>>,
    idx: int,
    params: Option<Seq<ValueV>>,
    defs: Seq<FnDef>,
    fuel: nat,
) -> OutV
    decreases fuel, 1int, 0int,
{
    if fuel == 0 {
        OutV::OutOfFuel
    } else if !(0 <= idx < tree.len()) {
        OutV::Fail(EvalError::InternalError)
    } else {
        match tree[idx].val {
            Exp::BVariable(b) => match params {
                Option::Some(p) => if (b.index as int) < p.len() {
                    OutV::Done(p[b.index as int])
                } else {
                    OutV::Fail(EvalError::InternalError)
                },
                Option::None => OutV::Fail(EvalError::InternalError),
            },
            Exp::Value(v) => OutV::Done(v@),
            Exp::FnApp(f) => match spec_eval_children(
                tree,
                tree[idx].children@,
                params,
                defs,
                (fuel - 1) as nat,
            ) {
                ChildrenV::AllDone(args) => match spec_eval_core(f.name@, args) {
                    Result::Ok(v) => OutV::Done(v),
                    Result::Err(e) => match spec_apply(f.name@, args, defs, (fuel - 1) as nat) {
                        OutV::Done(v1) => OutV::Done(v1),
                        OutV::Fail(_) => OutV::Fail(e),
                        OutV::OutOfFuel => OutV::OutOfFuel,
                    },
                },
                ChildrenV::ChildFail(e) => OutV::Fail(e),
                ChildrenV::ChildrenOutOfFuel => OutV::OutOfFuel,
            },
            Exp::Variable(_) => OutV::Fail(EvalError::InternalError),
        }
    }
}

/// The specification of evaluating the nodes listed in `kids`, left to
/// right, eagerly: the first failure wins, and otherwise all results are
/// collected in order.
pub open spec fn spec_eval_children(
    tree: Seq<IndexNode<Exp>>,
    kids: Seq<usize>,
    params: Option<Seq<ValueV>>,
    defs: Seq<FnDef>,
    fuel: nat,
) -> ChildrenV
    decreases fuel, 2int, kids.len(),
{
    if kids.len() == 0 {
        ChildrenV::AllDone(Seq::empty())
    } else {
        match spec_eval(tree, kids[0] as int, params, defs, fuel) {
            OutV::Done(v) => match spec_eval_children(
                tree,
                kids.skip(1),
                params,
                defs,
                fuel,
            ) {
                ChildrenV::AllDone(rest) => ChildrenV::AllDone(seq![v] + rest),
                ChildrenV::ChildFail(e) => ChildrenV::ChildFail(e),
                ChildrenV::ChildrenOutOfFuel => ChildrenV::ChildrenOutOfFuel,
            },
            OutV::Fail(e) => ChildrenV::ChildFail(e),
            OutV::OutOfFuel => ChildrenV::ChildrenOutOfFuel,
        }
    }
}

/// The specification of registry dispatch: look the name up, resolve the
/// overload by the exact argument-type vector, and evaluate that
/// signature's body with the argument values as the fresh parameter frame,
/// against the same registry.
pub open spec fn spec_apply(
    name: Seq<char>,
    args: Seq<ValueV>,
    defs: Seq<FnDef>,
    fuel: nat,
) -> OutV
    decreases fuel, 2int, 0int,
{
    match first_named(defs, name) {
        Option::None => OutV::Fail(EvalError::UnknownFn),
        Option::Some(fd) => match first_matching_sig(fd.signatures@, spec_types_of(args)) {
            Option::None => OutV::Fail(EvalError::UnknownFnSignature),
            Option::Some(sig) => spec_eval(
                sig.fn_body.body@,
                0,
                Option::Some(args),
                defs,
                fuel,
            ),
        },
    }
}

/// How a `Result` of the public entry points reflects a specification
/// outcome: budget exhaustion surfaces as `InternalError`.
pub open spec fn result_matches(r: Result<Value, EvalError>, o: OutV) -> bool {
    match o {
        OutV::Done(v) => r matches Result::Ok(rv) && rv@ == v,
        OutV::Fail(e) => r == Result::<Value, EvalError>::Err(e),
        OutV::OutOfFuel => r == Result::<Value, EvalError>::Err(EvalError::InternalError),
    }
}

/// The runtime counterpart of [`OutV`].
pub(crate) enum Outcome {
    Done(Value),
    Failed(EvalError),
    Spent,
}

/// The runtime counterpart of [`ChildrenV`].
pub(crate) enum ArgsOutcome {
    AllDone(Vec<Value>),
    ArgFailed(EvalError),
    ArgsSpent,
}

pub(crate) open spec fn outcome_matches(r: Outcome, o: OutV) -> bool {
    match (r, o) {
        (Outcome::Done(v), OutV::Done(vv)) => v@ == vv,
        (Outcome::Failed(e1), OutV::Fail(e2)) => e1 == e2,
        (Outcome::Spent, OutV::OutOfFuel) => true,
        _ => false,
    }
}

pub(crate) open spec fn args_matches(r: ArgsOutcome, o: ChildrenV) -> bool {
    match (r, o) {
        (ArgsOutcome::AllDone(vs), ChildrenV::AllDone(args)) => vals_of(vs@) == args,
        (ArgsOutcome::ArgFailed(e1), ChildrenV::ChildFail(e2)) => e1 == e2,
        (ArgsOutcome::ArgsSpent, ChildrenV::ChildrenOutOfFuel) => true,
        _ => false,
    }
}

pub(crate) fn eval_at(
    tree: &IndexTree<Exp>,
    idx: usize,
    params: Option<&Vec<Value>>,
    defs: &Defs,
    fuel: u64,
) -> (r: Outcome)
    requires
        tree.wf(),
        defs.wf(),
    ensures
        outcome_matches(r, spec_eval(tree@, idx as int, spec_params(params), defs@, fuel as nat)),
    decreases fuel, 1int, 0int,
{
    if fuel == 0 {
        return Outcome::Spent;
    }
    if idx >= tree.nodes.len() {
        return Outcome::Failed(EvalError::InternalError);
    }
    match tree.node_val(idx) {
        Exp::BVariable(b) => match params {
            Option::Some(p) => if b.index < p.len() {
                Outcome::Done(b.eval(p))
            } else {
                Outcome::Failed(EvalError::InternalError)
            },
            Option::None => Outcome::Failed(EvalError::InternalError),
        },
        Exp::Value(v) => Outcome::Done(v.clone()),
        Exp::FnApp(f) => {
            let kids = tree.children_idx(idx);
            proof {
                assert(kids@.skip(0) =~= tree@[idx as int].children@);
                assert forall|m: int| 0 <= m < kids@.len() implies ((
                #[trigger] kids@[m]) as int) < tree@.len() by {
                    assert(crate::util::node_wf_at(tree@[idx as int], idx as int,
                        tree@.len() as int));
                    assert(tree@[idx as int].children@[m] == kids@[m]);
                }
            }
            match eval_args_at(tree, &kids, 0, params, defs, fuel - 1) {
                ArgsOutcome::AllDone(args) => {
                    match eval_core(f, &args) {
                        Result::Ok(v) => Outcome::Done(v),
                        Result::Err(e) => match apply_at(f, &args, defs, fuel - 1) {
                            Outcome::Done(v1) => Outcome::Done(v1),
                            Outcome::Failed(_) => Outcome::Failed(e),
                            Outcome::Spent => Outcome::Spent,
                        },
                    }
                },
                ArgsOutcome::ArgFailed(e) => Outcome::Failed(e),
                ArgsOutcome::ArgsSpent => Outcome::Spent,
            }
        },
        Exp::Variable(_) => Outcome::Failed(EvalError::InternalError),
    }
}

fn eval_args_at(
    tree: &IndexTree<Exp>,
    kids: &Vec<usize>,
    k: usize,
    params: Option<&Vec<Value>>,
    defs: &Defs,
    fuel: u64,
) -> (r: ArgsOutcome)
    requires
        tree.wf(),
        defs.wf(),
        k as int <= kids@.len(),
        forall|m: int| 0 <= m < kids@.len() ==> ((#[trigger] kids@[m]) as int) < tree@.len(),
    ensures
        args_matches(
            r,
            spec_eval_children(tree@, kids@.skip(k as int), spec_params(params), defs@,
            fuel as nat),
        ),
    decreases fuel, 2int, kids@.len() - k as int,
{
    let ghost s = kids@.skip(k as int);
    if k == kids.len() {
        let out: Vec<Value> = Vec::new();
        proof {
            assert(vals_of(out@) =~= Seq::<ValueV>::empty());
        }
        return ArgsOutcome::AllDone(out);
    }
    proof {
        assert(s[0] == kids@[k as int]);
        assert(s.skip(1) =~= kids@.skip(k as int + 1));
    }
    match eval_at(tree, kids[k], params, defs, fuel) {
        Outcome::Done(v) => match eval_args_at(tree, kids, k + 1, params, defs, fuel) {
            ArgsOutcome::AllDone(rest) => {
                let ghost rest0 = rest@;
                let mut out = rest;
                let ghost v0 = v@;
                out.insert(0, v);
                proof {
                    assert(out@ =~= seq![v] + rest0);
                    assert(vals_of(out@) =~= seq![v0] + vals_of(rest0));
                }
                ArgsOutcome::AllDone(out)
            },
            ArgsOutcome::ArgFailed(e) => ArgsOutcome::ArgFailed(e),
            ArgsOutcome::ArgsSpent => ArgsOutcome::ArgsSpent,
        },
        Outcome::Failed(e) => ArgsOutcome::ArgFailed(e),
        Outcome::Spent => ArgsOutcome::ArgsSpent,
    }
}

pub(crate) fn apply_at(
    fn_app: &exp::FnApp,
    params: &Vec<Value>,
    defs: &Defs,
    fuel: u64,
) -> (r: Outcome)
    requires
        defs.wf(),
    ensures
        outcome_matches(r, spec_apply(fn_app.name@, vals_of(params@), defs@, fuel as nat)),
    decreases fuel, 2int, 0int,
{
    let param_types = types_of(params);
    let fn_def = match defs.get_fn_def(fn_app) {
        Result::Ok(fd) => fd,
        Result::Err(e) => {
            return Outcome::Failed(e);
        },
    };
    let signature = match fn_def.get_signature(&param_types) {
        Result::Ok(s) => s,
        Result::Err(e) => {
            return Outcome::Failed(e);
        },
    };
    proof {
        defs::lemma_resolution_exact(fn_def.signatures@, param_types@);
        let i = choose|i: int|
            0 <= i < fn_def.signatures@.len() && fn_def.signatures@[i] == *signature;
        assert(fn_def.signatures@[i].wf());
    }
    eval_at(signature.fn_body().body(), 0, Option::Some(params), defs, fuel)
}

/// Evaluates the expression rooted at `idx` with an optional parameter
/// vector against a populated registry.  `params` of `None` is meant for a
/// root expression that contains no bound-variable references; a reference
/// outside an active frame reports `InternalError`.
pub fn eval(
    tree: &IndexTree<Exp>,
    idx: usize,
    params: Option<&Vec<Value>>,
    defs: &Defs,
) -> (r: Result<Value, EvalError>)
    requires
        tree.wf(),
        defs.wf(),
    ensures
        result_matches(
            r,
            spec_eval(tree@, idx as int, spec_params(params), defs@, EVAL_FUEL as nat),
        ),
{
    match eval_at(tree, idx, params, defs, EVAL_FUEL) {
        Outcome::Done(v) => Result::Ok(v),
        Outcome::Failed(e) => Result::Err(e),
        Outcome::Spent => Result::Err(EvalError::InternalError),
    }
}

/// Evaluates every child of the node at `idx`, in child order, collecting
/// the results as the actual-argument vector.
pub fn eval_children(
    tree: &IndexTree<Exp>,
    idx: usize,
    params: Option<&Vec<Value>>,
    defs: &Defs,
) -> (r: Result<Vec<Value>, EvalError>)
    requires
        tree.wf(),
        defs.wf(),
        (idx as int) < tree@.len(),
    ensures
        match spec_eval_children(
            tree@,
            tree@[idx as int].children@,
            spec_params(params),
            defs@,
            EVAL_FUEL as nat,
        ) {
            ChildrenV::AllDone(args) => r matches Result::Ok(vs) && vals_of(vs@) == args,
            ChildrenV::ChildFail(e) => r == Result::<Vec<Value>, EvalError>::Err(e),
            ChildrenV::ChildrenOutOfFuel => r == Result::<Vec<Value>, EvalError>::Err(
                EvalError::InternalError,
            ),
        },
{
    let kids = tree.children_idx(idx);
    proof {
        assert(kids@.skip(0) =~= tree@[idx as int].children@);
        assert forall|m: int| 0 <= m < kids@.len() implies ((#[trigger] kids@[m]) as int)
            < tree@.len() by {
            assert(crate::util::node_wf_at(tree@[idx as int], idx as int, tree@.len() as int));
            assert(tree@[idx as int].children@[m] == kids@[m]);
        }
    }
    match eval_args_at(tree, &kids, 0, params, defs, EVAL_FUEL) {
        ArgsOutcome::AllDone(args) => Result::Ok(args),
        ArgsOutcome::ArgFailed(e) => Result::Err(e),
        ArgsOutcome::ArgsSpent => Result::Err(EvalError::InternalError),
    }
}

/// For any literal value, evaluating a tree whose root holds that literal
/// returns the value unchanged, whatever the registry, the parameter vector
/// and the (positive) budget.
pub proof fn lemma_literal_eval(
    tree: Seq<IndexNode<Exp>>,
    params: Option<Seq<ValueV>>,
    defs: Seq<FnDef>,
    v: Value,
    fuel: nat,
)
    requires
        fuel >= 1,
        tree.len() >= 1,
        tree[0].val == Exp::Value(v),
    ensures
        spec_eval(tree, 0, params, defs, fuel) == OutV::Done(v@),
{
}

/// For any parameter vector and any position inside it, evaluating a lone
/// bound-variable node against that vector returns the parameter at the
/// position, unchanged and uncoerced, whatever the registry.
pub proof fn lemma_bound_variable_eval(
    tree: Seq<IndexNode<Exp>>,
    p: Seq<ValueV>,
    defs: Seq<FnDef>,
    b: exp::BVariable,
    fuel: nat,
)
    requires
        fuel >= 1,
        tree.len() >= 1,
        tree[0].val == Exp::BVariable(b),
        (b.index as int) < p.len(),
    ensures
        spec_eval(tree, 0, Option::Some(p), defs, fuel) == OutV::Done(p[b.index as int]),
{
}

/// A result that converges under some budget is the result under every
/// larger budget: evaluation is a pure function of tree, parameters and
/// registry, and the budget only bounds how deep it may go.
pub proof fn lemma_eval_fuel_monotone(
    tree: Seq<IndexNode<Exp>>,
    idx: int,
    params: Option<Seq<ValueV>>,
    defs: Seq<FnDef>,
    fuel1: nat,
    fuel2: nat,
)
    requires
        fuel1 <= fuel2,
        !(spec_eval(tree, idx, params, defs, fuel1) is OutOfFuel),
    ensures
        spec_eval(tree, idx, params, defs, fuel2) == spec_eval(tree, idx, params, defs, fuel1),
    decreases fuel1, 1int, 0int,
{
    if 0 <= idx < tree.len() {
        match tree[idx].val {
            Exp::FnApp(f) => {
                let kids = tree[idx].children@;
                let sub1 = (fuel1 - 1) as nat;
                let sub2 = (fuel2 - 1) as nat;
                lemma_eval_children_fuel_monotone(tree, kids, params, defs, sub1, sub2);
                match spec_eval_children(tree, kids, params, defs, sub1) {
                    ChildrenV::AllDone(args) => match spec_eval_core(f.name@, args) {
                        Result::Ok(_) => {},
                        Result::Err(_) => {
                            lemma_apply_fuel_monotone(f.name@, args, defs, sub1, sub2);
                        },
                    },
                    ChildrenV::ChildFail(_) => {},
                    ChildrenV::ChildrenOutOfFuel => {},
                }
            },
            _ => {},
        }
    }
}

/// The companion of [`lemma_eval_fuel_monotone`] for argument lists.
pub proof fn lemma_eval_children_fuel_monotone(
    tree: Seq<IndexNode<Exp>>,
    kids: Seq<usize>,
    params: Option<Seq<ValueV>>,
    defs: Seq<FnDef>,
    fuel1: nat,
    fuel2: nat,
)
    requires
        fuel1 <= fuel2,
        !(spec_eval_children(tree, kids, params, defs, fuel1) is ChildrenOutOfFuel),
    ensures
        spec_eval_children(tree, kids, params, defs, fuel2) == spec_eval_children(
            tree,
            kids,
            params,
            defs,
            fuel1,
        ),
    decreases fuel1, 2int, kids.len(),
{
    if kids.len() > 0 {
        match spec_eval(tree, kids[0] as int, params, defs, fuel1) {
            OutV::Done(_) => {
                lemma_eval_fuel_monotone(tree, kids[0] as int, params, defs, fuel1, fuel2);
                lemma_eval_children_fuel_monotone(tree, kids.skip(1), params, defs, fuel1, fuel2);
            },
            OutV::Fail(_) => {
                lemma_eval_fuel_monotone(tree, kids[0] as int, params, defs, fuel1, fuel2);
            },
            OutV::OutOfFuel => {},
        }
    }
}

/// The companion of [`lemma_eval_fuel_monotone`] for registry dispatch.
pub proof fn lemma_apply_fuel_monotone(
    name: Seq<char>,
    args: Seq<ValueV>,
    defs: Seq<FnDef>,
    fuel1: nat,
    fuel2: nat,
)
    requires
        fuel1 <= fuel2,
        !(spec_apply(name, args, defs, fuel1) is OutOfFuel),
    ensures
        spec_apply(name, args, defs, fuel2) == spec_apply(name, args, defs, fuel1),
    decreases fuel1, 2int, 0int,
{
    match first_named(defs, name) {
        Option::None => {},
        Option::Some(fd) => match first_matching_sig(fd.signatures@, spec_types_of(args)) {
            Option::None => {},
            Option::Some(sig) => {
                lemma_eval_fuel_monotone(
                    sig.fn_body.body@,
                    0,
                    Option::Some(args),
                    defs,
                    fuel1,
                    fuel2,
                );
            },
        },
    }
}

/// A definition may invoke its own name and still terminate when the
/// recursive application is caught by a built-in: a unary `"+"` whose body
/// applies `"+"` to its parameter twice dispatches the inner, binary
/// application to the built-in table, so for every integer argument the
/// call evaluates to twice that argument (wrapping on `i128` overflow),
/// under any sufficient budget.
pub proof fn lemma_self_reference_terminates(
    defs: Seq<FnDef>,
    fd: FnDef,
    sig: defs::Signature,
    f: exp::FnApp,
    b0: exp::BVariable,
    b1: exp::BVariable,
    n: i128,
    arg: ValueV,
    fuel: nat,
)
    requires
        fuel >= 3,
        defs =~= seq![fd],
        fd.name@ == "+"@,
        fd.signatures@ =~= seq![sig],
        sig.param_types@ =~= seq![exp::Type::Int],
        sig.fn_body.body@.len() == 3,
        sig.fn_body.body@[0].val == Exp::FnApp(f),
        f.name@ == "+"@,
        sig.fn_body.body@[0].children@ =~= seq![1usize, 2usize],
        sig.fn_body.body@[1].val == Exp::BVariable(b0),
        b0.index == 0,
        sig.fn_body.body@[2].val == Exp::BVariable(b1),
        b1.index == 0,
        arg == (ValueV { ty: exp::Type::Int, payload: exp::PayloadV::IntP(n as int) }),
    ensures
        spec_apply("+"@, seq![arg], defs, fuel) == OutV::Done(
            ValueV { ty: exp::Type::Int, payload: exp::PayloadV::IntP(n.wrapping_add(n) as int) },
        ),
{
    let body = sig.fn_body.body@;
    let args = seq![arg];

    // The lookup finds the one definition, and its one signature matches.
    assert(defs[0] == fd);
    assert(first_named(defs, "+"@) == Option::Some(fd));
    assert(spec_types_of(args) =~= seq![exp::Type::Int]);
    assert(fd.signatures@[0] == sig);
    assert(first_matching_sig(fd.signatures@, spec_types_of(args)) == Option::Some(sig));
    assert(spec_apply("+"@, args, defs, fuel) == spec_eval(
        body,
        0,
        Option::Some(args),
        defs,
        fuel,
    ));

    // Both children of the body's root are the bound variable at position
    // zero, so each evaluates to the argument.
    let inner = (fuel - 1) as nat;
    assert(spec_eval(body, 1, Option::Some(args), defs, inner) == OutV::Done(arg));
    assert(spec_eval(body, 2, Option::Some(args), defs, inner) == OutV::Done(arg));

    let kids = body[0].children@;
    assert(kids[0] == 1usize && kids[1] == 2usize && kids.len() == 2);
    assert(kids.skip(1) =~= seq![2usize]);
    assert(seq![2usize].skip(1) =~= Seq::<usize>::empty());
    assert(spec_eval_children(body, seq![2usize].skip(1), Option::Some(args), defs, inner)
        == ChildrenV::AllDone(Seq::empty()));
    assert(spec_eval_children(body, seq![2usize], Option::Some(args), defs, inner)
        == ChildrenV::AllDone(seq![arg] + Seq::empty()));
    let both = seq![arg] + (seq![arg] + Seq::<ValueV>::empty());
    assert(spec_eval_children(body, kids, Option::Some(args), defs, inner)
        == ChildrenV::AllDone(both));
    assert(both =~= seq![arg, arg]);

    // The inner, binary application is the built-in's: it adds.
    assert(spec_types_of(seq![arg, arg]) =~= seq![exp::Type::Int, exp::Type::Int]);
    let doubled = ValueV {
        ty: exp::Type::Int,
        payload: exp::PayloadV::IntP(n.wrapping_add(n) as int),
    };
    assert(spec_eval_core(f.name@, seq![arg, arg]) == Result::<ValueV, EvalError>::Ok(doubled));
    assert(spec_eval(body, 0, Option::Some(args), defs, fuel) == OutV::Done(doubled));
}

/// Built-ins shadow user definitions: when the node at `idx` is an
/// application whose evaluated arguments the built-in table accepts, the
/// built-in's result is the result of evaluation, whatever the registry
/// holds under the same name.
pub proof fn lemma_builtin_precedence(
    tree: Seq<IndexNode<Exp>>,
    idx: int,
    params: Option<Seq<ValueV>>,
    defs: Seq<FnDef>,
    f: exp::FnApp,
    args: Seq<ValueV>,
    v: ValueV,
    fuel: nat,
)
    requires
        fuel >= 1,
        0 <= idx < tree.len(),
        tree[idx].val == Exp::FnApp(f),
        spec_eval_children(tree, tree[idx].children@, params, defs, (fuel - 1) as nat)
            == ChildrenV::AllDone(args),
        spec_eval_core(f.name@, args) == Result::<ValueV, EvalError>::Ok(v),
    ensures
        spec_eval(tree, idx, params, defs, fuel) == OutV::Done(v),
{
}

} // verus!

