//! The built-in function table: a closed mapping from a name and an ordered
//! argument-type vector to an intrinsic operation, consulted before the user
//! definitions.

use vstd::prelude::*;

use super::exp::{vals_of, FnApp, Payload, PayloadV, Type, Value, ValueV};
use super::EvalError;

verus! {

/// The type tags of an argument vector, in order.
pub open spec fn spec_types_of(args: Seq<ValueV>) -> Seq<Type> {
    args.map(|i: int, v: ValueV| v.ty)
}

/// What the built-in table answers for `name` applied to `args`: integer
/// addition (wrapping on `i128` overflow) for `"+"` on two `Int` values,
/// `UnknownFnSignature` for `"+"` on any other type vector, and `UnknownFn`
/// for every other name.  An `Int` tag over a non-integer payload is a
/// violated tree invariant and answers `InternalError`.
pub open spec fn spec_eval_core(name: Seq<char>, args: Seq<ValueV>) -> Result<ValueV, EvalError> {
    if name == "+"@ {
        if spec_types_of(args) == seq![Type::Int, Type::Int] {
            match (args[0].payload, args[1].payload) {
                (PayloadV::IntP(a), PayloadV::IntP(b)) => if i128::MIN <= a <= i128::MAX
                    && i128::MIN <= b <= i128::MAX {
                    Result::Ok(
                        ValueV {
                            ty: Type::Int,
                            payload: PayloadV::IntP(
                                (a as i128).wrapping_add(b as i128) as int,
                            ),
                        },
                    )
                } else {
                    Result::Err(EvalError::InternalError)
                },
                _ => Result::Err(EvalError::InternalError),
            }
        } else {
            Result::Err(EvalError::UnknownFnSignature)
        }
    } else {
        Result::Err(EvalError::UnknownFn)
    }
}

/// Adds the two `Int` parameters; on `i128` overflow the sum wraps.
pub fn plus_int(params: &Vec<Value>) -> (r: Value)
    requires
        params@.len() == 2,
        params@[0]@.payload is IntP,
        params@[1]@.payload is IntP,
    ensures
        r@.ty == Type::Int,
        r@.payload == PayloadV::IntP(
            (params@[0]@.payload->IntP_0 as i128).wrapping_add(
                params@[1]@.payload->IntP_0 as i128,
            ) as int,
        ),
{
    let a: i128 = match &params[0].value {
        Payload::Int(i) => *i,
        Payload::Text(_) => unreached(),
    };
    let b: i128 = match &params[1].value {
        Payload::Int(i) => *i,
        Payload::Text(_) => unreached(),
    };
    Value::new_int(a.wrapping_add(b))
}

/// Dispatches `fn_app` against the built-in table with the evaluated
/// argument values.
pub fn eval_core(fn_app: &FnApp, params: &Vec<Value>) -> (r: Result<Value, EvalError>)
    ensures
        match r {
            Result::Ok(v) => spec_eval_core(fn_app.name@, vals_of(params@))
                == Result::<ValueV, EvalError>::Ok(v@),
            Result::Err(e) => spec_eval_core(fn_app.name@, vals_of(params@))
                == Result::<ValueV, EvalError>::Err(e),
        },
{
    let ghost args = vals_of(params@);
    let plus: String = "+".to_owned();
    if fn_app.name == plus {
        let is_int_int: bool = params.len() == 2 && *params[0].as_type() == Type::Int
            && *params[1].as_type() == Type::Int;
        proof {
            assert(spec_types_of(args) =~= params@.map_values(|p: Value| p@.ty));
            assert(args.len() == params@.len());
            if is_int_int {
                assert(spec_types_of(args) =~= seq![Type::Int, Type::Int]);
            } else if spec_types_of(args) == seq![Type::Int, Type::Int] {
                assert(args.len() == 2);
                assert(spec_types_of(args)[0] == Type::Int);
                assert(spec_types_of(args)[1] == Type::Int);
                assert(params@[0]@.ty == Type::Int);
                assert(params@[1]@.ty == Type::Int);
                assert(false);
            }
        }
        if is_int_int {
            match (&params[0].value, &params[1].value) {
                (Payload::Int(_), Payload::Int(_)) => Result::Ok(plus_int(params)),
                _ => Result::Err(EvalError::InternalError),
            }
        } else {
            Result::Err(EvalError::UnknownFnSignature)
        }
    } else {
        Result::Err(EvalError::UnknownFn)
    }
}

/// The type tags of the values in `params`, in order.
pub fn types_of(params: &Vec<Value>) -> (r: Vec<Type>)
    ensures
        r@ == spec_types_of(vals_of(params@)),
{
    let mut r: Vec<Type> = Vec::new();
    let mut i: usize = 0;
    while i < params.len()
        invariant
            i as int <= params@.len(),
            r@.len() == i as int,
            forall|m: int| 0 <= m < i as int ==> #[trigger] r@[m] == params@[m]@.ty,
        decreases params@.len() - i as int,
    {
        r.push(*params[i].as_type());
        i = i + 1;
    }
    proof {
        assert(r@ =~= spec_types_of(vals_of(params@)));
    }
    r
}

} // verus!
