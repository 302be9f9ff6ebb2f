//! The expression model: typed values, bound-variable references and
//! function-application heads, as stored in an expression tree.

use vstd::prelude::*;

use super::EvalError;

verus! {

/// The static type tag of a [`Value`].
#[derive(Clone, Copy, Debug, PartialEq, Eq, Structural)]
pub enum Type {
    Int,
    Float,
    Str,
}

/// The payload a [`Value`] carries: either an integer or a piece of text
/// (the textual form used for the non-integer types).
#[derive(Debug)]
pub enum Payload {
    Int(i128),
    Text(String),
}

/// The mathematical content of a [`Payload`]: an integer or a character
/// sequence.
pub enum PayloadV {
    IntP(int),
    TextP(Seq<char>),
}

/// The mathematical content of a [`Value`]: its type tag and its payload.
pub struct ValueV {
    pub ty: Type,
    pub payload: PayloadV,
}

/// A typed, immutable value: the result of evaluating an expression, and the
/// content of a literal node.  Equality compares both the tag and the
/// payload.
#[derive(Debug)]
pub struct Value {
    pub value: Payload,
    pub value_type: Type,
}

impl View for Payload {
    type V = PayloadV;

    open spec fn view(&self) -> PayloadV {
        match self {
            Payload::Int(i) => PayloadV::IntP(*i as int),
            Payload::Text(s) => PayloadV::TextP(s@),
        }
    }
}

impl View for Value {
    type V = ValueV;

    open spec fn view(&self) -> ValueV {
        ValueV { ty: self.value_type, payload: self.value@ }
    }
}

impl Clone for Payload {
    fn clone(&self) -> (r: Self)
        ensures
            r@ == self@,
    {
        match self {
            Payload::Int(i) => Payload::Int(*i),
            Payload::Text(s) => Payload::Text(s.clone()),
        }
    }
}

impl Clone for Value {
    fn clone(&self) -> (r: Self)
        ensures
            r@ == self@,
    {
        Value { value: self.value.clone(), value_type: self.value_type }
    }
}

impl PartialEq for Value {
    fn eq(&self, other: &Value) -> (r: bool) {
        if !(self.value_type == other.value_type) {
            false
        } else {
            match (&self.value, &other.value) {
                (Payload::Int(a), Payload::Int(b)) => *a == *b,
                (Payload::Text(a), Payload::Text(b)) => *a == *b,
                _ => false,
            }
        }
    }
}

impl vstd::std_specs::cmp::PartialEqSpecImpl for Value {
    open spec fn obeys_eq_spec() -> bool {
        true
    }

    open spec fn eq_spec(&self, other: &Value) -> bool {
        self@ == other@
    }
}

/// What [`Value::int_value`] returns for a value with the given content:
/// the integer payload of an `Int`-tagged value, `TypeError` for any other
/// tag, and `InternalError` when an `Int` tag sits on a non-integer payload.
pub open spec fn spec_int_value(v: ValueV) -> Result<i128, EvalError> {
    if v.ty != Type::Int {
        Result::Err(EvalError::TypeError)
    } else {
        match v.payload {
            PayloadV::IntP(i) => if i128::MIN <= i <= i128::MAX {
                Result::Ok(i as i128)
            } else {
                Result::Err(EvalError::InternalError)
            },
            PayloadV::TextP(_) => Result::Err(EvalError::InternalError),
        }
    }
}

impl Value {
    pub fn as_type(&self) -> (r: &Type)
        ensures
            *r == self@.ty,
    {
        &self.value_type
    }

    /// Whether the value is of one of the numeric types.
    pub fn is_num(&self) -> (r: bool)
        ensures
            r == (self@.ty == Type::Int || self@.ty == Type::Float),
    {
        *self.as_type() == Type::Int || *self.as_type() == Type::Float
    }

    /// Reads the value back as an integer; `TypeError` when the value is not
    /// `Int`-tagged.
    pub fn int_value(&self) -> (r: Result<i128, EvalError>)
        ensures
            r == spec_int_value(self@),
    {
        if self.value_type == Type::Int {
            match &self.value {
                Payload::Int(i) => Result::Ok(*i),
                Payload::Text(_) => Result::Err(EvalError::InternalError),
            }
        } else {
            Result::Err(EvalError::TypeError)
        }
    }

    pub fn new_int(value: i128) -> (v: Value)
        ensures
            v@ == (ValueV { ty: Type::Int, payload: PayloadV::IntP(value as int) }),
    {
        Value { value: Payload::Int(value), value_type: Type::Int }
    }
}

/// The mathematical contents of a vector of values.
pub open spec fn vals_of(vs: Seq<Value>) -> Seq<ValueV> {
    vs.map_values(|v: Value| v@)
}

/// A leaf expression resolved by position against the active call's
/// parameter vector.
#[derive(Debug)]
pub struct BVariable {
    pub index: usize,
}

impl BVariable {
    pub fn new(index: usize) -> (b: BVariable)
        ensures
            b.index == index,
    {
        BVariable { index }
    }

    /// The parameter this variable is bound to, copied out of the active
    /// parameter vector.
    pub fn eval(&self, params: &Vec<Value>) -> (r: Value)
        requires
            (self.index as int) < params@.len(),
        ensures
            r@ == params@[self.index as int]@,
    {
        params[self.index].clone()
    }
}

/// The head of a function-application node: the name under which the
/// arguments (the node's children) are dispatched.
#[derive(Debug)]
pub struct FnApp {
    pub name: String,
}

impl FnApp {
    pub fn new(name: &str) -> (f: FnApp)
        ensures
            f.name@ == name@,
    {
        FnApp { name: name.to_owned() }
    }

    pub fn name(&self) -> (r: &str)
        ensures
            r@ == self.name@,
    {
        self.name.as_str()
    }
}

impl FnApp {
    /// Dispatches this application against the registry with already
    /// evaluated argument values: the name is looked up, the overload
    /// resolved by the exact argument-type vector, and the signature's body
    /// evaluated with the arguments as the fresh parameter frame.
    pub fn eval(&self, params: &Vec<Value>, defs: &super::defs::Defs) -> (r: Result<
        Value,
        EvalError,
    >)
        requires
            defs.wf(),
        ensures
            super::result_matches(
                r,
                super::spec_apply(self.name@, vals_of(params@), defs@, super::EVAL_FUEL as nat),
            ),
    {
        match super::apply_at(self, params, defs, super::EVAL_FUEL) {
            super::Outcome::Done(v) => Result::Ok(v),
            super::Outcome::Failed(e) => Result::Err(e),
            super::Outcome::Spent => Result::Err(EvalError::InternalError),
        }
    }
}

/// The payload of one expression-tree node.
#[derive(Debug)]
pub enum Exp {
    Value(Value),
    FnApp(FnApp),
    Variable(String),
    BVariable(BVariable),
}

impl Exp {
    /// The literal under this node; `InternalError` for any other variant.
    pub fn to_value(&self) -> (r: Result<&Value, EvalError>)
        ensures
            match self {
                Exp::Value(v) => r == Result::<&Value, EvalError>::Ok(v),
                _ => r == Result::<&Value, EvalError>::Err(EvalError::InternalError),
            },
    {
        match self {
            Exp::Value(v) => Result::Ok(v),
            _ => Result::Err(EvalError::InternalError),
        }
    }

    /// The application head under this node; `InternalError` for any other
    /// variant.
    pub fn to_fn_app(&self) -> (r: Result<&FnApp, EvalError>)
        ensures
            match self {
                Exp::FnApp(f) => r == Result::<&FnApp, EvalError>::Ok(f),
                _ => r == Result::<&FnApp, EvalError>::Err(EvalError::InternalError),
            },
    {
        match self {
            Exp::FnApp(f) => Result::Ok(f),
            _ => Result::Err(EvalError::InternalError),
        }
    }
}

} // verus!
