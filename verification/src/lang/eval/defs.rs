//! The definitions registry: a name-keyed store of user-defined functions,
//! each owning one or more signatures (overloads) with their bodies.

use vstd::prelude::*;

use super::exp::{Exp, FnApp, Type};
use super::EvalError;
use crate::util::{contains_name, first_named, IndexTree, NameMap, NameMapError, Named};

verus! {

/// The expression tree that forms the body of one signature.
#[derive(Debug)]
pub struct FnBody {
    pub body: IndexTree<Exp>,
}

impl FnBody {
    pub open spec fn wf(&self) -> bool {
        self.body.wf()
    }

    pub fn new(body: IndexTree<Exp>) -> (b: FnBody)
        ensures
            b.body == body,
    {
        FnBody { body }
    }

    pub fn body(&self) -> (r: &IndexTree<Exp>)
        ensures
            r == &self.body,
    {
        &self.body
    }
}

/// One overload of a function definition: its return type, its ordered
/// parameter types, and its body.  The body may reference bound-variable
/// positions only below the parameter count; preserving that is the tree
/// producer's obligation, and a violation surfaces as `InternalError` at
/// evaluation time.
#[derive(Debug)]
pub struct Signature {
    pub fn_type: Type,
    pub param_types: Vec<Type>,
    pub fn_body: FnBody,
}

impl Signature {
    pub open spec fn wf(&self) -> bool {
        self.fn_body.wf()
    }

    pub fn new(fn_type: Type, param_types: Vec<Type>, fn_body: FnBody) -> (s: Signature)
        ensures
            s.fn_type == fn_type,
            s.param_types == param_types,
            s.fn_body == fn_body,
    {
        Signature { fn_type, param_types, fn_body }
    }

    pub fn fn_body(&self) -> (r: &FnBody)
        ensures
            r == &self.fn_body,
    {
        &self.fn_body
    }

    pub fn param_types(&self) -> (r: Vec<Type>)
        ensures
            r@ =~= self.param_types@,
    {
        let mut r: Vec<Type> = Vec::new();
        let mut i: usize = 0;
        while i < self.param_types.len()
            invariant
                i as int <= self.param_types@.len(),
                r@ =~= self.param_types@.subrange(0, i as int),
            decreases self.param_types@.len() - i as int,
        {
            r.push(self.param_types[i]);
            i = i + 1;
        }
        proof {
            assert(self.param_types@.subrange(0, self.param_types@.len() as int)
                =~= self.param_types@);
        }
        r
    }
}

/// A named function definition: a non-empty ordered collection of
/// signatures, all supplied together at construction time.
#[derive(Debug)]
pub struct FnDef {
    pub name: String,
    pub signatures: Vec<Signature>,
}

impl Named for FnDef {
    open spec fn spec_name(&self) -> Seq<char> {
        self.name@
    }

    fn name(&self) -> (s: String) {
        self.name.clone()
    }
}

/// The first signature in `sigs` whose parameter-type vector equals `types`
/// element-wise, if any: overload resolution scans in declaration order and
/// admits no coercion, no arity flexibility and no reordering.
pub open spec fn first_matching_sig(sigs: Seq<Signature>, types: Seq<Type>) -> Option<Signature>
    decreases sigs.len(),
{
    if sigs.len() == 0 {
        Option::None
    } else if sigs[0].param_types@ == types {
        Option::Some(sigs[0])
    } else {
        first_matching_sig(sigs.subrange(1, sigs.len() as int), types)
    }
}

/// Whether the signatures are all well formed (their bodies are well-formed
/// trees).
pub open spec fn def_wf(d: FnDef) -> bool {
    forall|k: int| 0 <= k < d.signatures@.len() ==> (#[trigger] d.signatures@[k]).wf()
}

/// Compares two type vectors element-wise.
fn type_vecs_equal(a: &Vec<Type>, b: &Vec<Type>) -> (r: bool)
    ensures
        r == (a@ == b@),
{
    if a.len() != b.len() {
        proof {
            assert(a@ != b@);
        }
        return false;
    }
    let mut i: usize = 0;
    while i < a.len()
        invariant
            a@.len() == b@.len(),
            i as int <= a@.len(),
            forall|m: int| 0 <= m < i as int ==> a@[m] == b@[m],
        decreases a@.len() - i as int,
    {
        if !(a[i] == b[i]) {
            proof {
                assert(a@[i as int] != b@[i as int]);
            }
            return false;
        }
        i = i + 1;
    }
    proof {
        assert(a@ =~= b@);
    }
    true
}

impl FnDef {
    pub fn new(name: &str, signatures: Vec<Signature>) -> (f: FnDef)
        ensures
            f.name@ == name@,
            f.signatures == signatures,
    {
        FnDef { name: name.to_owned(), signatures }
    }

    /// Resolves an overload: the first signature whose parameter-type vector
    /// is element-wise equal to `param_types`, or `UnknownFnSignature` when
    /// none matches.
    pub fn get_signature(&self, param_types: &Vec<Type>) -> (r: Result<&Signature, EvalError>)
        ensures
            match r {
                Result::Ok(s) => first_matching_sig(self.signatures@, param_types@)
                    == Option::Some(*s),
                Result::Err(e) => {
                    &&& e == EvalError::UnknownFnSignature
                    &&& first_matching_sig(self.signatures@, param_types@) is None
                },
            },
    {
        proof {
            assert(self.signatures@.subrange(0, self.signatures@.len() as int)
                =~= self.signatures@);
        }
        let mut i: usize = 0;
        while i < self.signatures.len()
            invariant
                i as int <= self.signatures@.len(),
                first_matching_sig(self.signatures@, param_types@) == first_matching_sig(
                    self.signatures@.subrange(i as int, self.signatures@.len() as int),
                    param_types@,
                ),
            decreases self.signatures@.len() - i as int,
        {
            proof {
                let rest = self.signatures@.subrange(i as int, self.signatures@.len() as int);
                assert(rest[0] == self.signatures@[i as int]);
                assert(rest.subrange(1, rest.len() as int) =~= self.signatures@.subrange(
                    i as int + 1,
                    self.signatures@.len() as int,
                ));
            }
            if type_vecs_equal(&self.signatures[i].param_types, param_types) {
                return Result::Ok(&self.signatures[i]);
            }
            i = i + 1;
        }
        Result::Err(EvalError::UnknownFnSignature)
    }
}

/// Overload resolution is exact: a signature is found exactly when its
/// parameter-type vector is element-wise equal to the looked-up vector, so
/// no resolution admits coercion, arity flexibility or reordering.
pub proof fn lemma_resolution_exact(sigs: Seq<Signature>, types: Seq<Type>)
    ensures
        match first_matching_sig(sigs, types) {
            Option::Some(s) => s.param_types@ == types && exists|i: int|
                0 <= i < sigs.len() && sigs[i] == s,
            Option::None => forall|i: int|
                0 <= i < sigs.len() ==> (#[trigger] sigs[i]).param_types@ != types,
        },
    decreases sigs.len(),
{
    if sigs.len() > 0 {
        if sigs[0].param_types@ == types {
            assert(sigs[0] == first_matching_sig(sigs, types)->Some_0);
        } else {
            let rest = sigs.subrange(1, sigs.len() as int);
            lemma_resolution_exact(rest, types);
            match first_matching_sig(rest, types) {
                Option::Some(s) => {
                    let i = choose|i: int| 0 <= i < rest.len() && rest[i] == s;
                    assert(sigs[i + 1] == rest[i]);
                },
                Option::None => {
                    assert forall|i: int| 0 <= i < sigs.len() implies (
                    #[trigger] sigs[i]).param_types@ != types by {
                        if i >= 1 {
                            assert(sigs[i] == rest[i - 1]);
                        }
                    }
                },
            }
        }
    }
}

/// Resolution is order-sensitive: signatures declared for the parameter
/// types `[Int, Float]` never resolve for arguments typed `[Float, Int]`.
pub proof fn lemma_resolution_order_sensitive(sigs: Seq<Signature>)
    requires
        forall|i: int|
            0 <= i < sigs.len() ==> (#[trigger] sigs[i]).param_types@ == seq![
                Type::Int,
                Type::Float,
            ],
    ensures
        first_matching_sig(sigs, seq![Type::Float, Type::Int]) is None,
{
    let swapped = seq![Type::Float, Type::Int];
    assert(seq![Type::Int, Type::Float][0] != swapped[0]);
    lemma_resolution_exact(sigs, swapped);
    match first_matching_sig(sigs, swapped) {
        Option::Some(s) => {
            let i = choose|i: int| 0 <= i < sigs.len() && sigs[i] == s;
            assert(sigs[i].param_types@ == seq![Type::Int, Type::Float]);
            assert(false);
        },
        Option::None => {},
    }
}

/// The definitions registry: maps each name to exactly one [`FnDef`].
/// Populated before evaluation begins, read-only afterwards.
#[derive(Debug)]
pub struct Defs {
    pub fn_defs: NameMap<FnDef>,
}

impl View for Defs {
    type V = Seq<FnDef>;

    open spec fn view(&self) -> Seq<FnDef> {
        self.fn_defs@
    }
}

impl Defs {
    /// Names are unique and every stored body is a well-formed tree.
    pub open spec fn wf(&self) -> bool {
        &&& self.fn_defs.wf()
        &&& forall|i: int| 0 <= i < self@.len() ==> def_wf(#[trigger] self@[i])
    }

    pub fn new() -> (d: Defs)
        ensures
            d@ =~= Seq::<FnDef>::empty(),
            d.wf(),
    {
        Defs { fn_defs: NameMap::new() }
    }

    /// Registers a definition.  Registration is one-shot: a second definition
    /// under an already-used name is refused with `NameAlreadyExists`, and
    /// the registry is left exactly as it was.
    pub fn insert(&mut self, fn_def: FnDef) -> (r: Result<(), EvalError>)
        requires
            old(self).wf(),
            def_wf(fn_def),
        ensures
            final(self).wf(),
            if contains_name(old(self)@, fn_def.spec_name()) {
                &&& r == Result::<(), EvalError>::Err(EvalError::NameAlreadyExists)
                &&& final(self)@ == old(self)@
            } else {
                &&& r is Ok
                &&& final(self)@ =~= old(self)@.push(fn_def)
            },
    {
        let ghost fd = fn_def;
        let r = match self.fn_defs.insert(fn_def) {
            Result::Ok(()) => Result::Ok(()),
            Result::Err(NameMapError::NameAlreadyExists(_)) => Result::Err(
                EvalError::NameAlreadyExists,
            ),
        };
        proof {
            assert forall|i: int| 0 <= i < self@.len() implies def_wf(#[trigger] self@[i]) by {
                if i < old(self)@.len() {
                    assert(def_wf(old(self)@[i]));
                } else {
                    assert(self@[i] == fd);
                }
            }
        }
        r
    }

    /// Looks the application's name up in the registry; `UnknownFn` when it
    /// is not registered.
    pub fn get_fn_def(&self, fn_app: &FnApp) -> (r: Result<&FnDef, EvalError>)
        requires
            self.wf(),
        ensures
            match r {
                Result::Ok(fd) => {
                    &&& first_named(self@, fn_app.name@) == Option::Some(*fd)
                    &&& def_wf(*fd)
                },
                Result::Err(e) => {
                    &&& e == EvalError::UnknownFn
                    &&& first_named(self@, fn_app.name@) is None
                    &&& !contains_name(self@, fn_app.name@)
                },
            },
    {
        proof {
            crate::util::lemma_first_named_contains(self@, fn_app.name@);
        }
        match self.fn_defs.get(fn_app.name()) {
            Option::Some(fd) => {
                proof {
                    let i = choose|i: int| 0 <= i < self@.len() && self@[i] == *fd;
                    assert(def_wf(self@[i]));
                }
                Result::Ok(fd)
            },
            Option::None => Result::Err(EvalError::UnknownFn),
        }
    }
}

} // verus!
