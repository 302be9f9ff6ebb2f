use gimbal::lang::eval::defs::{Defs, FnBody, FnDef, Signature};
use gimbal::lang::eval::eval;
use gimbal::lang::eval::exp::{BVariable, Exp, FnApp, Payload, Type, Value};
use gimbal::lang::eval::EvalError;
use gimbal::util::IndexTree;

fn single_node_tree(e: Exp) -> IndexTree<Exp> {
    let mut tree = IndexTree::new();
    tree.add_node(None, e);
    tree
}

#[test]
fn literal_evaluates_to_itself() {
    let defs = Defs::new();
    let tree = single_node_tree(Exp::Value(Value::new_int(42)));
    let result = eval(&tree, 0, None, &defs).unwrap();
    assert_eq!(42, result.int_value().unwrap());
    let negative = single_node_tree(Exp::Value(Value::new_int(-7)));
    assert_eq!(-7, eval(&negative, 0, None, &defs).unwrap().int_value().unwrap());
}

#[test]
fn bound_variable_picks_parameter() {
    let defs = Defs::new();
    let tree = single_node_tree(Exp::BVariable(BVariable::new(0)));
    let params = vec![Value::new_int(11), Value::new_int(22)];
    let result = eval(&tree, 0, Some(&params), &defs).unwrap();
    assert_eq!(11, result.int_value().unwrap());
}

#[test]
fn bound_variable_without_frame_is_internal_error() {
    let defs = Defs::new();
    let tree = single_node_tree(Exp::BVariable(BVariable::new(0)));
    let result = eval(&tree, 0, None, &defs);
    assert_eq!(result.unwrap_err(), EvalError::InternalError);
}

#[test]
fn builtin_shadows_user_definition() {
    // A user definition of "+" for (Int, Int) returning the constant 100:
    // the built-in must win, so +(1, 3) is 4, not 100.
    let mut shadow_tree = IndexTree::new();
    shadow_tree.add_node(None, Exp::Value(Value::new_int(100)));
    let shadow_sig = Signature::new(
        Type::Int,
        vec![Type::Int, Type::Int],
        FnBody::new(shadow_tree),
    );
    let mut defs = Defs::new();
    defs.insert(FnDef::new("+", vec![shadow_sig])).unwrap();

    let mut tree = IndexTree::new();
    tree.add_node(None, Exp::FnApp(FnApp::new("+")));
    tree.add_node(Some(0), Exp::Value(Value::new_int(1)));
    tree.add_node(Some(0), Exp::Value(Value::new_int(3)));
    let result = eval(&tree, 0, None, &defs).unwrap();
    assert_eq!(4, result.int_value().unwrap());
}

#[test]
fn overload_resolution_is_order_sensitive() {
    let mut body_tree = IndexTree::new();
    body_tree.add_node(None, Exp::BVariable(BVariable::new(0)));
    let sig = Signature::new(
        Type::Int,
        vec![Type::Int, Type::Float],
        FnBody::new(body_tree),
    );
    let def = FnDef::new("mix", vec![sig]);
    assert!(def.get_signature(&vec![Type::Int, Type::Float]).is_ok());
    let swapped = def.get_signature(&vec![Type::Float, Type::Int]);
    assert_eq!(swapped.unwrap_err(), EvalError::UnknownFnSignature);
    let shorter = def.get_signature(&vec![Type::Int]);
    assert_eq!(shorter.unwrap_err(), EvalError::UnknownFnSignature);
}

#[test]
fn duplicate_registration_keeps_first_definition() {
    let mut first_tree = IndexTree::new();
    first_tree.add_node(None, Exp::Value(Value::new_int(1)));
    let first = FnDef::new(
        "f",
        vec![Signature::new(Type::Int, vec![], FnBody::new(first_tree))],
    );

    let mut second_tree = IndexTree::new();
    second_tree.add_node(None, Exp::Value(Value::new_int(2)));
    let second = FnDef::new(
        "f",
        vec![Signature::new(Type::Int, vec![], FnBody::new(second_tree))],
    );

    let mut defs = Defs::new();
    defs.insert(first).unwrap();
    let refused = defs.insert(second);
    assert_eq!(refused.unwrap_err(), EvalError::NameAlreadyExists);

    // The registry still answers with the first definition's body.
    let tree = {
        let mut t = IndexTree::new();
        t.add_node(None, Exp::FnApp(FnApp::new("f")));
        t
    };
    let result = eval(&tree, 0, None, &defs).unwrap();
    assert_eq!(1, result.int_value().unwrap());
}

#[test]
fn self_referential_definition_terminates() {
    // A unary "+" whose body applies "+" to its parameter twice: the inner
    // application is caught by the binary built-in, so the self-reference
    // terminates and doubles the argument.
    let mut body_tree = IndexTree::new();
    body_tree.add_node(None, Exp::FnApp(FnApp::new("+")));
    body_tree.add_node(Some(0), Exp::BVariable(BVariable::new(0)));
    body_tree.add_node(Some(0), Exp::BVariable(BVariable::new(0)));
    let sig = Signature::new(Type::Int, vec![Type::Int], FnBody::new(body_tree));
    let mut defs = Defs::new();
    defs.insert(FnDef::new("+", vec![sig])).unwrap();

    let mut tree = IndexTree::new();
    tree.add_node(None, Exp::FnApp(FnApp::new("+")));
    tree.add_node(Some(0), Exp::Value(Value::new_int(5)));
    let result = eval(&tree, 0, None, &defs).unwrap();
    assert_eq!(10, result.int_value().unwrap());
}

#[test]
fn recursive_call_through_second_overload() {
    // "sum" with two overloads; the unary one invokes "sum" again with a
    // second, literal argument, so the definition calls itself by name and
    // still terminates: sum(5) = sum(5, 3) = 5 + 3.
    let mut unary_body = IndexTree::new();
    unary_body.add_node(None, Exp::FnApp(FnApp::new("sum")));
    unary_body.add_node(Some(0), Exp::BVariable(BVariable::new(0)));
    unary_body.add_node(Some(0), Exp::Value(Value::new_int(3)));
    let unary = Signature::new(Type::Int, vec![Type::Int], FnBody::new(unary_body));

    let mut binary_body = IndexTree::new();
    binary_body.add_node(None, Exp::FnApp(FnApp::new("+")));
    binary_body.add_node(Some(0), Exp::BVariable(BVariable::new(0)));
    binary_body.add_node(Some(0), Exp::BVariable(BVariable::new(1)));
    let binary = Signature::new(
        Type::Int,
        vec![Type::Int, Type::Int],
        FnBody::new(binary_body),
    );

    let mut defs = Defs::new();
    defs.insert(FnDef::new("sum", vec![unary, binary])).unwrap();

    let mut tree = IndexTree::new();
    tree.add_node(None, Exp::FnApp(FnApp::new("sum")));
    tree.add_node(Some(0), Exp::Value(Value::new_int(5)));
    let result = eval(&tree, 0, None, &defs).unwrap();
    assert_eq!(8, result.int_value().unwrap());
}

#[test]
fn unknown_fn_on_empty_registry() {
    let defs = Defs::new();
    let mut tree = IndexTree::new();
    tree.add_node(None, Exp::FnApp(FnApp::new("unknownFn")));
    tree.add_node(Some(0), Exp::Value(Value::new_int(1)));
    tree.add_node(Some(0), Exp::Value(Value::new_int(2)));
    let result = eval(&tree, 0, None, &defs);
    assert_eq!(result.unwrap_err(), EvalError::UnknownFn);
}

#[test]
fn double_failure_reports_builtin_error() {
    // "+" applied to one argument: the built-in fails with
    // UnknownFnSignature, the registry lookup fails with UnknownFn, and the
    // built-in's error is the one reported.
    let defs = Defs::new();
    let mut tree = IndexTree::new();
    tree.add_node(None, Exp::FnApp(FnApp::new("+")));
    tree.add_node(Some(0), Exp::Value(Value::new_int(1)));
    let result = eval(&tree, 0, None, &defs);
    assert_eq!(result.unwrap_err(), EvalError::UnknownFnSignature);
}

#[test]
fn arguments_evaluate_eagerly_left_to_right() {
    // Nested applications: +(+(1, 2), +(3, 4)) = 10.
    let defs = Defs::new();
    let mut tree = IndexTree::new();
    let root = tree.add_node(None, Exp::FnApp(FnApp::new("+")));
    let left = tree.add_node(Some(root), Exp::FnApp(FnApp::new("+")));
    let right = tree.add_node(Some(root), Exp::FnApp(FnApp::new("+")));
    tree.add_node(Some(left), Exp::Value(Value::new_int(1)));
    tree.add_node(Some(left), Exp::Value(Value::new_int(2)));
    tree.add_node(Some(right), Exp::Value(Value::new_int(3)));
    tree.add_node(Some(right), Exp::Value(Value::new_int(4)));
    let result = eval(&tree, 0, None, &defs).unwrap();
    assert_eq!(10, result.int_value().unwrap());
}

#[test]
fn failing_argument_fails_the_application() {
    let defs = Defs::new();
    let mut tree = IndexTree::new();
    let root = tree.add_node(None, Exp::FnApp(FnApp::new("+")));
    tree.add_node(Some(root), Exp::Value(Value::new_int(1)));
    tree.add_node(Some(root), Exp::FnApp(FnApp::new("nope")));
    let result = eval(&tree, 0, None, &defs);
    assert_eq!(result.unwrap_err(), EvalError::UnknownFn);
}

#[test]
fn value_accessors() {
    let v = Value::new_int(9);
    assert_eq!(*v.as_type(), Type::Int);
    assert!(v.is_num());
    assert_eq!(9, v.int_value().unwrap());
    assert_eq!(v.clone(), v);

    let text = Value {
        value: Payload::Text("1.5".to_string()),
        value_type: Type::Float,
    };
    assert!(text.is_num());
    assert_eq!(text.int_value().unwrap_err(), EvalError::TypeError);

    let s = Value {
        value: Payload::Text("abc".to_string()),
        value_type: Type::Str,
    };
    assert!(!s.is_num());
    assert_ne!(s, v);
}

#[test]
fn exp_projections() {
    let lit = Exp::Value(Value::new_int(1));
    assert_eq!(1, lit.to_value().unwrap().int_value().unwrap());
    assert_eq!(lit.to_fn_app().unwrap_err(), EvalError::InternalError);

    let app = Exp::FnApp(FnApp::new("g"));
    assert_eq!("g", app.to_fn_app().unwrap().name());
    assert_eq!(app.to_value().unwrap_err(), EvalError::InternalError);

    let var = Exp::Variable("x".to_string());
    assert_eq!(var.to_value().unwrap_err(), EvalError::InternalError);
}

#[test]
fn variable_node_is_internal_error() {
    let defs = Defs::new();
    let tree = single_node_tree(Exp::Variable("x".to_string()));
    let result = eval(&tree, 0, None, &defs);
    assert_eq!(result.unwrap_err(), EvalError::InternalError);
}

#[test]
fn wrapping_addition_on_overflow() {
    let defs = Defs::new();
    let mut tree = IndexTree::new();
    tree.add_node(None, Exp::FnApp(FnApp::new("+")));
    tree.add_node(Some(0), Exp::Value(Value::new_int(i128::MAX)));
    tree.add_node(Some(0), Exp::Value(Value::new_int(1)));
    let result = eval(&tree, 0, None, &defs).unwrap();
    assert_eq!(i128::MIN, result.int_value().unwrap());
}
