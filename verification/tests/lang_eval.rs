use gimbal::lang::eval::builtins::eval_core;
use gimbal::lang::eval::defs::{Defs, FnBody, FnDef, Signature};
use gimbal::lang::eval::eval;
use gimbal::lang::eval::exp::{BVariable, Exp, FnApp, Type, Value};
use gimbal::util::IndexTree;

fn test_defs() -> Defs {
    let t1 = Type::Int;
    let t2 = Type::Int;
    let second_types = vec![t1, t2];

    let mut second_fn_tree = IndexTree::new();
    second_fn_tree.add_node(None, Exp::BVariable(BVariable::new(1)));
    let second_fn_body = FnBody::new(second_fn_tree);

    let second_sig = Signature::new(Type::Int, second_types, second_fn_body);

    let second_fn_def = FnDef::new("second", vec![second_sig]);

    let mut defs = Defs::new();
    defs.insert(second_fn_def).unwrap();

    let t3 = Type::Int;
    let t4 = Type::Int;
    let plus_types = vec![t3, t4];

    let mut plus_fn_tree = IndexTree::new();
    plus_fn_tree.add_node(None, Exp::FnApp(FnApp::new("+")));
    plus_fn_tree.add_node(Some(0), Exp::BVariable(BVariable::new(0)));
    plus_fn_tree.add_node(Some(0), Exp::BVariable(BVariable::new(1)));

    let plus_fn_body = FnBody::new(plus_fn_tree);

    let plus_sig = Signature::new(Type::Int, plus_types, plus_fn_body);
    let plus_fn_def = FnDef::new("plus", vec![plus_sig]);

    let _ = defs.insert(plus_fn_def);

    defs
}

#[test]
fn eval_second() {
    let defs = test_defs();

    let fn_app = FnApp::new("second");

    let mut tree = IndexTree::new();
    tree.add_node(None, Exp::FnApp(fn_app));
    tree.add_node(Some(0), Exp::Value(Value::new_int(1)));
    tree.add_node(Some(0), Exp::Value(Value::new_int(3)));

    let result = eval(&tree, 0, None, &defs).unwrap();
    assert_eq!(3, result.int_value().unwrap());
}

#[test]
fn eval_core_plus() {
    let defs = test_defs();

    let fn_app = FnApp::new("+");

    let mut tree = IndexTree::new();
    tree.add_node(None, Exp::FnApp(fn_app));
    tree.add_node(Some(0), Exp::Value(Value::new_int(1)));
    tree.add_node(Some(0), Exp::Value(Value::new_int(3)));

    let result = eval(&tree, 0, None, &defs).unwrap();
    assert_eq!(4, result.int_value().unwrap());
}

#[test]
fn eval_custom_plus() {
    let defs = test_defs();

    let fn_app = FnApp::new("plus");

    let mut tree = IndexTree::new();
    tree.add_node(None, Exp::FnApp(fn_app));
    tree.add_node(Some(0), Exp::Value(Value::new_int(1)));
    tree.add_node(Some(0), Exp::Value(Value::new_int(3)));

    let result = eval(&tree, 0, None, &defs).unwrap();
    assert_eq!(4, result.int_value().unwrap());
}

#[test]
fn test_plus_int() {
    let p1 = Value::new_int(1);
    let p2 = Value::new_int(3);
    let params = vec![p1, p2];
    let fn_app = FnApp::new("+");
    let result = eval_core(&fn_app, &params).unwrap();
    assert_eq!(4, result.int_value().unwrap());
}

#[test]
fn bvarialbe_eval() {
    let v1 = Value::new_int(1);
    let v2 = Value::new_int(2);
    let params = vec![v1, v2];
    let b_var = BVariable::new(1);
    let eval = b_var.eval(&params);
    assert_eq!(2, eval.int_value().unwrap());
}

#[test]
fn fn_app_eval() {
    let defs = test_defs();

    let v1 = Value::new_int(1);
    let v2 = Value::new_int(2);
    let params = vec![v1, v2];

    let fn_app = FnApp::new("second");
    let result = fn_app.eval(&params, &defs).unwrap();
    assert_eq!(2, result.int_value().unwrap());
}
