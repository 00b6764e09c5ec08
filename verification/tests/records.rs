use airlang::prelude::{abstract1, bool, change, either, str_, task, unit};
use airlang::types::copy::val_eq;
use airlang::types::val::{NodeKind, PairVal, Val, ValMap, WrapKind};
use num_bigint::BigInt;

fn num(i: i64) -> Val {
    Val::Int(BigInt::from(i))
}

fn sym(s: &str) -> Val {
    Val::Symbol(s.to_string())
}

fn pair(a: Val, b: Val) -> Val {
    Val::Pair(Box::new(PairVal { first: a, second: b }))
}

#[test]
fn either_sides() {
    let mut e = either::fn_this(num(1));
    assert!(matches!(either::fn_is_this(&e, Val::Unit), Val::Bit(true)));
    assert!(matches!(either::fn_is_that(&e, Val::Unit), Val::Bit(false)));
    assert!(val_eq(&either::fn_get(&e, Val::Unit), &num(1)));
    let old = either::fn_set(&mut e, num(2));
    assert!(val_eq(&old, &num(1)));
    assert!(val_eq(&either::fn_get(&e, Val::Unit), &num(2)));
    assert!(matches!(either::fn_is_this(&num(0), Val::Unit), Val::Unit));
}

#[test]
fn change_record_parts() {
    let mut c = change::fn_new(pair(num(1), num(2)));
    assert!(matches!(&c, Val::Node(NodeKind::Change, _)));
    assert!(val_eq(&change::fn_get_from(&c, Val::Unit), &num(1)));
    let old = change::fn_set_to(&mut c, num(3));
    assert!(val_eq(&old, &num(2)));
    assert!(val_eq(&change::fn_get_to(&c, Val::Unit), &num(3)));
    assert!(matches!(change::fn_new(num(1)), Val::Unit));
}

#[test]
fn abstract_record_parts() {
    let mut a = abstract1::fn_new(sym("f"));
    assert!(matches!(&a, Val::Wrap(WrapKind::Abstract, _)));
    assert!(val_eq(&abstract1::fn_get_function(&a, Val::Unit), &sym("f")));
    let old = abstract1::fn_set_function(&mut a, sym("g"));
    assert!(val_eq(&old, &sym("f")));
    assert!(val_eq(&abstract1::fn_get_function(&a, Val::Unit), &sym("g")));
}

#[test]
fn task_from_map() {
    let mut m = ValMap::new();
    m.insert(sym("function"), sym("f"));
    m.insert(sym("input"), num(1));
    let mut t = task::fn_new_solve(Val::Dict(m));
    assert!(matches!(task::fn_is_solve(&t, Val::Unit), Val::Bit(true)));
    assert!(val_eq(&task::fn_func(&t, Val::Unit), &sym("f")));
    assert!(matches!(task::fn_ctx(&t, Val::Unit), Val::Unit));
    task::fn_set_ctx(&mut t, sym("c"));
    assert!(val_eq(&task::fn_ctx(&t, Val::Unit), &sym("c")));
    assert!(matches!(task::fn_new_call(num(1)), Val::Unit));
}

#[test]
fn bool_logic() {
    assert!(matches!(bool::fn_is_true(Val::Bit(true)), Val::Bit(true)));
    assert!(matches!(bool::fn_is_false(Val::Bit(true)), Val::Bit(false)));
    assert!(matches!(bool::fn_and(pair(Val::Bit(true), Val::Bit(true))), Val::Bit(true)));
}

#[test]
fn strings_and_unit() {
    let s = str_::fn_concat(Val::List(vec![Val::Text("a".to_string()), Val::Text("b".to_string())]));
    assert!(val_eq(&s, &Val::Text("ab".to_string())));
    assert!(matches!(unit::fn_unit(num(1)), Val::Unit));
}
