use airlang::prelude::ctx::{
    fn_assign, fn_contract, fn_ctx_new, fn_ctx_repr, fn_is_const_const, fn_is_const_mut, fn_is_null,
    fn_move, fn_read, fn_set_contract,
};
use airlang::prelude::value::{fn_equal, fn_type};
use airlang::types::copy::val_eq;
use airlang::types::val::ValMap;
use airlang::types::val::{Contract, CtxVal, CtxVar, PairVal, Val};
use num_bigint::BigInt;

fn num(i: i64) -> Val {
    Val::Int(BigInt::from(i))
}

fn sym(s: &str) -> Val {
    Val::Symbol(s.to_string())
}

fn pair(a: Val, b: Val) -> Val {
    Val::Pair(Box::new(PairVal { first: a, second: b }))
}

fn ctx_of(vars: Vec<(&str, Contract, Val)>) -> Val {
    Val::Ctx(CtxVal {
        vars: vars.into_iter().map(|(n, c, v)| CtxVar { name: n.to_string(), contract: c, val: v }).collect(),
    })
}

#[test]
fn assign_then_read() {
    let mut ctx = ctx_of(vec![]);
    let last = fn_assign(&mut ctx, pair(sym("a"), num(1)));
    assert!(matches!(last, Val::Unit));
    assert!(val_eq(&fn_read(&ctx, sym("a")), &num(1)));
    let last = fn_assign(&mut ctx, pair(sym("a"), num(2)));
    assert!(val_eq(&last, &num(1)));
    assert!(val_eq(&fn_read(&ctx, sym("a")), &num(2)));
}

#[test]
fn pattern_assign_binds_parts() {
    let mut ctx = ctx_of(vec![]);
    fn_assign(&mut ctx, pair(pair(sym("x"), sym("#y")), pair(num(1), num(2))));
    assert!(val_eq(&fn_read(&ctx, sym("x")), &num(1)));
    assert!(val_eq(&fn_read(&ctx, sym("y")), &num(2)));
    fn_assign(&mut ctx, pair(Val::List(vec![sym("p"), sym("q")]), Val::List(vec![num(5)])));
    assert!(val_eq(&fn_read(&ctx, sym("p")), &num(5)));
    assert!(matches!(fn_read(&ctx, sym("q")), Val::Unit));
}

#[test]
fn pattern_mismatch_binds_nothing() {
    let mut ctx = ctx_of(vec![]);
    let r = fn_assign(&mut ctx, pair(pair(sym("x"), sym("*lit")), pair(num(1), sym("other"))));
    assert!(matches!(r, Val::Unit));
    assert!(matches!(fn_is_null(&ctx, sym("x")), Val::Bit(true)));
    fn_assign(&mut ctx, pair(pair(sym("x"), sym("*lit")), pair(num(1), sym("lit"))));
    assert!(val_eq(&fn_read(&ctx, sym("x")), &num(1)));
}

#[test]
fn move_takes_a_variable_out() {
    let mut ctx = ctx_of(vec![("a", Contract::Open, num(1))]);
    assert!(val_eq(&fn_move(&mut ctx, sym("a")), &num(1)));
    assert!(matches!(fn_is_null(&ctx, sym("a")), Val::Bit(true)));
    assert!(matches!(fn_move(&mut ctx, sym("a")), Val::Unit));
}

#[test]
fn contracts_restrict_variables() {
    let mut ctx = ctx_of(vec![("a", Contract::Open, num(1))]);
    fn_set_contract(&mut ctx, pair(sym("a"), sym("final")));
    assert!(val_eq(&fn_contract(&ctx, sym("a")), &sym("final")));
    let r = fn_assign(&mut ctx, pair(sym("a"), num(9)));
    assert!(matches!(r, Val::Unit));
    assert!(val_eq(&fn_read(&ctx, sym("a")), &num(1)));
    fn_set_contract(&mut ctx, pair(sym("a"), sym("none")));
    assert!(val_eq(&fn_contract(&ctx, sym("a")), &sym("final")), "a contract is never loosened");
    fn_set_contract(&mut ctx, pair(sym("a"), sym("constant")));
    assert!(matches!(fn_move(&mut ctx, sym("a")), Val::Unit));
    assert!(val_eq(&fn_read(&ctx, sym("a")), &num(1)));
}

#[test]
fn still_variables_stay() {
    let mut ctx = ctx_of(vec![("s", Contract::Still, num(1))]);
    assert!(matches!(fn_move(&mut ctx, sym("s")), Val::Unit));
    fn_assign(&mut ctx, pair(sym("s"), num(2)));
    assert!(val_eq(&fn_read(&ctx, sym("s")), &num(2)));
}

#[test]
fn context_written_and_read_back() {
    let mut m = ValMap::new();
    m.insert(sym("a"), pair(sym("still"), num(1)));
    m.insert(sym("b"), pair(Val::Unit, num(2)));
    let ctx = fn_ctx_new(Val::Dict(m));
    assert!(val_eq(&fn_contract(&ctx, sym("a")), &sym("still")));
    assert!(val_eq(&fn_contract(&ctx, sym("b")), &sym("none")));
    let written = fn_ctx_repr(airlang::types::copy::copy_val(&ctx));
    assert!(val_eq(&fn_ctx_new(written), &ctx));
    let mut bad = ValMap::new();
    bad.insert(sym("a"), pair(sym("sometimes"), num(1)));
    assert!(matches!(fn_ctx_new(Val::Dict(bad)), Val::Unit));
}

#[test]
fn is_constant_depends_on_access() {
    let mut ctx = ctx_of(vec![]);
    assert!(matches!(fn_is_const_const(&ctx, Val::Unit), Val::Bit(true)));
    assert!(matches!(fn_is_const_mut(&mut ctx, Val::Unit), Val::Bit(false)));
}

#[test]
fn type_names() {
    assert!(val_eq(&fn_type(&num(1), Val::Unit), &sym("integer")));
    assert!(val_eq(&fn_type(&Val::Unit, Val::Unit), &sym("unit")));
    assert!(val_eq(&fn_type(&ctx_of(vec![]), Val::Unit), &sym("context")));
    assert!(val_eq(&fn_type(&pair(num(1), num(2)), Val::Unit), &sym("pair")));
}

#[test]
fn equal_compares_values_and_variables() {
    let ctx = ctx_of(vec![("a", Contract::Open, num(1)), ("b", Contract::Open, num(1))]);
    assert!(matches!(fn_equal(&ctx, pair(sym("a"), sym("b"))), Val::Bit(true)));
    assert!(matches!(fn_equal(&ctx, pair(sym("a"), num(2))), Val::Bit(false)));
    assert!(matches!(fn_equal(&ctx, pair(sym("*a"), sym("a"))), Val::Bit(false)));
    assert!(matches!(fn_equal(&ctx, pair(sym("missing"), num(1))), Val::Unit));
    assert!(matches!(fn_equal(&Val::Unit, pair(num(1), num(1))), Val::Unit));
}
