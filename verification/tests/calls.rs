use airlang::prelude::apply::apply_prim;
use airlang::prelude::ctrl::for_bind;
use airlang::prelude::flow::{
    for_start, for_step, loop_start, loop_step, match_begin, match_step, Action, Event, ForState, LoopState, MatchRun,
};
use airlang::prelude::ctx::{fn_assign, fn_read};
use airlang::prelude::meta::{parse_decimal, version};
use airlang::prelude::mode::Mode;
use airlang::prelude::setup::FreeFn;
use airlang::prelude::{bit, int_, list, text, FuncMode};
use airlang::types::copy::val_eq;
use airlang::types::val::{Contract, CtxVal, CtxVar, PairVal, Val, ValMap};
use num_bigint::BigInt;

fn num(i: i64) -> Val {
    Val::Int(BigInt::from(i))
}

fn sym(s: &str) -> Val {
    Val::Symbol(s.to_string())
}

fn pair(a: Val, b: Val) -> Val {
    Val::Pair(Box::new(PairVal { first: a, second: b }))
}

#[test]
fn calling_built_in_function_values() {
    let mut ctx = Val::List(vec![num(1), num(2)]);
    let r = apply_prim(&list::length(), &mut ctx, Val::Unit).unwrap();
    assert!(val_eq(&r, &num(2)));
    let old = apply_prim(&list::set(), &mut ctx, pair(num(0), sym("a"))).unwrap();
    assert!(val_eq(&old, &num(1)));
    let got = apply_prim(&list::get(), &mut ctx, num(0)).unwrap();
    assert!(val_eq(&got, &sym("a")));
    apply_prim(&list::push(), &mut ctx, num(3)).unwrap();
    assert!(val_eq(&ctx, &Val::List(vec![sym("a"), num(2), num(3)])));
    let mut unit = Val::Unit;
    let sum = apply_prim(&int_::add(), &mut unit, pair(num(2), num(3))).unwrap();
    assert!(val_eq(&sum, &num(5)));
    let joined = apply_prim(
        &text::join(),
        &mut unit,
        pair(Val::Text("-".to_string()), Val::List(vec![Val::Text("a".to_string()), Val::Text(String::new()), Val::Text("b".to_string())])),
    )
    .unwrap();
    assert!(val_eq(&joined, &Val::Text("a--b".to_string())));
    assert!(matches!(apply_prim(&bit::not(), &mut unit, Val::Bit(true)), Some(Val::Bit(false))));
}

#[test]
fn functions_without_a_built_in_computation_are_not_run() {
    let mut ctx = num(1);
    let f = FreeFn { id: "named".to_string() }.free_static();
    assert!(apply_prim(&f, &mut ctx, Val::Unit).is_none());
    let m = FuncMode::mode_into_free_func(Mode::id());
    assert!(matches!(m.call, Val::Unit) && matches!(m.solve, Val::Unit));
    assert!(matches!(&m.data, Val::Symbol(s) if s == "form"));
    assert!(apply_prim(&m, &mut ctx, Val::Unit).is_none());
    assert!(val_eq(&ctx, &num(1)));
}

#[test]
fn for_binds_each_value() {
    let mut ctx = Val::Ctx(CtxVal { vars: vec![] });
    assert!(for_bind(&mut ctx, &"i".to_string(), num(0)));
    assert!(for_bind(&mut ctx, &"i".to_string(), num(1)));
    assert!(val_eq(&fn_read(&ctx, sym("i")), &num(1)));
    let mut fixed = Val::Ctx(CtxVal { vars: vec![CtxVar { name: "i".to_string(), contract: Contract::Final, val: num(9) }] });
    assert!(!for_bind(&mut fixed, &"i".to_string(), num(0)));
    assert!(val_eq(&fn_read(&fixed, sym("i")), &num(9)));
    assert!(!for_bind(&mut num(1), &"i".to_string(), num(0)));
}

fn call(f: Val, input: Val) -> Val {
    Val::Call(Box::new(airlang::types::val::CallVal { reverse: false, func: f, ctx: Val::Unit, input }))
}

fn is_eval(a: &Action, v: &Val) -> bool {
    matches!(a, Action::Eval(x) if val_eq(x, v))
}

fn is_bind(a: &Action, name: &str, v: &Val) -> bool {
    matches!(a, Action::Bind(n, x) if n == name && val_eq(x, v))
}

fn is_finish(a: &Action, v: &Val) -> bool {
    matches!(a, Action::Finish(x) if val_eq(x, v))
}

#[test]
fn for_over_a_count_binds_each_integer_in_order() {
    let (s, a) = for_start(pair(sym("n"), pair(sym("i"), sym("body"))));
    assert!(is_eval(&a, &sym("n")));
    let (mut s, mut a): (ForState, Action) = for_step(s, Event::Evaluated(num(3)));
    for k in 0..3 {
        assert!(is_bind(&a, "i", &num(k)));
        let (s2, a2) = for_step(s, Event::Bound(true));
        assert!(is_eval(&a2, &sym("body")));
        let (s3, a3) = for_step(s2, Event::Evaluated(num(100 + k)));
        s = s3;
        a = a3;
    }
    assert!(is_finish(&a, &Val::Unit));
    assert!(matches!(s, ForState::Done));
}

#[test]
fn break_in_for_returns_at_once() {
    let body = Val::List(vec![call(sym("break"), pair(sym("stop"), sym("out"))), sym("rest")]);
    let (s, _) = for_start(pair(sym("xs"), pair(sym("x"), body)));
    let (s, a) = for_step(s, Event::Evaluated(Val::List(vec![num(1), num(2)])));
    assert!(is_bind(&a, "x", &num(1)));
    let (s, a) = for_step(s, Event::Bound(true));
    assert!(is_eval(&a, &sym("stop")));
    let (s, a) = for_step(s, Event::Evaluated(Val::Bit(true)));
    assert!(is_eval(&a, &sym("out")));
    let (s, a) = for_step(s, Event::Evaluated(num(7)));
    assert!(is_finish(&a, &num(7)));
    assert!(matches!(s, ForState::Done));
}

#[test]
fn for_ends_with_unit_when_the_bind_is_refused_or_nothing_is_iterable() {
    let (s, _) = for_start(pair(sym("n"), pair(sym("i"), sym("body"))));
    let (s, _) = for_step(s, Event::Evaluated(num(2)));
    let (_, a) = for_step(s, Event::Bound(false));
    assert!(is_finish(&a, &Val::Unit));
    let (s, _) = for_start(pair(sym("n"), pair(sym("i"), sym("body"))));
    let (_, a) = for_step(s, Event::Evaluated(num(-1)));
    assert!(is_finish(&a, &Val::Unit));
    let (s, _) = for_start(pair(sym("n"), pair(num(1), sym("body"))));
    let (_, a) = for_step(s, Event::Evaluated(num(2)));
    assert!(is_finish(&a, &Val::Unit));
    let (_, a) = for_start(num(1));
    assert!(is_finish(&a, &Val::Unit));
}

#[test]
fn loop_evaluates_condition_and_body_in_turn() {
    let (s, a) = loop_start(pair(sym("c"), sym("b")));
    assert!(is_eval(&a, &sym("c")));
    let (s, a) = loop_step(s, Event::Evaluated(Val::Bit(true)));
    assert!(is_eval(&a, &sym("b")));
    let (s, a) = loop_step(s, Event::Evaluated(num(1)));
    assert!(is_eval(&a, &sym("c")));
    let (s, a) = loop_step(s, Event::Evaluated(Val::Bit(false)));
    assert!(is_finish(&a, &Val::Unit));
    assert!(matches!(s, LoopState::Done));
    let (s, _) = loop_start(pair(sym("c"), sym("b")));
    let (_, a) = loop_step(s, Event::Evaluated(num(1)));
    assert!(is_finish(&a, &Val::Unit));
}

#[test]
fn break_in_loop_returns_its_value() {
    let body = Val::List(vec![sym("first"), call(sym("break"), pair(sym("stop"), sym("out")))]);
    let (s, _) = loop_start(pair(sym("c"), body));
    let (s, a) = loop_step(s, Event::Evaluated(Val::Bit(true)));
    assert!(is_eval(&a, &sym("first")));
    let (s, a) = loop_step(s, Event::Evaluated(num(1)));
    assert!(is_eval(&a, &sym("stop")));
    let (s, a) = loop_step(s, Event::Evaluated(Val::Bit(false)));
    assert!(is_eval(&a, &sym("c")));
    let (s, _) = loop_step(s, Event::Evaluated(Val::Bit(true)));
    let (s, _) = loop_step(s, Event::Evaluated(num(2)));
    let (s, a) = loop_step(s, Event::Evaluated(Val::Bit(true)));
    assert!(is_eval(&a, &sym("out")));
    let (_, a) = loop_step(s, Event::Evaluated(num(9)));
    assert!(is_finish(&a, &num(9)));
    let (_, a) = loop_start(pair(sym("c"), Val::List(vec![call(sym("break"), num(1))])));
    assert!(is_finish(&a, &Val::Unit));
}

#[test]
fn match_picks_the_branch_whose_key_is_the_value() {
    let mut m = ValMap::new();
    m.insert(sym("a"), num(1));
    m.insert(sym("b"), num(2));
    let input = pair(sym("x"), pair(Val::Dict(m), num(0)));
    let (s, a) = match_begin(input);
    assert!(is_eval(&a, &sym("x")));
    let (s, a) = match_step(s, Event::Evaluated(sym("y")));
    assert!(is_eval(&a, &sym("a")));
    let (s, a) = match_step(s, Event::Evaluated(sym("a2")));
    assert!(is_eval(&a, &sym("b")));
    let (s, a) = match_step(s, Event::Evaluated(sym("y")));
    assert!(is_eval(&a, &num(2)));
    let (s, a) = match_step(s, Event::Evaluated(num(20)));
    assert!(is_finish(&a, &num(20)));
    assert!(matches!(s, MatchRun::Done));
    let mut m = ValMap::new();
    m.insert(sym("a"), num(1));
    let (s, _) = match_begin(pair(sym("x"), pair(Val::Dict(m), num(0))));
    let (s, _) = match_step(s, Event::Evaluated(sym("y")));
    let (s, a) = match_step(s, Event::Evaluated(sym("z")));
    assert!(is_eval(&a, &num(0)));
    let (_, a) = match_step(s, Event::Evaluated(num(5)));
    assert!(is_finish(&a, &num(5)));
    let (s, _) = match_begin(pair(sym("x"), num(0)));
    let (_, a) = match_step(s, Event::Evaluated(sym("y")));
    assert!(is_finish(&a, &Val::Unit));
}

#[test]
fn assigning_into_a_map_swaps_the_value_under_the_name() {
    let mut m = ValMap::new();
    m.insert(sym("a"), num(1));
    let mut ctx = Val::Dict(m);
    let old = fn_assign(&mut ctx, pair(sym("a"), num(2)));
    assert!(val_eq(&old, &num(1)));
    let Val::Dict(d) = &ctx else { panic!("still a map") };
    assert!(val_eq(&d.get(&sym("a")).unwrap(), &num(2)));
    assert!(matches!(fn_assign(&mut ctx, pair(sym("b"), num(3))), Val::Unit));
    let Val::Dict(d) = &ctx else { panic!("still a map") };
    assert!(d.get(&sym("b")).is_none());
}

#[test]
fn decimal_versions() {
    assert_eq!(parse_decimal("0123").unwrap(), BigInt::from(123));
    assert!(parse_decimal("").is_none());
    assert!(parse_decimal("1a").is_none());
    let v = version("1", "20", "3").unwrap();
    assert!(val_eq(&v, &Val::List(vec![num(1), num(20), num(3)])));
    assert!(version("1", "x", "3").is_none());
}
