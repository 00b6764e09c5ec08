use airlang::prelude::{bit, byte, call, int_, list, pair, symbol, text};
use airlang::prelude::map as dict;
use airlang::types::copy::{copy_val, val_eq};
use airlang::types::val::ValMap;
use airlang::types::val::{CallVal, PairVal, Val};
use num_bigint::BigInt;

fn num(i: i64) -> Val {
    Val::Int(BigInt::from(i))
}

fn sym(s: &str) -> Val {
    Val::Symbol(s.to_string())
}

fn txt(s: &str) -> Val {
    Val::Text(s.to_string())
}

fn pair(a: Val, b: Val) -> Val {
    Val::Pair(Box::new(PairVal { first: a, second: b }))
}

fn is_unit(v: &Val) -> bool {
    matches!(v, Val::Unit)
}

#[test]
fn copy_and_equality() {
    let v = pair(num(1), Val::List(vec![sym("a"), txt("b")]));
    let c = copy_val(&v);
    assert!(val_eq(&v, &c));
    assert!(!val_eq(&v, &pair(num(1), Val::List(vec![sym("a")]))));
}

#[test]
fn map_insert_get_remove() {
    let mut m = ValMap::new();
    assert!(m.insert(sym("a"), num(1)).is_none());
    let old = m.insert(sym("a"), num(2)).unwrap();
    assert!(val_eq(&old, &num(1)));
    assert_eq!(m.len(), 1);
    assert!(val_eq(&m.get(&sym("a")).unwrap(), &num(2)));
    assert!(val_eq(&m.remove(&sym("a")).unwrap(), &num(2)));
    assert!(m.get(&sym("a")).is_none());
}

#[test]
fn integer_arithmetic() {
    assert!(val_eq(&int_::fn_add(pair(num(2), num(3))), &num(5)));
    assert!(val_eq(&int_::fn_subtract(pair(num(2), num(3))), &num(-1)));
    assert!(val_eq(&int_::fn_multiply(pair(num(-4), num(3))), &num(-12)));
    assert!(val_eq(&int_::fn_divide(pair(num(-7), num(2))), &num(-3)));
    assert!(val_eq(&int_::fn_remainder(pair(num(-7), num(2))), &num(-1)));
    assert!(is_unit(&int_::fn_divide(pair(num(1), num(0)))));
    assert!(is_unit(&int_::fn_add(pair(num(1), sym("x")))));
}

#[test]
fn divide_remainder_puts_dividend_back() {
    for (a, b) in [(7i64, 2i64), (-7, 2), (7, -2), (-7, -2), (0, 5)] {
        let r = int_::fn_divide_remainder(pair(num(a), num(b)));
        let Val::Pair(p) = r else { panic!("expected a pair") };
        let (Val::Int(q), Val::Int(m)) = (&p.first, &p.second) else { panic!("expected integers") };
        assert_eq!(q * BigInt::from(b) + m, BigInt::from(a));
    }
}

#[test]
fn integer_comparison() {
    assert!(matches!(int_::fn_less_than(pair(num(1), num(2))), Val::Bit(true)));
    assert!(matches!(int_::fn_greater_equal(pair(num(1), num(2))), Val::Bit(false)));
}

#[test]
fn bit_logic() {
    assert!(matches!(bit::fn_not(Val::Bit(true)), Val::Bit(false)));
    assert!(matches!(bit::fn_and(pair(Val::Bit(true), Val::Bit(false))), Val::Bit(false)));
    assert!(matches!(bit::fn_or(pair(Val::Bit(true), Val::Bit(false))), Val::Bit(true)));
    assert!(matches!(bit::fn_xor(pair(Val::Bit(true), Val::Bit(true))), Val::Bit(false)));
    assert!(matches!(bit::fn_imply(pair(Val::Bit(false), Val::Bit(false))), Val::Bit(true)));
    assert!(is_unit(&bit::fn_not(num(1))));
}

#[test]
fn list_set_then_get() {
    let mut l = Val::List(vec![num(1), num(2), num(3)]);
    let old = list::fn_set(&mut l, pair(num(1), sym("x")));
    assert!(val_eq(&old, &num(2)));
    assert!(val_eq(&list::fn_get(&l, num(1)), &sym("x")));
    assert!(is_unit(&list::fn_get(&l, num(9))));
    list::fn_set(&mut l, pair(num(1), old));
    assert!(val_eq(&l, &Val::List(vec![num(1), num(2), num(3)])));
}

#[test]
fn list_push_then_pop() {
    let mut l = Val::List(vec![num(1)]);
    list::fn_push(&mut l, num(2));
    assert!(val_eq(&list::fn_length(&l, Val::Unit), &num(2)));
    let v = list::fn_pop(&mut l, Val::Unit);
    assert!(val_eq(&v, &num(2)));
    assert!(val_eq(&l, &Val::List(vec![num(1)])));
}

#[test]
fn list_insert_then_remove() {
    let mut l = Val::List(vec![num(1), num(3)]);
    list::fn_insert(&mut l, pair(num(1), num(2)));
    assert!(val_eq(&l, &Val::List(vec![num(1), num(2), num(3)])));
    let v = list::fn_remove(&mut l, num(1));
    assert!(val_eq(&v, &num(2)));
    assert!(val_eq(&l, &Val::List(vec![num(1), num(3)])));
}

#[test]
fn list_many() {
    let mut l = Val::List(vec![num(1), num(2), num(3), num(4)]);
    let got = list::fn_get_many(&l, pair(num(1), Val::Unit));
    assert!(val_eq(&got, &Val::List(vec![num(2), num(3), num(4)])));
    let old = list::fn_set_many(&mut l, pair(num(2), Val::List(vec![sym("a"), sym("b")])));
    assert!(val_eq(&old, &Val::List(vec![num(3), num(4)])));
    let removed = list::fn_remove_many(&mut l, pair(num(0), num(2)));
    assert!(val_eq(&removed, &Val::List(vec![num(1), num(2)])));
    assert!(val_eq(&l, &Val::List(vec![sym("a"), sym("b")])));
    let out = list::fn_set_many(&mut l, pair(num(1), Val::List(vec![num(0), num(0)])));
    assert!(is_unit(&out));
}

#[test]
fn map_set_then_get() {
    let mut m = Val::Dict(ValMap::new());
    assert!(is_unit(&dict::fn_set(&mut m, pair(sym("k"), num(1)))));
    let old = dict::fn_set(&mut m, pair(sym("k"), num(2)));
    assert!(val_eq(&old, &num(1)));
    assert!(val_eq(&dict::fn_get(&m, sym("k")), &num(2)));
    assert!(matches!(dict::fn_contains(&m, sym("k")), Val::Bit(true)));
    let v = dict::fn_remove(&mut m, sym("k"));
    assert!(val_eq(&v, &num(2)));
    assert!(is_unit(&dict::fn_get(&m, sym("k"))));
}

#[test]
fn map_from_items() {
    let items = Val::List(vec![pair(sym("a"), num(1)), pair(sym("b"), num(2))]);
    let m = dict::fn_new_map(items);
    assert!(val_eq(&dict::fn_length(&m, Val::Unit), &num(2)));
    assert!(is_unit(&dict::fn_new_map(Val::List(vec![num(1)]))));
}

#[test]
fn pair_parts() {
    let mut p = pair::fn_new(pair(num(1), num(2)));
    let old = pair::fn_set_first(&mut p, sym("a"));
    assert!(val_eq(&old, &num(1)));
    assert!(val_eq(&pair::fn_first(&p, Val::Unit), &sym("a")));
    assert!(val_eq(&pair::fn_second(&p, Val::Unit), &num(2)));
}

#[test]
fn call_parts() {
    let mut c = Val::Call(Box::new(CallVal { reverse: false, func: sym("f"), ctx: Val::Unit, input: num(1) }));
    assert!(matches!(call::fn_is_reverse(&c, Val::Unit), Val::Bit(false)));
    call::fn_set_input(&mut c, num(2));
    assert!(val_eq(&call::fn_input(&c, Val::Unit), &num(2)));
    assert!(val_eq(&call::fn_func(&c, Val::Unit), &sym("f")));
}

#[test]
fn text_utf8_round_trip() {
    let bytes = text::fn_into_utf8(txt("héllo"));
    let back = text::fn_from_utf8(bytes);
    assert!(val_eq(&back, &txt("héllo")));
    assert!(is_unit(&text::fn_from_utf8(Val::Byte(vec![0xff, 0xfe]))));
    assert!(val_eq(&text::fn_length(&txt("é"), Val::Unit), &num(2)));
}

#[test]
fn text_join_and_push() {
    let joined = text::fn_join(pair(txt(", "), Val::List(vec![txt("a"), txt("b")])));
    assert!(val_eq(&joined, &txt("a, b")));
    let mut t = txt("ab");
    text::fn_push(&mut t, txt("c"));
    assert!(val_eq(&t, &txt("abc")));
}

#[test]
fn byte_join_and_length() {
    let joined = byte::fn_join(pair(Val::Byte(vec![0]), Val::List(vec![Val::Byte(vec![1]), Val::Byte(vec![2])])));
    assert!(val_eq(&joined, &Val::Byte(vec![1, 0, 2])));
    assert!(val_eq(&byte::fn_length(&joined, Val::Unit), &num(3)));
}

#[test]
fn symbol_from_text() {
    assert!(val_eq(&symbol::fn_from_text(txt("abc")), &sym("abc")));
    assert!(is_unit(&symbol::fn_from_text(txt("a b"))));
    assert!(val_eq(&symbol::fn_into_text(sym("abc")), &txt("abc")));
}

#[test]
fn maps_from_lists_have_distinct_keys() {
    let items = Val::List(vec![pair(sym("a"), num(1)), pair(sym("a"), num(2))]);
    let m = dict::fn_new_map(items);
    assert!(val_eq(&dict::fn_length(&m, Val::Unit), &num(1)));
    assert!(val_eq(&dict::fn_get(&m, sym("a")), &num(2)));
    let ms = dict::fn_new_multiset(Val::List(vec![sym("x"), sym("y"), sym("x")]));
    assert!(val_eq(&dict::fn_get(&ms, sym("x")), &num(2)));
    assert!(val_eq(&dict::fn_get(&ms, sym("y")), &num(1)));
    let set = dict::fn_new_set(Val::List(vec![sym("x"), sym("x")]));
    assert!(val_eq(&dict::fn_length(&set, Val::Unit), &num(1)));
}
