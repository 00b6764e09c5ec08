//! Arithmetic and comparison on integers.
use crate::prelude::setup::{default_dyn_mode, default_free_mode};
use crate::prelude::{func_sval, prim_func, prim_model, put_func, spec_default_mode, Prelude};
use crate::types::dict::dict_insert;
use crate::types::val::{CtxAccess, FuncVal, SVal, Val, ValMap};
use crate::types::bigint::{big_add, big_div, big_eq, big_from_i64, big_lt, big_mul, big_rem, big_sub, int_value, trunc_div, trunc_rem};
use crate::types::val::{sval_pair, PairVal};
use num_bigint::BigInt;
use crate::prelude::apply::Prim;
use vstd::prelude::*;

verus! {

pub struct IntPrelude {
    pub add: FuncVal,
    pub subtract: FuncVal,
    pub multiply: FuncVal,
    pub divide: FuncVal,
    pub remainder: FuncVal,
    pub divide_remainder: FuncVal,
    pub less_than: FuncVal,
    pub less_equal: FuncVal,
    pub greater_than: FuncVal,
    pub greater_equal: FuncVal,
    pub less_greater: FuncVal,
}

impl Default for IntPrelude {
    fn default() -> (r: Self)
        ensures
            func_sval(r.add) == prim_model("+"@, CtxAccess::Free, spec_default_mode(), spec_default_mode(), Some(Prim::Int(crate::prelude::int_::IntFn::Add))),
            func_sval(r.subtract) == prim_model("-"@, CtxAccess::Free, spec_default_mode(), spec_default_mode(), Some(Prim::Int(crate::prelude::int_::IntFn::Subtract))),
            func_sval(r.multiply) == prim_model("*"@, CtxAccess::Free, spec_default_mode(), spec_default_mode(), Some(Prim::Int(crate::prelude::int_::IntFn::Multiply))),
            func_sval(r.divide) == prim_model("/"@, CtxAccess::Free, spec_default_mode(), spec_default_mode(), Some(Prim::Int(crate::prelude::int_::IntFn::Divide))),
            func_sval(r.remainder) == prim_model("%"@, CtxAccess::Free, spec_default_mode(), spec_default_mode(), Some(Prim::Int(crate::prelude::int_::IntFn::Remainder))),
            func_sval(r.divide_remainder) == prim_model("/%"@, CtxAccess::Free, spec_default_mode(), spec_default_mode(), Some(Prim::Int(crate::prelude::int_::IntFn::DivideRemainder))),
            func_sval(r.less_than) == prim_model("<"@, CtxAccess::Free, spec_default_mode(), spec_default_mode(), Some(Prim::Int(crate::prelude::int_::IntFn::LessThan))),
            func_sval(r.less_equal) == prim_model("<="@, CtxAccess::Free, spec_default_mode(), spec_default_mode(), Some(Prim::Int(crate::prelude::int_::IntFn::LessEqual))),
            func_sval(r.greater_than) == prim_model(">"@, CtxAccess::Free, spec_default_mode(), spec_default_mode(), Some(Prim::Int(crate::prelude::int_::IntFn::GreaterThan))),
            func_sval(r.greater_equal) == prim_model(">="@, CtxAccess::Free, spec_default_mode(), spec_default_mode(), Some(Prim::Int(crate::prelude::int_::IntFn::GreaterEqual))),
            func_sval(r.less_greater) == prim_model("<>"@, CtxAccess::Free, spec_default_mode(), spec_default_mode(), Some(Prim::Int(crate::prelude::int_::IntFn::LessGreater))),
    {
        IntPrelude {
            add: self::add(),
            subtract: self::subtract(),
            multiply: self::multiply(),
            divide: self::divide(),
            remainder: self::remainder(),
            divide_remainder: self::divide_remainder(),
            less_than: self::less_than(),
            less_equal: self::less_equal(),
            greater_than: self::greater_than(),
            greater_equal: self::greater_equal(),
            less_greater: self::less_greater(),
        }
    }
}

impl Prelude for IntPrelude {
    fn put(&self, ctx: &mut ValMap)
        ensures
            final(ctx).view() == dict_insert(dict_insert(dict_insert(dict_insert(dict_insert(dict_insert(dict_insert(dict_insert(dict_insert(dict_insert(dict_insert(old(ctx).view(), SVal::Symbol(self.add.id@), func_sval(self.add)), SVal::Symbol(self.subtract.id@), func_sval(self.subtract)), SVal::Symbol(self.multiply.id@), func_sval(self.multiply)), SVal::Symbol(self.divide.id@), func_sval(self.divide)), SVal::Symbol(self.remainder.id@), func_sval(self.remainder)), SVal::Symbol(self.divide_remainder.id@), func_sval(self.divide_remainder)), SVal::Symbol(self.less_than.id@), func_sval(self.less_than)), SVal::Symbol(self.less_equal.id@), func_sval(self.less_equal)), SVal::Symbol(self.greater_than.id@), func_sval(self.greater_than)), SVal::Symbol(self.greater_equal.id@), func_sval(self.greater_equal)), SVal::Symbol(self.less_greater.id@), func_sval(self.less_greater)),
    {
        put_func(ctx, &self.add);
        put_func(ctx, &self.subtract);
        put_func(ctx, &self.multiply);
        put_func(ctx, &self.divide);
        put_func(ctx, &self.remainder);
        put_func(ctx, &self.divide_remainder);
        put_func(ctx, &self.less_than);
        put_func(ctx, &self.less_equal);
        put_func(ctx, &self.greater_than);
        put_func(ctx, &self.greater_equal);
        put_func(ctx, &self.less_greater);
    }
}

/// `+`: the sum of a pair of integers.
pub fn add() -> (f: FuncVal)
    ensures
        func_sval(f) == prim_model("+"@, CtxAccess::Free, spec_default_mode(), spec_default_mode(), Some(Prim::Int(crate::prelude::int_::IntFn::Add))),
{
    prim_func("+", CtxAccess::Free, default_free_mode(), Some(Prim::Int(crate::prelude::int_::IntFn::Add)))
}

/// `-`: the difference of a pair of integers.
pub fn subtract() -> (f: FuncVal)
    ensures
        func_sval(f) == prim_model("-"@, CtxAccess::Free, spec_default_mode(), spec_default_mode(), Some(Prim::Int(crate::prelude::int_::IntFn::Subtract))),
{
    prim_func("-", CtxAccess::Free, default_free_mode(), Some(Prim::Int(crate::prelude::int_::IntFn::Subtract)))
}

/// `*`: the product of a pair of integers.
pub fn multiply() -> (f: FuncVal)
    ensures
        func_sval(f) == prim_model("*"@, CtxAccess::Free, spec_default_mode(), spec_default_mode(), Some(Prim::Int(crate::prelude::int_::IntFn::Multiply))),
{
    prim_func("*", CtxAccess::Free, default_free_mode(), Some(Prim::Int(crate::prelude::int_::IntFn::Multiply)))
}

/// `/`: the truncated quotient of a pair of integers.
pub fn divide() -> (f: FuncVal)
    ensures
        func_sval(f) == prim_model("/"@, CtxAccess::Free, spec_default_mode(), spec_default_mode(), Some(Prim::Int(crate::prelude::int_::IntFn::Divide))),
{
    prim_func("/", CtxAccess::Free, default_free_mode(), Some(Prim::Int(crate::prelude::int_::IntFn::Divide)))
}

/// `%`: the remainder of truncated division.
pub fn remainder() -> (f: FuncVal)
    ensures
        func_sval(f) == prim_model("%"@, CtxAccess::Free, spec_default_mode(), spec_default_mode(), Some(Prim::Int(crate::prelude::int_::IntFn::Remainder))),
{
    prim_func("%", CtxAccess::Free, default_free_mode(), Some(Prim::Int(crate::prelude::int_::IntFn::Remainder)))
}

/// `/%`: quotient and remainder together.
pub fn divide_remainder() -> (f: FuncVal)
    ensures
        func_sval(f) == prim_model("/%"@, CtxAccess::Free, spec_default_mode(), spec_default_mode(), Some(Prim::Int(crate::prelude::int_::IntFn::DivideRemainder))),
{
    prim_func("/%", CtxAccess::Free, default_free_mode(), Some(Prim::Int(crate::prelude::int_::IntFn::DivideRemainder)))
}

/// `<` on integers.
pub fn less_than() -> (f: FuncVal)
    ensures
        func_sval(f) == prim_model("<"@, CtxAccess::Free, spec_default_mode(), spec_default_mode(), Some(Prim::Int(crate::prelude::int_::IntFn::LessThan))),
{
    prim_func("<", CtxAccess::Free, default_free_mode(), Some(Prim::Int(crate::prelude::int_::IntFn::LessThan)))
}

/// `<=` on integers.
pub fn less_equal() -> (f: FuncVal)
    ensures
        func_sval(f) == prim_model("<="@, CtxAccess::Free, spec_default_mode(), spec_default_mode(), Some(Prim::Int(crate::prelude::int_::IntFn::LessEqual))),
{
    prim_func("<=", CtxAccess::Free, default_free_mode(), Some(Prim::Int(crate::prelude::int_::IntFn::LessEqual)))
}

/// `>` on integers.
pub fn greater_than() -> (f: FuncVal)
    ensures
        func_sval(f) == prim_model(">"@, CtxAccess::Free, spec_default_mode(), spec_default_mode(), Some(Prim::Int(crate::prelude::int_::IntFn::GreaterThan))),
{
    prim_func(">", CtxAccess::Free, default_free_mode(), Some(Prim::Int(crate::prelude::int_::IntFn::GreaterThan)))
}

/// `>=` on integers.
pub fn greater_equal() -> (f: FuncVal)
    ensures
        func_sval(f) == prim_model(">="@, CtxAccess::Free, spec_default_mode(), spec_default_mode(), Some(Prim::Int(crate::prelude::int_::IntFn::GreaterEqual))),
{
    prim_func(">=", CtxAccess::Free, default_free_mode(), Some(Prim::Int(crate::prelude::int_::IntFn::GreaterEqual)))
}

/// `<>`: whether two integers differ.
pub fn less_greater() -> (f: FuncVal)
    ensures
        func_sval(f) == prim_model("<>"@, CtxAccess::Free, spec_default_mode(), spec_default_mode(), Some(Prim::Int(crate::prelude::int_::IntFn::LessGreater))),
{
    prim_func("<>", CtxAccess::Free, default_free_mode(), Some(Prim::Int(crate::prelude::int_::IntFn::LessGreater)))
}

/// The two integers of a pair of integers.
pub open spec fn int_pair(v: SVal) -> Option<(int, int)> {
    match v {
        SVal::Pair(a, b) => match (*a, *b) {
            (SVal::Int(x), SVal::Int(y)) => Some((x, y)),
            _ => None,
        },
        _ => None,
    }
}

/// An integer result of an operation on a pair of integers; unit for other inputs.
pub open spec fn int_result(v: SVal, f: spec_fn(int, int) -> int) -> SVal {
    match int_pair(v) {
        Some((a, b)) => SVal::Int(f(a, b)),
        None => SVal::Unit,
    }
}

/// A bit comparing the two integers of a pair; unit for other inputs.
pub open spec fn cmp_result(v: SVal, f: spec_fn(int, int) -> bool) -> SVal {
    match int_pair(v) {
        Some((a, b)) => SVal::Bit(f(a, b)),
        None => SVal::Unit,
    }
}

pub fn take_int_pair(input: Val) -> (r: Option<(BigInt, BigInt)>)
    ensures
        r matches Some((a, b)) ==> int_pair(input@) == Some((int_value(a), int_value(b))),
        r is None ==> int_pair(input@) is None,
{
    reveal_with_fuel(crate::types::val::view_val, 2);
    let Val::Pair(pair) = input else {
        return None;
    };
    let pair = *pair;
    let Val::Int(i1) = pair.first else {
        return None;
    };
    let Val::Int(i2) = pair.second else {
        return None;
    };
    Some((i1, i2))
}

pub fn fn_add(input: Val) -> (r: Val)
    ensures
        r@ == int_result(input@, |a: int, b: int| a + b),
{
    match take_int_pair(input) {
        Some((a, b)) => Val::Int(big_add(&a, &b)),
        None => Val::Unit,
    }
}

pub fn fn_subtract(input: Val) -> (r: Val)
    ensures
        r@ == int_result(input@, |a: int, b: int| a - b),
{
    match take_int_pair(input) {
        Some((a, b)) => Val::Int(big_sub(&a, &b)),
        None => Val::Unit,
    }
}

pub fn fn_multiply(input: Val) -> (r: Val)
    ensures
        r@ == int_result(input@, |a: int, b: int| a * b),
{
    match take_int_pair(input) {
        Some((a, b)) => Val::Int(big_mul(&a, &b)),
        None => Val::Unit,
    }
}

/// Division truncated toward zero; unit on a zero divisor.
pub fn fn_divide(input: Val) -> (r: Val)
    ensures
        r@ == (match int_pair(input@) {
            Some((a, b)) => if b == 0 {
                SVal::Unit
            } else {
                SVal::Int(trunc_div(a, b))
            },
            None => SVal::Unit,
        }),
{
    match take_int_pair(input) {
        Some((a, b)) => {
            let zero = big_from_i64(0);
            if big_eq(&b, &zero) {
                Val::Unit
            } else {
                Val::Int(big_div(&a, &b))
            }
        },
        None => Val::Unit,
    }
}

/// The remainder of truncated division; unit on a zero divisor.
pub fn fn_remainder(input: Val) -> (r: Val)
    ensures
        r@ == (match int_pair(input@) {
            Some((a, b)) => if b == 0 {
                SVal::Unit
            } else {
                SVal::Int(trunc_rem(a, b))
            },
            None => SVal::Unit,
        }),
{
    match take_int_pair(input) {
        Some((a, b)) => {
            let zero = big_from_i64(0);
            if big_eq(&b, &zero) {
                Val::Unit
            } else {
                Val::Int(big_rem(&a, &b))
            }
        },
        None => Val::Unit,
    }
}

/// The quotient and the remainder as a pair; unit on a zero divisor.
pub fn fn_divide_remainder(input: Val) -> (r: Val)
    ensures
        r@ == (match int_pair(input@) {
            Some((a, b)) => if b == 0 {
                SVal::Unit
            } else {
                sval_pair(SVal::Int(trunc_div(a, b)), SVal::Int(trunc_rem(a, b)))
            },
            None => SVal::Unit,
        }),
{
    match take_int_pair(input) {
        Some((a, b)) => {
            let zero = big_from_i64(0);
            if big_eq(&b, &zero) {
                Val::Unit
            } else {
                reveal_with_fuel(crate::types::val::view_val, 2);
                let q = big_div(&a, &b);
                let m = big_rem(&a, &b);
                Val::Pair(Box::new(PairVal { first: Val::Int(q), second: Val::Int(m) }))
            }
        },
        None => Val::Unit,
    }
}

pub fn fn_less_than(input: Val) -> (r: Val)
    ensures
        r@ == cmp_result(input@, |a: int, b: int| a < b),
{
    match take_int_pair(input) {
        Some((a, b)) => Val::Bit(big_lt(&a, &b)),
        None => Val::Unit,
    }
}

pub fn fn_less_equal(input: Val) -> (r: Val)
    ensures
        r@ == cmp_result(input@, |a: int, b: int| a <= b),
{
    match take_int_pair(input) {
        Some((a, b)) => Val::Bit(!big_lt(&b, &a)),
        None => Val::Unit,
    }
}

pub fn fn_greater_than(input: Val) -> (r: Val)
    ensures
        r@ == cmp_result(input@, |a: int, b: int| a > b),
{
    match take_int_pair(input) {
        Some((a, b)) => Val::Bit(big_lt(&b, &a)),
        None => Val::Unit,
    }
}

pub fn fn_greater_equal(input: Val) -> (r: Val)
    ensures
        r@ == cmp_result(input@, |a: int, b: int| a >= b),
{
    match take_int_pair(input) {
        Some((a, b)) => Val::Bit(!big_lt(&a, &b)),
        None => Val::Unit,
    }
}

pub fn fn_less_greater(input: Val) -> (r: Val)
    ensures
        r@ == cmp_result(input@, |a: int, b: int| a != b),
{
    match take_int_pair(input) {
        Some((a, b)) => Val::Bit(!big_eq(&a, &b)),
        None => Val::Unit,
    }
}


/// The built-in functions of this module, by what they compute.
#[derive(Clone, Copy, PartialEq, Eq, Structural)]
pub enum IntFn {
    Add,
    Subtract,
    Multiply,
    Divide,
    Remainder,
    DivideRemainder,
    LessThan,
    LessEqual,
    GreaterThan,
    GreaterEqual,
    LessGreater,
}

/// What calling one of these functions does: the context after the call, and the result.
pub open spec fn run_spec(f: IntFn, ctx: SVal, input: SVal) -> (SVal, SVal) {
    match f {
        IntFn::Add => (ctx, int_result(input, |a: int, b: int| a + b)),
        IntFn::Subtract => (ctx, int_result(input, |a: int, b: int| a - b)),
        IntFn::Multiply => (ctx, int_result(input, |a: int, b: int| a * b)),
        IntFn::Divide => (ctx, (match int_pair(input) { Some((a, b)) => if b == 0 { SVal::Unit } else { SVal::Int(trunc_div(a, b)) }, None => SVal::Unit, })),
        IntFn::Remainder => (ctx, (match int_pair(input) { Some((a, b)) => if b == 0 { SVal::Unit } else { SVal::Int(trunc_rem(a, b)) }, None => SVal::Unit, })),
        IntFn::DivideRemainder => (ctx, (match int_pair(input) { Some((a, b)) => if b == 0 { SVal::Unit } else { sval_pair(SVal::Int(trunc_div(a, b)), SVal::Int(trunc_rem(a, b))) }, None => SVal::Unit, })),
        IntFn::LessThan => (ctx, cmp_result(input, |a: int, b: int| a < b)),
        IntFn::LessEqual => (ctx, cmp_result(input, |a: int, b: int| a <= b)),
        IntFn::GreaterThan => (ctx, cmp_result(input, |a: int, b: int| a > b)),
        IntFn::GreaterEqual => (ctx, cmp_result(input, |a: int, b: int| a >= b)),
        IntFn::LessGreater => (ctx, cmp_result(input, |a: int, b: int| a != b)),
    }
}

/// Calls one of these functions on a context it may change.
pub fn run(f: IntFn, ctx: &mut Val, input: Val) -> (r: Val)
    ensures
        (final(ctx)@, r@) == run_spec(f, old(ctx)@, input@),
{
    match f {
        IntFn::Add => fn_add(input),
        IntFn::Subtract => fn_subtract(input),
        IntFn::Multiply => fn_multiply(input),
        IntFn::Divide => fn_divide(input),
        IntFn::Remainder => fn_remainder(input),
        IntFn::DivideRemainder => fn_divide_remainder(input),
        IntFn::LessThan => fn_less_than(input),
        IntFn::LessEqual => fn_less_equal(input),
        IntFn::GreaterThan => fn_greater_than(input),
        IntFn::GreaterEqual => fn_greater_equal(input),
        IntFn::LessGreater => fn_less_greater(input),
    }
}

} // verus!
