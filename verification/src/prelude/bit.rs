//! Logic on bits.
use crate::prelude::setup::{default_dyn_mode, default_free_mode};
use crate::prelude::{func_sval, prim_func, prim_model, put_func, spec_default_mode, Prelude};
use crate::types::dict::dict_insert;
use crate::types::val::{CtxAccess, FuncVal, SVal, Val, ValMap};
use crate::prelude::apply::Prim;
use vstd::prelude::*;

verus! {

pub struct BitPrelude {
    pub not: FuncVal,
    pub and: FuncVal,
    pub or: FuncVal,
    pub xor: FuncVal,
    pub imply: FuncVal,
}

impl Default for BitPrelude {
    fn default() -> (r: Self)
        ensures
            func_sval(r.not) == prim_model("not"@, CtxAccess::Free, spec_default_mode(), spec_default_mode(), Some(Prim::Bit(crate::prelude::bit::BitFn::Not))),
            func_sval(r.and) == prim_model("and"@, CtxAccess::Free, spec_default_mode(), spec_default_mode(), Some(Prim::Bit(crate::prelude::bit::BitFn::And))),
            func_sval(r.or) == prim_model("or"@, CtxAccess::Free, spec_default_mode(), spec_default_mode(), Some(Prim::Bit(crate::prelude::bit::BitFn::Or))),
            func_sval(r.xor) == prim_model("xor"@, CtxAccess::Free, spec_default_mode(), spec_default_mode(), Some(Prim::Bit(crate::prelude::bit::BitFn::Xor))),
            func_sval(r.imply) == prim_model("imply"@, CtxAccess::Free, spec_default_mode(), spec_default_mode(), Some(Prim::Bit(crate::prelude::bit::BitFn::Imply))),
    {
        BitPrelude {
            not: self::not(),
            and: self::and(),
            or: self::or(),
            xor: self::xor(),
            imply: self::imply(),
        }
    }
}

impl Prelude for BitPrelude {
    fn put(&self, ctx: &mut ValMap)
        ensures
            final(ctx).view() == dict_insert(dict_insert(dict_insert(dict_insert(dict_insert(old(ctx).view(), SVal::Symbol(self.not.id@), func_sval(self.not)), SVal::Symbol(self.and.id@), func_sval(self.and)), SVal::Symbol(self.or.id@), func_sval(self.or)), SVal::Symbol(self.xor.id@), func_sval(self.xor)), SVal::Symbol(self.imply.id@), func_sval(self.imply)),
    {
        put_func(ctx, &self.not);
        put_func(ctx, &self.and);
        put_func(ctx, &self.or);
        put_func(ctx, &self.xor);
        put_func(ctx, &self.imply);
    }
}

/// `not`: the negation of a bit.
pub fn not() -> (f: FuncVal)
    ensures
        func_sval(f) == prim_model("not"@, CtxAccess::Free, spec_default_mode(), spec_default_mode(), Some(Prim::Bit(crate::prelude::bit::BitFn::Not))),
{
    prim_func("not", CtxAccess::Free, default_free_mode(), Some(Prim::Bit(crate::prelude::bit::BitFn::Not)))
}

/// `and`: the conjunction of a pair of bits.
pub fn and() -> (f: FuncVal)
    ensures
        func_sval(f) == prim_model("and"@, CtxAccess::Free, spec_default_mode(), spec_default_mode(), Some(Prim::Bit(crate::prelude::bit::BitFn::And))),
{
    prim_func("and", CtxAccess::Free, default_free_mode(), Some(Prim::Bit(crate::prelude::bit::BitFn::And)))
}

/// `or`: the disjunction of a pair of bits.
pub fn or() -> (f: FuncVal)
    ensures
        func_sval(f) == prim_model("or"@, CtxAccess::Free, spec_default_mode(), spec_default_mode(), Some(Prim::Bit(crate::prelude::bit::BitFn::Or))),
{
    prim_func("or", CtxAccess::Free, default_free_mode(), Some(Prim::Bit(crate::prelude::bit::BitFn::Or)))
}

/// `xor`: whether the two bits of a pair differ.
pub fn xor() -> (f: FuncVal)
    ensures
        func_sval(f) == prim_model("xor"@, CtxAccess::Free, spec_default_mode(), spec_default_mode(), Some(Prim::Bit(crate::prelude::bit::BitFn::Xor))),
{
    prim_func("xor", CtxAccess::Free, default_free_mode(), Some(Prim::Bit(crate::prelude::bit::BitFn::Xor)))
}

/// `imply`: the implication from the first bit of a pair to the second.
pub fn imply() -> (f: FuncVal)
    ensures
        func_sval(f) == prim_model("imply"@, CtxAccess::Free, spec_default_mode(), spec_default_mode(), Some(Prim::Bit(crate::prelude::bit::BitFn::Imply))),
{
    prim_func("imply", CtxAccess::Free, default_free_mode(), Some(Prim::Bit(crate::prelude::bit::BitFn::Imply)))
}

/// The two bits of a pair of bits.
pub open spec fn bit_pair(v: SVal) -> Option<(bool, bool)> {
    match v {
        SVal::Pair(a, b) => match (*a, *b) {
            (SVal::Bit(x), SVal::Bit(y)) => Some((x, y)),
            _ => None,
        },
        _ => None,
    }
}

/// The result of a binary logic operation: a bit, or unit when the input is not a
/// pair of bits.
pub open spec fn bit_result(v: SVal, f: spec_fn(bool, bool) -> bool) -> SVal {
    match bit_pair(v) {
        Some((a, b)) => SVal::Bit(f(a, b)),
        None => SVal::Unit,
    }
}

pub fn take_bit_pair(input: Val) -> (r: Option<(bool, bool)>)
    ensures
        r == bit_pair(input@),
{
    reveal_with_fuel(crate::types::val::view_val, 2);
    let Val::Pair(pair) = input else {
        return None;
    };
    let Val::Bit(left) = pair.first else {
        return None;
    };
    let Val::Bit(right) = pair.second else {
        return None;
    };
    Some((left, right))
}

pub fn fn_not(input: Val) -> (r: Val)
    ensures
        r@ == (match input@ {
            SVal::Bit(b) => SVal::Bit(!b),
            _ => SVal::Unit,
        }),
{
    let Val::Bit(b) = input else {
        return Val::Unit;
    };
    Val::Bit(!b)
}

pub fn fn_and(input: Val) -> (r: Val)
    ensures
        r@ == bit_result(input@, |a: bool, b: bool| a && b),
{
    match take_bit_pair(input) {
        Some((a, b)) => Val::Bit(a && b),
        None => Val::Unit,
    }
}

pub fn fn_or(input: Val) -> (r: Val)
    ensures
        r@ == bit_result(input@, |a: bool, b: bool| a || b),
{
    match take_bit_pair(input) {
        Some((a, b)) => Val::Bit(a || b),
        None => Val::Unit,
    }
}

pub fn fn_xor(input: Val) -> (r: Val)
    ensures
        r@ == bit_result(input@, |a: bool, b: bool| a != b),
{
    match take_bit_pair(input) {
        Some((a, b)) => Val::Bit(a != b),
        None => Val::Unit,
    }
}

pub fn fn_imply(input: Val) -> (r: Val)
    ensures
        r@ == bit_result(input@, |a: bool, b: bool| !a || b),
{
    match take_bit_pair(input) {
        Some((a, b)) => Val::Bit(!a || b),
        None => Val::Unit,
    }
}


/// The built-in functions of this module, by what they compute.
#[derive(Clone, Copy, PartialEq, Eq, Structural)]
pub enum BitFn {
    Not,
    And,
    Or,
    Xor,
    Imply,
}

/// What calling one of these functions does: the context after the call, and the result.
pub open spec fn run_spec(f: BitFn, ctx: SVal, input: SVal) -> (SVal, SVal) {
    match f {
        BitFn::Not => (ctx, (match input { SVal::Bit(b) => SVal::Bit(!b), _ => SVal::Unit, })),
        BitFn::And => (ctx, bit_result(input, |a: bool, b: bool| a && b)),
        BitFn::Or => (ctx, bit_result(input, |a: bool, b: bool| a || b)),
        BitFn::Xor => (ctx, bit_result(input, |a: bool, b: bool| a != b)),
        BitFn::Imply => (ctx, bit_result(input, |a: bool, b: bool| !a || b)),
    }
}

/// Calls one of these functions on a context it may change.
pub fn run(f: BitFn, ctx: &mut Val, input: Val) -> (r: Val)
    ensures
        (final(ctx)@, r@) == run_spec(f, old(ctx)@, input@),
{
    match f {
        BitFn::Not => fn_not(input),
        BitFn::And => fn_and(input),
        BitFn::Or => fn_or(input),
        BitFn::Xor => fn_xor(input),
        BitFn::Imply => fn_imply(input),
    }
}

} // verus!
