//! Logic on truth values, in their older form; they are bits.
use crate::prelude::setup::{default_dyn_mode, default_free_mode};
use crate::prelude::{func_sval, prim_func, prim_model, put_func, spec_default_mode, Prelude};
use crate::types::dict::dict_insert;
use crate::types::val::{CtxAccess, FuncVal, SVal, Val, ValMap};
use crate::prelude::bit::bit_result;
use crate::prelude::apply::Prim;
use vstd::prelude::*;

verus! {

pub struct BoolPrelude {
    pub is_true: FuncVal,
    pub is_false: FuncVal,
    pub not: FuncVal,
    pub and: FuncVal,
    pub or: FuncVal,
    pub xor: FuncVal,
    pub imply: FuncVal,
}

impl Default for BoolPrelude {
    fn default() -> (r: Self)
        ensures
            func_sval(r.is_true) == prim_model("is_true"@, CtxAccess::Free, spec_default_mode(), spec_default_mode(), Some(Prim::Bool(crate::prelude::bool::BoolFn::IsTrue))),
            func_sval(r.is_false) == prim_model("is_false"@, CtxAccess::Free, spec_default_mode(), spec_default_mode(), Some(Prim::Bool(crate::prelude::bool::BoolFn::IsFalse))),
            func_sval(r.not) == prim_model("not"@, CtxAccess::Free, spec_default_mode(), spec_default_mode(), Some(Prim::Bool(crate::prelude::bool::BoolFn::Not))),
            func_sval(r.and) == prim_model("and"@, CtxAccess::Free, spec_default_mode(), spec_default_mode(), Some(Prim::Bool(crate::prelude::bool::BoolFn::And))),
            func_sval(r.or) == prim_model("or"@, CtxAccess::Free, spec_default_mode(), spec_default_mode(), Some(Prim::Bool(crate::prelude::bool::BoolFn::Or))),
            func_sval(r.xor) == prim_model("xor"@, CtxAccess::Free, spec_default_mode(), spec_default_mode(), Some(Prim::Bool(crate::prelude::bool::BoolFn::Xor))),
            func_sval(r.imply) == prim_model("imply"@, CtxAccess::Free, spec_default_mode(), spec_default_mode(), Some(Prim::Bool(crate::prelude::bool::BoolFn::Imply))),
    {
        BoolPrelude {
            is_true: self::is_true(),
            is_false: self::is_false(),
            not: self::not(),
            and: self::and(),
            or: self::or(),
            xor: self::xor(),
            imply: self::imply(),
        }
    }
}

impl Prelude for BoolPrelude {
    fn put(&self, ctx: &mut ValMap)
        ensures
            final(ctx).view() == dict_insert(dict_insert(dict_insert(dict_insert(dict_insert(dict_insert(dict_insert(old(ctx).view(), SVal::Symbol(self.is_true.id@), func_sval(self.is_true)), SVal::Symbol(self.is_false.id@), func_sval(self.is_false)), SVal::Symbol(self.not.id@), func_sval(self.not)), SVal::Symbol(self.and.id@), func_sval(self.and)), SVal::Symbol(self.or.id@), func_sval(self.or)), SVal::Symbol(self.xor.id@), func_sval(self.xor)), SVal::Symbol(self.imply.id@), func_sval(self.imply)),
    {
        put_func(ctx, &self.is_true);
        put_func(ctx, &self.is_false);
        put_func(ctx, &self.not);
        put_func(ctx, &self.and);
        put_func(ctx, &self.or);
        put_func(ctx, &self.xor);
        put_func(ctx, &self.imply);
    }
}

/// `is_true`: whether a value is the bit `true`.
pub fn is_true() -> (f: FuncVal)
    ensures
        func_sval(f) == prim_model("is_true"@, CtxAccess::Free, spec_default_mode(), spec_default_mode(), Some(Prim::Bool(crate::prelude::bool::BoolFn::IsTrue))),
{
    prim_func("is_true", CtxAccess::Free, default_free_mode(), Some(Prim::Bool(crate::prelude::bool::BoolFn::IsTrue)))
}

/// `is_false`: whether a value is the bit `false`.
pub fn is_false() -> (f: FuncVal)
    ensures
        func_sval(f) == prim_model("is_false"@, CtxAccess::Free, spec_default_mode(), spec_default_mode(), Some(Prim::Bool(crate::prelude::bool::BoolFn::IsFalse))),
{
    prim_func("is_false", CtxAccess::Free, default_free_mode(), Some(Prim::Bool(crate::prelude::bool::BoolFn::IsFalse)))
}

/// `not`: the negation of a bit.
pub fn not() -> (f: FuncVal)
    ensures
        func_sval(f) == prim_model("not"@, CtxAccess::Free, spec_default_mode(), spec_default_mode(), Some(Prim::Bool(crate::prelude::bool::BoolFn::Not))),
{
    prim_func("not", CtxAccess::Free, default_free_mode(), Some(Prim::Bool(crate::prelude::bool::BoolFn::Not)))
}

/// `and`: the conjunction of a pair of bits.
pub fn and() -> (f: FuncVal)
    ensures
        func_sval(f) == prim_model("and"@, CtxAccess::Free, spec_default_mode(), spec_default_mode(), Some(Prim::Bool(crate::prelude::bool::BoolFn::And))),
{
    prim_func("and", CtxAccess::Free, default_free_mode(), Some(Prim::Bool(crate::prelude::bool::BoolFn::And)))
}

/// `or`: the disjunction of a pair of bits.
pub fn or() -> (f: FuncVal)
    ensures
        func_sval(f) == prim_model("or"@, CtxAccess::Free, spec_default_mode(), spec_default_mode(), Some(Prim::Bool(crate::prelude::bool::BoolFn::Or))),
{
    prim_func("or", CtxAccess::Free, default_free_mode(), Some(Prim::Bool(crate::prelude::bool::BoolFn::Or)))
}

/// `xor`: whether the two bits of a pair differ.
pub fn xor() -> (f: FuncVal)
    ensures
        func_sval(f) == prim_model("xor"@, CtxAccess::Free, spec_default_mode(), spec_default_mode(), Some(Prim::Bool(crate::prelude::bool::BoolFn::Xor))),
{
    prim_func("xor", CtxAccess::Free, default_free_mode(), Some(Prim::Bool(crate::prelude::bool::BoolFn::Xor)))
}

/// `imply`: the implication between a pair of bits.
pub fn imply() -> (f: FuncVal)
    ensures
        func_sval(f) == prim_model("imply"@, CtxAccess::Free, spec_default_mode(), spec_default_mode(), Some(Prim::Bool(crate::prelude::bool::BoolFn::Imply))),
{
    prim_func("imply", CtxAccess::Free, default_free_mode(), Some(Prim::Bool(crate::prelude::bool::BoolFn::Imply)))
}

/// Whether the input is the bit `true`.
pub fn fn_is_true(input: Val) -> (r: Val)
    ensures
        r@ == SVal::Bit(input@ == SVal::Bit(true)),
{
    let Val::Bit(b) = input else {
        return Val::Bit(false);
    };
    Val::Bit(b)
}

/// Whether the input is the bit `false`.
pub fn fn_is_false(input: Val) -> (r: Val)
    ensures
        r@ == SVal::Bit(input@ == SVal::Bit(false)),
{
    let Val::Bit(b) = input else {
        return Val::Bit(false);
    };
    Val::Bit(!b)
}

pub fn fn_not(input: Val) -> (r: Val)
    ensures
        r@ == (match input@ {
            SVal::Bit(b) => SVal::Bit(!b),
            _ => SVal::Unit,
        }),
{
    crate::prelude::bit::fn_not(input)
}

pub fn fn_and(input: Val) -> (r: Val)
    ensures
        r@ == bit_result(input@, |a: bool, b: bool| a && b),
{
    crate::prelude::bit::fn_and(input)
}

pub fn fn_or(input: Val) -> (r: Val)
    ensures
        r@ == bit_result(input@, |a: bool, b: bool| a || b),
{
    crate::prelude::bit::fn_or(input)
}

pub fn fn_xor(input: Val) -> (r: Val)
    ensures
        r@ == bit_result(input@, |a: bool, b: bool| a != b),
{
    crate::prelude::bit::fn_xor(input)
}

pub fn fn_imply(input: Val) -> (r: Val)
    ensures
        r@ == bit_result(input@, |a: bool, b: bool| !a || b),
{
    crate::prelude::bit::fn_imply(input)
}


/// The built-in functions of this module, by what they compute.
#[derive(Clone, Copy, PartialEq, Eq, Structural)]
pub enum BoolFn {
    IsTrue,
    IsFalse,
    Not,
    And,
    Or,
    Xor,
    Imply,
}

/// What calling one of these functions does: the context after the call, and the result.
pub open spec fn run_spec(f: BoolFn, ctx: SVal, input: SVal) -> (SVal, SVal) {
    match f {
        BoolFn::IsTrue => (ctx, SVal::Bit(input == SVal::Bit(true))),
        BoolFn::IsFalse => (ctx, SVal::Bit(input == SVal::Bit(false))),
        BoolFn::Not => (ctx, (match input { SVal::Bit(b) => SVal::Bit(!b), _ => SVal::Unit, })),
        BoolFn::And => (ctx, bit_result(input, |a: bool, b: bool| a && b)),
        BoolFn::Or => (ctx, bit_result(input, |a: bool, b: bool| a || b)),
        BoolFn::Xor => (ctx, bit_result(input, |a: bool, b: bool| a != b)),
        BoolFn::Imply => (ctx, bit_result(input, |a: bool, b: bool| !a || b)),
    }
}

/// Calls one of these functions on a context it may change.
pub fn run(f: BoolFn, ctx: &mut Val, input: Val) -> (r: Val)
    ensures
        (final(ctx)@, r@) == run_spec(f, old(ctx)@, input@),
{
    match f {
        BoolFn::IsTrue => fn_is_true(input),
        BoolFn::IsFalse => fn_is_false(input),
        BoolFn::Not => fn_not(input),
        BoolFn::And => fn_and(input),
        BoolFn::Or => fn_or(input),
        BoolFn::Xor => fn_xor(input),
        BoolFn::Imply => fn_imply(input),
    }
}

} // verus!
