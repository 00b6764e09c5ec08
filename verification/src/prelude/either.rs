//! Either values: a value tagged `this` or `that`.
use crate::prelude::setup::{default_dyn_mode, default_free_mode};
use crate::prelude::{func_sval, prim_func, prim_model, put_func, spec_default_mode, Prelude};
use crate::types::dict::dict_insert;
use crate::types::val::{CtxAccess, FuncVal, SVal, Val, ValMap};
use crate::types::copy::copy_val;
use crate::prelude::apply::Prim;
use vstd::prelude::*;

verus! {

pub struct EitherPrelude {
    pub this: FuncVal,
    pub that: FuncVal,
    pub is_this: FuncVal,
    pub is_that: FuncVal,
    pub get: FuncVal,
    pub set: FuncVal,
}

impl Default for EitherPrelude {
    fn default() -> (r: Self)
        ensures
            func_sval(r.this) == prim_model("this"@, CtxAccess::Free, spec_default_mode(), spec_default_mode(), Some(Prim::Either(crate::prelude::either::EitherFn::This))),
            func_sval(r.that) == prim_model("that"@, CtxAccess::Free, spec_default_mode(), spec_default_mode(), Some(Prim::Either(crate::prelude::either::EitherFn::That))),
            func_sval(r.is_this) == prim_model("either.is_this"@, CtxAccess::Const, spec_default_mode(), spec_default_mode(), Some(Prim::Either(crate::prelude::either::EitherFn::IsThis))),
            func_sval(r.is_that) == prim_model("either.is_that"@, CtxAccess::Const, spec_default_mode(), spec_default_mode(), Some(Prim::Either(crate::prelude::either::EitherFn::IsThat))),
            func_sval(r.get) == prim_model("either.get"@, CtxAccess::Const, spec_default_mode(), spec_default_mode(), Some(Prim::Either(crate::prelude::either::EitherFn::Get))),
            func_sval(r.set) == prim_model("either.set"@, CtxAccess::Mut, spec_default_mode(), spec_default_mode(), Some(Prim::Either(crate::prelude::either::EitherFn::Replace))),
    {
        EitherPrelude {
            this: self::this(),
            that: self::that(),
            is_this: self::is_this(),
            is_that: self::is_that(),
            get: self::get(),
            set: self::set(),
        }
    }
}

impl Prelude for EitherPrelude {
    fn put(&self, ctx: &mut ValMap)
        ensures
            final(ctx).view() == dict_insert(dict_insert(dict_insert(dict_insert(dict_insert(dict_insert(old(ctx).view(), SVal::Symbol(self.this.id@), func_sval(self.this)), SVal::Symbol(self.that.id@), func_sval(self.that)), SVal::Symbol(self.is_this.id@), func_sval(self.is_this)), SVal::Symbol(self.is_that.id@), func_sval(self.is_that)), SVal::Symbol(self.get.id@), func_sval(self.get)), SVal::Symbol(self.set.id@), func_sval(self.set)),
    {
        put_func(ctx, &self.this);
        put_func(ctx, &self.that);
        put_func(ctx, &self.is_this);
        put_func(ctx, &self.is_that);
        put_func(ctx, &self.get);
        put_func(ctx, &self.set);
    }
}

/// `this`: the value tagged `this`.
pub fn this() -> (f: FuncVal)
    ensures
        func_sval(f) == prim_model("this"@, CtxAccess::Free, spec_default_mode(), spec_default_mode(), Some(Prim::Either(crate::prelude::either::EitherFn::This))),
{
    prim_func("this", CtxAccess::Free, default_free_mode(), Some(Prim::Either(crate::prelude::either::EitherFn::This)))
}

/// `that`: the value tagged `that`.
pub fn that() -> (f: FuncVal)
    ensures
        func_sval(f) == prim_model("that"@, CtxAccess::Free, spec_default_mode(), spec_default_mode(), Some(Prim::Either(crate::prelude::either::EitherFn::That))),
{
    prim_func("that", CtxAccess::Free, default_free_mode(), Some(Prim::Either(crate::prelude::either::EitherFn::That)))
}

/// `either.is_this`: whether the context is tagged `this`.
pub fn is_this() -> (f: FuncVal)
    ensures
        func_sval(f) == prim_model("either.is_this"@, CtxAccess::Const, spec_default_mode(), spec_default_mode(), Some(Prim::Either(crate::prelude::either::EitherFn::IsThis))),
{
    prim_func("either.is_this", CtxAccess::Const, default_dyn_mode(), Some(Prim::Either(crate::prelude::either::EitherFn::IsThis)))
}

/// `either.is_that`: whether the context is tagged `that`.
pub fn is_that() -> (f: FuncVal)
    ensures
        func_sval(f) == prim_model("either.is_that"@, CtxAccess::Const, spec_default_mode(), spec_default_mode(), Some(Prim::Either(crate::prelude::either::EitherFn::IsThat))),
{
    prim_func("either.is_that", CtxAccess::Const, default_dyn_mode(), Some(Prim::Either(crate::prelude::either::EitherFn::IsThat)))
}

/// `either.get`: a copy of the tagged value.
pub fn get() -> (f: FuncVal)
    ensures
        func_sval(f) == prim_model("either.get"@, CtxAccess::Const, spec_default_mode(), spec_default_mode(), Some(Prim::Either(crate::prelude::either::EitherFn::Get))),
{
    prim_func("either.get", CtxAccess::Const, default_dyn_mode(), Some(Prim::Either(crate::prelude::either::EitherFn::Get)))
}

/// `either.set`: replaces the tagged value; gives back the old one.
pub fn set() -> (f: FuncVal)
    ensures
        func_sval(f) == prim_model("either.set"@, CtxAccess::Mut, spec_default_mode(), spec_default_mode(), Some(Prim::Either(crate::prelude::either::EitherFn::Replace))),
{
    prim_func("either.set", CtxAccess::Mut, default_dyn_mode(), Some(Prim::Either(crate::prelude::either::EitherFn::Replace)))
}

pub open spec fn either_is(this: bool, ctx: SVal) -> SVal {
    match ctx {
        SVal::Either(t, x) => SVal::Bit(t == this),
        _ => SVal::Unit,
    }
}

pub open spec fn either_get(ctx: SVal) -> SVal {
    match ctx {
        SVal::Either(t, x) => *x,
        _ => SVal::Unit,
    }
}

pub open spec fn either_set(ctx: SVal, input: SVal) -> (SVal, SVal) {
    match ctx {
        SVal::Either(t, x) => (SVal::Either(t, Box::new(input)), *x),
        _ => (ctx, SVal::Unit),
    }
}

pub fn fn_this(input: Val) -> (r: Val)
    ensures
        r@ == SVal::Either(true, Box::new(input@)),
{
    Val::Either(true, Box::new(input))
}

pub fn fn_that(input: Val) -> (r: Val)
    ensures
        r@ == SVal::Either(false, Box::new(input@)),
{
    Val::Either(false, Box::new(input))
}

pub fn fn_is_this(ctx: &Val, _input: Val) -> (r: Val)
    ensures
        r@ == either_is(true, ctx@),
{
    let Val::Either(t, _) = ctx else {
        return Val::Unit;
    };
    Val::Bit(*t)
}

pub fn fn_is_that(ctx: &Val, _input: Val) -> (r: Val)
    ensures
        r@ == either_is(false, ctx@),
{
    let Val::Either(t, _) = ctx else {
        return Val::Unit;
    };
    Val::Bit(!*t)
}

pub fn fn_get(ctx: &Val, _input: Val) -> (r: Val)
    ensures
        r@ == either_get(ctx@),
{
    let Val::Either(_, x) = ctx else {
        return Val::Unit;
    };
    copy_val(x)
}

pub fn fn_set(ctx: &mut Val, input: Val) -> (r: Val)
    ensures
        (final(ctx)@, r@) == either_set(old(ctx)@, input@),
{
    let Val::Either(_, x) = ctx else {
        return Val::Unit;
    };
    let mut input = input;
    std::mem::swap(&mut **x, &mut input);
    input
}


/// The built-in functions of this module, by what they compute.
#[derive(Clone, Copy, PartialEq, Eq, Structural)]
pub enum EitherFn {
    This,
    That,
    IsThis,
    IsThat,
    Get,
    Replace,
}

/// What calling one of these functions does: the context after the call, and the result.
pub open spec fn run_spec(f: EitherFn, ctx: SVal, input: SVal) -> (SVal, SVal) {
    match f {
        EitherFn::This => (ctx, SVal::Either(true, Box::new(input))),
        EitherFn::That => (ctx, SVal::Either(false, Box::new(input))),
        EitherFn::IsThis => (ctx, either_is(true, ctx)),
        EitherFn::IsThat => (ctx, either_is(false, ctx)),
        EitherFn::Get => (ctx, either_get(ctx)),
        EitherFn::Replace => either_set(ctx, input),
    }
}

/// Calls one of these functions on a context it may change.
pub fn run(f: EitherFn, ctx: &mut Val, input: Val) -> (r: Val)
    ensures
        (final(ctx)@, r@) == run_spec(f, old(ctx)@, input@),
{
    match f {
        EitherFn::This => fn_this(input),
        EitherFn::That => fn_that(input),
        EitherFn::IsThis => fn_is_this(&*ctx, input),
        EitherFn::IsThat => fn_is_that(&*ctx, input),
        EitherFn::Get => fn_get(&*ctx, input),
        EitherFn::Replace => fn_set(ctx, input),
    }
}

} // verus!
