//! Operations on pairs.
use crate::prelude::setup::{default_dyn_mode, default_free_mode};
use crate::prelude::{func_sval, prim_func, prim_model, put_func, spec_default_mode, Prelude};
use crate::types::dict::dict_insert;
use crate::types::val::{CtxAccess, FuncVal, SVal, Val, ValMap};
use crate::types::copy::copy_val;
use crate::types::val::sval_pair;
use crate::prelude::apply::Prim;
use vstd::prelude::*;

verus! {

pub struct PairPrelude {
    pub new: FuncVal,
    pub first: FuncVal,
    pub set_first: FuncVal,
    pub second: FuncVal,
    pub set_second: FuncVal,
}

impl Default for PairPrelude {
    fn default() -> (r: Self)
        ensures
            func_sval(r.new) == prim_model("pair"@, CtxAccess::Free, spec_default_mode(), spec_default_mode(), Some(Prim::Pair(crate::prelude::pair::PairFn::New))),
            func_sval(r.first) == prim_model("pair.first"@, CtxAccess::Const, spec_default_mode(), spec_default_mode(), Some(Prim::Pair(crate::prelude::pair::PairFn::First))),
            func_sval(r.set_first) == prim_model("pair.set_first"@, CtxAccess::Mut, spec_default_mode(), spec_default_mode(), Some(Prim::Pair(crate::prelude::pair::PairFn::SetFirst))),
            func_sval(r.second) == prim_model("pair.second"@, CtxAccess::Const, spec_default_mode(), spec_default_mode(), Some(Prim::Pair(crate::prelude::pair::PairFn::Second))),
            func_sval(r.set_second) == prim_model("pair.set_second"@, CtxAccess::Mut, spec_default_mode(), spec_default_mode(), Some(Prim::Pair(crate::prelude::pair::PairFn::SetSecond))),
    {
        PairPrelude {
            new: self::new(),
            first: self::first(),
            set_first: self::set_first(),
            second: self::second(),
            set_second: self::set_second(),
        }
    }
}

impl Prelude for PairPrelude {
    fn put(&self, ctx: &mut ValMap)
        ensures
            final(ctx).view() == dict_insert(dict_insert(dict_insert(dict_insert(dict_insert(old(ctx).view(), SVal::Symbol(self.new.id@), func_sval(self.new)), SVal::Symbol(self.first.id@), func_sval(self.first)), SVal::Symbol(self.set_first.id@), func_sval(self.set_first)), SVal::Symbol(self.second.id@), func_sval(self.second)), SVal::Symbol(self.set_second.id@), func_sval(self.set_second)),
    {
        put_func(ctx, &self.new);
        put_func(ctx, &self.first);
        put_func(ctx, &self.set_first);
        put_func(ctx, &self.second);
        put_func(ctx, &self.set_second);
    }
}

/// `pair`: a pair, as it is.
pub fn new() -> (f: FuncVal)
    ensures
        func_sval(f) == prim_model("pair"@, CtxAccess::Free, spec_default_mode(), spec_default_mode(), Some(Prim::Pair(crate::prelude::pair::PairFn::New))),
{
    prim_func("pair", CtxAccess::Free, default_free_mode(), Some(Prim::Pair(crate::prelude::pair::PairFn::New)))
}

/// `pair.first`: a copy of the first item of the context pair.
pub fn first() -> (f: FuncVal)
    ensures
        func_sval(f) == prim_model("pair.first"@, CtxAccess::Const, spec_default_mode(), spec_default_mode(), Some(Prim::Pair(crate::prelude::pair::PairFn::First))),
{
    prim_func("pair.first", CtxAccess::Const, default_dyn_mode(), Some(Prim::Pair(crate::prelude::pair::PairFn::First)))
}

/// `pair.set_first`: replaces the first item; gives back the old one.
pub fn set_first() -> (f: FuncVal)
    ensures
        func_sval(f) == prim_model("pair.set_first"@, CtxAccess::Mut, spec_default_mode(), spec_default_mode(), Some(Prim::Pair(crate::prelude::pair::PairFn::SetFirst))),
{
    prim_func("pair.set_first", CtxAccess::Mut, default_dyn_mode(), Some(Prim::Pair(crate::prelude::pair::PairFn::SetFirst)))
}

/// `pair.second`: a copy of the second item of the context pair.
pub fn second() -> (f: FuncVal)
    ensures
        func_sval(f) == prim_model("pair.second"@, CtxAccess::Const, spec_default_mode(), spec_default_mode(), Some(Prim::Pair(crate::prelude::pair::PairFn::Second))),
{
    prim_func("pair.second", CtxAccess::Const, default_dyn_mode(), Some(Prim::Pair(crate::prelude::pair::PairFn::Second)))
}

/// `pair.set_second`: replaces the second item; gives back the old one.
pub fn set_second() -> (f: FuncVal)
    ensures
        func_sval(f) == prim_model("pair.set_second"@, CtxAccess::Mut, spec_default_mode(), spec_default_mode(), Some(Prim::Pair(crate::prelude::pair::PairFn::SetSecond))),
{
    prim_func("pair.set_second", CtxAccess::Mut, default_dyn_mode(), Some(Prim::Pair(crate::prelude::pair::PairFn::SetSecond)))
}

pub open spec fn pair_first(ctx: SVal) -> SVal {
    match ctx {
        SVal::Pair(a, b) => *a,
        _ => SVal::Unit,
    }
}

pub open spec fn pair_second(ctx: SVal) -> SVal {
    match ctx {
        SVal::Pair(a, b) => *b,
        _ => SVal::Unit,
    }
}

pub open spec fn pair_set_first(ctx: SVal, input: SVal) -> (SVal, SVal) {
    match ctx {
        SVal::Pair(a, b) => (sval_pair(input, *b), *a),
        _ => (ctx, SVal::Unit),
    }
}

pub open spec fn pair_set_second(ctx: SVal, input: SVal) -> (SVal, SVal) {
    match ctx {
        SVal::Pair(a, b) => (sval_pair(*a, input), *b),
        _ => (ctx, SVal::Unit),
    }
}

/// A pair is given back as it is; anything else becomes unit.
pub fn fn_new(input: Val) -> (r: Val)
    ensures
        r@ == (if input@ is Pair { input@ } else { SVal::Unit }),
{
    let Val::Pair(_) = &input else {
        return Val::Unit;
    };
    input
}

pub fn fn_first(ctx: &Val, _input: Val) -> (r: Val)
    ensures
        r@ == pair_first(ctx@),
{
    let Val::Pair(pair) = ctx else {
        return Val::Unit;
    };
    copy_val(&pair.first)
}

pub fn fn_set_first(ctx: &mut Val, input: Val) -> (r: Val)
    ensures
        (final(ctx)@, r@) == pair_set_first(old(ctx)@, input@),
{
    let Val::Pair(pair) = ctx else {
        return Val::Unit;
    };
    let mut input = input;
    std::mem::swap(&mut pair.first, &mut input);
    input
}

pub fn fn_second(ctx: &Val, _input: Val) -> (r: Val)
    ensures
        r@ == pair_second(ctx@),
{
    let Val::Pair(pair) = ctx else {
        return Val::Unit;
    };
    copy_val(&pair.second)
}

pub fn fn_set_second(ctx: &mut Val, input: Val) -> (r: Val)
    ensures
        (final(ctx)@, r@) == pair_set_second(old(ctx)@, input@),
{
    let Val::Pair(pair) = ctx else {
        return Val::Unit;
    };
    let mut input = input;
    std::mem::swap(&mut pair.second, &mut input);
    input
}


/// The built-in functions of this module, by what they compute.
#[derive(Clone, Copy, PartialEq, Eq, Structural)]
pub enum PairFn {
    New,
    First,
    SetFirst,
    Second,
    SetSecond,
}

/// What calling one of these functions does: the context after the call, and the result.
pub open spec fn run_spec(f: PairFn, ctx: SVal, input: SVal) -> (SVal, SVal) {
    match f {
        PairFn::New => (ctx, (if input is Pair { input } else { SVal::Unit })),
        PairFn::First => (ctx, pair_first(ctx)),
        PairFn::SetFirst => pair_set_first(ctx, input),
        PairFn::Second => (ctx, pair_second(ctx)),
        PairFn::SetSecond => pair_set_second(ctx, input),
    }
}

/// Calls one of these functions on a context it may change.
pub fn run(f: PairFn, ctx: &mut Val, input: Val) -> (r: Val)
    ensures
        (final(ctx)@, r@) == run_spec(f, old(ctx)@, input@),
{
    match f {
        PairFn::New => fn_new(input),
        PairFn::First => fn_first(&*ctx, input),
        PairFn::SetFirst => fn_set_first(ctx, input),
        PairFn::Second => fn_second(&*ctx, input),
        PairFn::SetSecond => fn_set_second(ctx, input),
    }
}

} // verus!
