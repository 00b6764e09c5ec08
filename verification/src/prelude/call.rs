//! Call records: a function, a context and an input.
use crate::prelude::setup::{default_dyn_mode, default_free_mode};
use crate::prelude::{func_sval, prim_func, prim_model, put_func, spec_default_mode, Prelude};
use crate::types::dict::dict_insert;
use crate::types::val::{CtxAccess, FuncVal, SVal, Val, ValMap};
use crate::types::record::{call_flag, call_from_pair, call_get, call_get_field, call_get_flag, call_set, call_set_field, CallField};
use crate::prelude::apply::Prim;
use vstd::prelude::*;

verus! {

pub struct CallPrelude {
    pub new_forward: FuncVal,
    pub new_reverse: FuncVal,
    pub apply: FuncVal,
    pub is_reverse: FuncVal,
    pub func: FuncVal,
    pub set_func: FuncVal,
    pub ctx: FuncVal,
    pub set_ctx: FuncVal,
    pub input: FuncVal,
    pub set_input: FuncVal,
}

impl Default for CallPrelude {
    fn default() -> (r: Self)
        ensures
            func_sval(r.new_forward) == prim_model("call.forward"@, CtxAccess::Free, spec_default_mode(), spec_default_mode(), Some(Prim::Call(crate::prelude::call::CallFn::NewForward))),
            func_sval(r.new_reverse) == prim_model("call.reverse"@, CtxAccess::Free, spec_default_mode(), spec_default_mode(), Some(Prim::Call(crate::prelude::call::CallFn::NewReverse))),
            func_sval(r.apply) == prim_model("call.apply"@, CtxAccess::Mut, spec_default_mode(), spec_default_mode(), None),
            func_sval(r.is_reverse) == prim_model("call.is_reverse"@, CtxAccess::Const, spec_default_mode(), spec_default_mode(), Some(Prim::Call(crate::prelude::call::CallFn::IsReverse))),
            func_sval(r.func) == prim_model("call.function"@, CtxAccess::Const, spec_default_mode(), spec_default_mode(), Some(Prim::Call(crate::prelude::call::CallFn::Func))),
            func_sval(r.set_func) == prim_model("call.set_function"@, CtxAccess::Mut, spec_default_mode(), spec_default_mode(), Some(Prim::Call(crate::prelude::call::CallFn::SetFunc))),
            func_sval(r.ctx) == prim_model("call.context"@, CtxAccess::Const, spec_default_mode(), spec_default_mode(), Some(Prim::Call(crate::prelude::call::CallFn::Ctx))),
            func_sval(r.set_ctx) == prim_model("call.set_context"@, CtxAccess::Mut, spec_default_mode(), spec_default_mode(), Some(Prim::Call(crate::prelude::call::CallFn::SetCtx))),
            func_sval(r.input) == prim_model("call.input"@, CtxAccess::Const, spec_default_mode(), spec_default_mode(), Some(Prim::Call(crate::prelude::call::CallFn::Input))),
            func_sval(r.set_input) == prim_model("call.set_input"@, CtxAccess::Mut, spec_default_mode(), spec_default_mode(), Some(Prim::Call(crate::prelude::call::CallFn::SetInput))),
    {
        CallPrelude {
            new_forward: self::new_forward(),
            new_reverse: self::new_reverse(),
            apply: self::apply(),
            is_reverse: self::is_reverse(),
            func: self::func(),
            set_func: self::set_func(),
            ctx: self::ctx(),
            set_ctx: self::set_ctx(),
            input: self::input(),
            set_input: self::set_input(),
        }
    }
}

impl Prelude for CallPrelude {
    fn put(&self, ctx: &mut ValMap)
        ensures
            final(ctx).view() == dict_insert(dict_insert(dict_insert(dict_insert(dict_insert(dict_insert(dict_insert(dict_insert(dict_insert(dict_insert(old(ctx).view(), SVal::Symbol(self.new_forward.id@), func_sval(self.new_forward)), SVal::Symbol(self.new_reverse.id@), func_sval(self.new_reverse)), SVal::Symbol(self.apply.id@), func_sval(self.apply)), SVal::Symbol(self.is_reverse.id@), func_sval(self.is_reverse)), SVal::Symbol(self.func.id@), func_sval(self.func)), SVal::Symbol(self.set_func.id@), func_sval(self.set_func)), SVal::Symbol(self.ctx.id@), func_sval(self.ctx)), SVal::Symbol(self.set_ctx.id@), func_sval(self.set_ctx)), SVal::Symbol(self.input.id@), func_sval(self.input)), SVal::Symbol(self.set_input.id@), func_sval(self.set_input)),
    {
        put_func(ctx, &self.new_forward);
        put_func(ctx, &self.new_reverse);
        put_func(ctx, &self.apply);
        put_func(ctx, &self.is_reverse);
        put_func(ctx, &self.func);
        put_func(ctx, &self.set_func);
        put_func(ctx, &self.ctx);
        put_func(ctx, &self.set_ctx);
        put_func(ctx, &self.input);
        put_func(ctx, &self.set_input);
    }
}

/// `call.forward`: the forward call made of a pair of function and input.
pub fn new_forward() -> (f: FuncVal)
    ensures
        func_sval(f) == prim_model("call.forward"@, CtxAccess::Free, spec_default_mode(), spec_default_mode(), Some(Prim::Call(crate::prelude::call::CallFn::NewForward))),
{
    prim_func("call.forward", CtxAccess::Free, default_free_mode(), Some(Prim::Call(crate::prelude::call::CallFn::NewForward)))
}

/// `call.reverse`: the reverse call made of a pair of function and output.
pub fn new_reverse() -> (f: FuncVal)
    ensures
        func_sval(f) == prim_model("call.reverse"@, CtxAccess::Free, spec_default_mode(), spec_default_mode(), Some(Prim::Call(crate::prelude::call::CallFn::NewReverse))),
{
    prim_func("call.reverse", CtxAccess::Free, default_free_mode(), Some(Prim::Call(crate::prelude::call::CallFn::NewReverse)))
}

/// `call.apply`: applies the call; the evaluation it needs lies outside this library.
pub fn apply() -> (f: FuncVal)
    ensures
        func_sval(f) == prim_model("call.apply"@, CtxAccess::Mut, spec_default_mode(), spec_default_mode(), None),
{
    prim_func("call.apply", CtxAccess::Mut, default_dyn_mode(), None)
}

/// `call.is_reverse`: whether the context call is a reverse call.
pub fn is_reverse() -> (f: FuncVal)
    ensures
        func_sval(f) == prim_model("call.is_reverse"@, CtxAccess::Const, spec_default_mode(), spec_default_mode(), Some(Prim::Call(crate::prelude::call::CallFn::IsReverse))),
{
    prim_func("call.is_reverse", CtxAccess::Const, default_dyn_mode(), Some(Prim::Call(crate::prelude::call::CallFn::IsReverse)))
}

/// `call.function`: a copy of the function of the context call.
pub fn func() -> (f: FuncVal)
    ensures
        func_sval(f) == prim_model("call.function"@, CtxAccess::Const, spec_default_mode(), spec_default_mode(), Some(Prim::Call(crate::prelude::call::CallFn::Func))),
{
    prim_func("call.function", CtxAccess::Const, default_dyn_mode(), Some(Prim::Call(crate::prelude::call::CallFn::Func)))
}

/// `call.set_function`: replaces the function; gives back the old one.
pub fn set_func() -> (f: FuncVal)
    ensures
        func_sval(f) == prim_model("call.set_function"@, CtxAccess::Mut, spec_default_mode(), spec_default_mode(), Some(Prim::Call(crate::prelude::call::CallFn::SetFunc))),
{
    prim_func("call.set_function", CtxAccess::Mut, default_dyn_mode(), Some(Prim::Call(crate::prelude::call::CallFn::SetFunc)))
}

/// `call.context`: a copy of the context of the context call.
pub fn ctx() -> (f: FuncVal)
    ensures
        func_sval(f) == prim_model("call.context"@, CtxAccess::Const, spec_default_mode(), spec_default_mode(), Some(Prim::Call(crate::prelude::call::CallFn::Ctx))),
{
    prim_func("call.context", CtxAccess::Const, default_dyn_mode(), Some(Prim::Call(crate::prelude::call::CallFn::Ctx)))
}

/// `call.set_context`: replaces the context; gives back the old one.
pub fn set_ctx() -> (f: FuncVal)
    ensures
        func_sval(f) == prim_model("call.set_context"@, CtxAccess::Mut, spec_default_mode(), spec_default_mode(), Some(Prim::Call(crate::prelude::call::CallFn::SetCtx))),
{
    prim_func("call.set_context", CtxAccess::Mut, default_dyn_mode(), Some(Prim::Call(crate::prelude::call::CallFn::SetCtx)))
}

/// `call.input`: a copy of the input of the context call.
pub fn input() -> (f: FuncVal)
    ensures
        func_sval(f) == prim_model("call.input"@, CtxAccess::Const, spec_default_mode(), spec_default_mode(), Some(Prim::Call(crate::prelude::call::CallFn::Input))),
{
    prim_func("call.input", CtxAccess::Const, default_dyn_mode(), Some(Prim::Call(crate::prelude::call::CallFn::Input)))
}

/// `call.set_input`: replaces the input; gives back the old one.
pub fn set_input() -> (f: FuncVal)
    ensures
        func_sval(f) == prim_model("call.set_input"@, CtxAccess::Mut, spec_default_mode(), spec_default_mode(), Some(Prim::Call(crate::prelude::call::CallFn::SetInput))),
{
    prim_func("call.set_input", CtxAccess::Mut, default_dyn_mode(), Some(Prim::Call(crate::prelude::call::CallFn::SetInput)))
}

/// A forward call made of a pair of function and input.
pub fn fn_new_forward(input: Val) -> (r: Val)
    ensures
        r@ == (match input@ {
            SVal::Pair(f, i) => SVal::Call(false, f, Box::new(SVal::Unit), i),
            _ => SVal::Unit,
        }),
{
    call_from_pair(false, input)
}

/// A reverse call made of a pair of function and output.
pub fn fn_new_reverse(input: Val) -> (r: Val)
    ensures
        r@ == (match input@ {
            SVal::Pair(f, i) => SVal::Call(true, f, Box::new(SVal::Unit), i),
            _ => SVal::Unit,
        }),
{
    call_from_pair(true, input)
}

pub fn fn_is_reverse(ctx: &Val, _input: Val) -> (r: Val)
    ensures
        r@ == call_flag(ctx@),
{
    call_get_flag(ctx)
}

pub fn fn_func(ctx: &Val, _input: Val) -> (r: Val)
    ensures
        r@ == call_get(CallField::Func, ctx@),
{
    call_get_field(CallField::Func, ctx)
}

pub fn fn_set_func(ctx: &mut Val, input: Val) -> (r: Val)
    ensures
        (final(ctx)@, r@) == call_set(CallField::Func, old(ctx)@, input@),
{
    call_set_field(CallField::Func, ctx, input)
}

pub fn fn_ctx(ctx: &Val, _input: Val) -> (r: Val)
    ensures
        r@ == call_get(CallField::Ctx, ctx@),
{
    call_get_field(CallField::Ctx, ctx)
}

pub fn fn_set_ctx(ctx: &mut Val, input: Val) -> (r: Val)
    ensures
        (final(ctx)@, r@) == call_set(CallField::Ctx, old(ctx)@, input@),
{
    call_set_field(CallField::Ctx, ctx, input)
}

pub fn fn_input(ctx: &Val, _input: Val) -> (r: Val)
    ensures
        r@ == call_get(CallField::Input, ctx@),
{
    call_get_field(CallField::Input, ctx)
}

pub fn fn_set_input(ctx: &mut Val, input: Val) -> (r: Val)
    ensures
        (final(ctx)@, r@) == call_set(CallField::Input, old(ctx)@, input@),
{
    call_set_field(CallField::Input, ctx, input)
}


/// The built-in functions of this module, by what they compute.
#[derive(Clone, Copy, PartialEq, Eq, Structural)]
pub enum CallFn {
    NewForward,
    NewReverse,
    IsReverse,
    Func,
    SetFunc,
    Ctx,
    SetCtx,
    Input,
    SetInput,
}

/// What calling one of these functions does: the context after the call, and the result.
pub open spec fn run_spec(f: CallFn, ctx: SVal, input: SVal) -> (SVal, SVal) {
    match f {
        CallFn::NewForward => (ctx, (match input { SVal::Pair(f, i) => SVal::Call(false, f, Box::new(SVal::Unit), i), _ => SVal::Unit, })),
        CallFn::NewReverse => (ctx, (match input { SVal::Pair(f, i) => SVal::Call(true, f, Box::new(SVal::Unit), i), _ => SVal::Unit, })),
        CallFn::IsReverse => (ctx, call_flag(ctx)),
        CallFn::Func => (ctx, call_get(CallField::Func, ctx)),
        CallFn::SetFunc => call_set(CallField::Func, ctx, input),
        CallFn::Ctx => (ctx, call_get(CallField::Ctx, ctx)),
        CallFn::SetCtx => call_set(CallField::Ctx, ctx, input),
        CallFn::Input => (ctx, call_get(CallField::Input, ctx)),
        CallFn::SetInput => call_set(CallField::Input, ctx, input),
    }
}

/// Calls one of these functions on a context it may change.
pub fn run(f: CallFn, ctx: &mut Val, input: Val) -> (r: Val)
    ensures
        (final(ctx)@, r@) == run_spec(f, old(ctx)@, input@),
{
    match f {
        CallFn::NewForward => fn_new_forward(input),
        CallFn::NewReverse => fn_new_reverse(input),
        CallFn::IsReverse => fn_is_reverse(&*ctx, input),
        CallFn::Func => fn_func(&*ctx, input),
        CallFn::SetFunc => fn_set_func(ctx, input),
        CallFn::Ctx => fn_ctx(&*ctx, input),
        CallFn::SetCtx => fn_set_ctx(ctx, input),
        CallFn::Input => fn_input(&*ctx, input),
        CallFn::SetInput => fn_set_input(ctx, input),
    }
}

} // verus!
