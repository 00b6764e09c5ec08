//! Tasks: calls and solvings of a function in a context.
use crate::prelude::setup::{default_dyn_mode, default_free_mode};
use crate::prelude::{func_sval, prim_func, prim_model, put_func, spec_default_mode, Prelude};
use crate::types::dict::dict_insert;
use crate::types::val::{CtxAccess, FuncVal, SVal, Val, ValMap};
use crate::types::record::{call_flag, call_from_pair, call_get, call_get_field, call_get_flag, call_set, call_set_field, CallField};
use crate::prelude::symbol;
use crate::types::dict::{dict_get, dict_remove, Entries};
use crate::types::val::CallVal;
use crate::prelude::apply::Prim;
use vstd::prelude::*;

verus! {

pub struct TaskPrelude {
    pub new_call: FuncVal,
    pub new_solve: FuncVal,
    pub apply: FuncVal,
    pub is_solve: FuncVal,
    pub func: FuncVal,
    pub set_func: FuncVal,
    pub ctx: FuncVal,
    pub set_ctx: FuncVal,
    pub input: FuncVal,
    pub set_input: FuncVal,
}

impl Default for TaskPrelude {
    fn default() -> (r: Self)
        ensures
            func_sval(r.new_call) == prim_model("call"@, CtxAccess::Free, spec_default_mode(), spec_default_mode(), Some(Prim::Task(crate::prelude::task::TaskFn::NewCall))),
            func_sval(r.new_solve) == prim_model("solve"@, CtxAccess::Free, spec_default_mode(), spec_default_mode(), Some(Prim::Task(crate::prelude::task::TaskFn::NewSolve))),
            func_sval(r.apply) == prim_model("task.apply"@, CtxAccess::Mut, spec_default_mode(), spec_default_mode(), None),
            func_sval(r.is_solve) == prim_model("task.is_solve"@, CtxAccess::Const, spec_default_mode(), spec_default_mode(), Some(Prim::Task(crate::prelude::task::TaskFn::IsSolve))),
            func_sval(r.func) == prim_model("task.function"@, CtxAccess::Const, spec_default_mode(), spec_default_mode(), Some(Prim::Task(crate::prelude::task::TaskFn::Func))),
            func_sval(r.set_func) == prim_model("task.set_function"@, CtxAccess::Mut, spec_default_mode(), spec_default_mode(), Some(Prim::Task(crate::prelude::task::TaskFn::SetFunc))),
            func_sval(r.ctx) == prim_model("task.context"@, CtxAccess::Const, spec_default_mode(), spec_default_mode(), Some(Prim::Task(crate::prelude::task::TaskFn::Ctx))),
            func_sval(r.set_ctx) == prim_model("task.set_context"@, CtxAccess::Mut, spec_default_mode(), spec_default_mode(), Some(Prim::Task(crate::prelude::task::TaskFn::SetCtx))),
            func_sval(r.input) == prim_model("task.input"@, CtxAccess::Const, spec_default_mode(), spec_default_mode(), Some(Prim::Task(crate::prelude::task::TaskFn::Input))),
            func_sval(r.set_input) == prim_model("task.set_input"@, CtxAccess::Mut, spec_default_mode(), spec_default_mode(), Some(Prim::Task(crate::prelude::task::TaskFn::SetInput))),
    {
        TaskPrelude {
            new_call: self::new_call(),
            new_solve: self::new_solve(),
            apply: self::apply(),
            is_solve: self::is_solve(),
            func: self::func(),
            set_func: self::set_func(),
            ctx: self::ctx(),
            set_ctx: self::set_ctx(),
            input: self::input(),
            set_input: self::set_input(),
        }
    }
}

impl Prelude for TaskPrelude {
    fn put(&self, ctx: &mut ValMap)
        ensures
            final(ctx).view() == dict_insert(dict_insert(dict_insert(dict_insert(dict_insert(dict_insert(dict_insert(dict_insert(dict_insert(dict_insert(old(ctx).view(), SVal::Symbol(self.new_call.id@), func_sval(self.new_call)), SVal::Symbol(self.new_solve.id@), func_sval(self.new_solve)), SVal::Symbol(self.apply.id@), func_sval(self.apply)), SVal::Symbol(self.is_solve.id@), func_sval(self.is_solve)), SVal::Symbol(self.func.id@), func_sval(self.func)), SVal::Symbol(self.set_func.id@), func_sval(self.set_func)), SVal::Symbol(self.ctx.id@), func_sval(self.ctx)), SVal::Symbol(self.set_ctx.id@), func_sval(self.set_ctx)), SVal::Symbol(self.input.id@), func_sval(self.input)), SVal::Symbol(self.set_input.id@), func_sval(self.set_input)),
    {
        put_func(ctx, &self.new_call);
        put_func(ctx, &self.new_solve);
        put_func(ctx, &self.apply);
        put_func(ctx, &self.is_solve);
        put_func(ctx, &self.func);
        put_func(ctx, &self.set_func);
        put_func(ctx, &self.ctx);
        put_func(ctx, &self.set_ctx);
        put_func(ctx, &self.input);
        put_func(ctx, &self.set_input);
    }
}

/// `call`: the calling task read from a map of its fields.
pub fn new_call() -> (f: FuncVal)
    ensures
        func_sval(f) == prim_model("call"@, CtxAccess::Free, spec_default_mode(), spec_default_mode(), Some(Prim::Task(crate::prelude::task::TaskFn::NewCall))),
{
    prim_func("call", CtxAccess::Free, default_free_mode(), Some(Prim::Task(crate::prelude::task::TaskFn::NewCall)))
}

/// `solve`: the solving task read from a map of its fields.
pub fn new_solve() -> (f: FuncVal)
    ensures
        func_sval(f) == prim_model("solve"@, CtxAccess::Free, spec_default_mode(), spec_default_mode(), Some(Prim::Task(crate::prelude::task::TaskFn::NewSolve))),
{
    prim_func("solve", CtxAccess::Free, default_free_mode(), Some(Prim::Task(crate::prelude::task::TaskFn::NewSolve)))
}

/// `task.apply`: applies the call; the evaluation it needs lies outside this library.
pub fn apply() -> (f: FuncVal)
    ensures
        func_sval(f) == prim_model("task.apply"@, CtxAccess::Mut, spec_default_mode(), spec_default_mode(), None),
{
    prim_func("task.apply", CtxAccess::Mut, default_dyn_mode(), None)
}

/// `task.is_reverse`: whether the context task is a reverse task.
pub fn is_solve() -> (f: FuncVal)
    ensures
        func_sval(f) == prim_model("task.is_solve"@, CtxAccess::Const, spec_default_mode(), spec_default_mode(), Some(Prim::Task(crate::prelude::task::TaskFn::IsSolve))),
{
    prim_func("task.is_solve", CtxAccess::Const, default_dyn_mode(), Some(Prim::Task(crate::prelude::task::TaskFn::IsSolve)))
}

/// `task.function`: a copy of the function of the context task.
pub fn func() -> (f: FuncVal)
    ensures
        func_sval(f) == prim_model("task.function"@, CtxAccess::Const, spec_default_mode(), spec_default_mode(), Some(Prim::Task(crate::prelude::task::TaskFn::Func))),
{
    prim_func("task.function", CtxAccess::Const, default_dyn_mode(), Some(Prim::Task(crate::prelude::task::TaskFn::Func)))
}

/// `task.set_function`: replaces the function; gives back the old one.
pub fn set_func() -> (f: FuncVal)
    ensures
        func_sval(f) == prim_model("task.set_function"@, CtxAccess::Mut, spec_default_mode(), spec_default_mode(), Some(Prim::Task(crate::prelude::task::TaskFn::SetFunc))),
{
    prim_func("task.set_function", CtxAccess::Mut, default_dyn_mode(), Some(Prim::Task(crate::prelude::task::TaskFn::SetFunc)))
}

/// `task.context`: a copy of the context of the context task.
pub fn ctx() -> (f: FuncVal)
    ensures
        func_sval(f) == prim_model("task.context"@, CtxAccess::Const, spec_default_mode(), spec_default_mode(), Some(Prim::Task(crate::prelude::task::TaskFn::Ctx))),
{
    prim_func("task.context", CtxAccess::Const, default_dyn_mode(), Some(Prim::Task(crate::prelude::task::TaskFn::Ctx)))
}

/// `task.set_context`: replaces the context; gives back the old one.
pub fn set_ctx() -> (f: FuncVal)
    ensures
        func_sval(f) == prim_model("task.set_context"@, CtxAccess::Mut, spec_default_mode(), spec_default_mode(), Some(Prim::Task(crate::prelude::task::TaskFn::SetCtx))),
{
    prim_func("task.set_context", CtxAccess::Mut, default_dyn_mode(), Some(Prim::Task(crate::prelude::task::TaskFn::SetCtx)))
}

/// `task.input`: a copy of the input of the context task.
pub fn input() -> (f: FuncVal)
    ensures
        func_sval(f) == prim_model("task.input"@, CtxAccess::Const, spec_default_mode(), spec_default_mode(), Some(Prim::Task(crate::prelude::task::TaskFn::Input))),
{
    prim_func("task.input", CtxAccess::Const, default_dyn_mode(), Some(Prim::Task(crate::prelude::task::TaskFn::Input)))
}

/// `task.set_input`: replaces the input; gives back the old one.
pub fn set_input() -> (f: FuncVal)
    ensures
        func_sval(f) == prim_model("task.set_input"@, CtxAccess::Mut, spec_default_mode(), spec_default_mode(), Some(Prim::Task(crate::prelude::task::TaskFn::SetInput))),
{
    prim_func("task.set_input", CtxAccess::Mut, default_dyn_mode(), Some(Prim::Task(crate::prelude::task::TaskFn::SetInput)))
}

/// The value of a named field of a map written as a task; unit when absent.
pub open spec fn task_field(s: Entries, name: Seq<char>) -> SVal {
    match dict_get(s, SVal::Symbol(name)) {
        Some(v) => v,
        None => SVal::Unit,
    }
}

/// A task read from a map with the fields `function`, `context` and `input`.
pub open spec fn task_new(solve: bool, input: SVal) -> SVal {
    match input {
        SVal::Dict(s) => {
            let s1 = dict_remove(s, SVal::Symbol("function"@));
            let s2 = dict_remove(s1, SVal::Symbol("context"@));
            SVal::Call(
                solve,
                Box::new(task_field(s, "function"@)),
                Box::new(task_field(s1, "context"@)),
                Box::new(task_field(s2, "input"@)),
            )
        },
        _ => SVal::Unit,
    }
}

pub fn take_field(map: &mut ValMap, name: &str) -> (r: Val)
    ensures
        r@ == (match dict_get(old(map).view(), SVal::Symbol(name@)) {
            Some(v) => v,
            None => SVal::Unit,
        }),
        final(map).view() == dict_remove(old(map).view(), SVal::Symbol(name@)),
{
    match map.remove(&symbol(name)) {
        Some(v) => v,
        None => Val::Unit,
    }
}

pub fn make_task(solve: bool, input: Val) -> (r: Val)
    ensures
        r@ == task_new(solve, input@),
{
    let Val::Dict(mut map) = input else {
        return Val::Unit;
    };
    let func = take_field(&mut map, "function");
    let ctx = take_field(&mut map, "context");
    let input = take_field(&mut map, "input");
    Val::Call(Box::new(CallVal { reverse: solve, func, ctx, input }))
}

pub fn fn_new_call(input: Val) -> (r: Val)
    ensures
        r@ == task_new(false, input@),
{
    make_task(false, input)
}

pub fn fn_new_solve(input: Val) -> (r: Val)
    ensures
        r@ == task_new(true, input@),
{
    make_task(true, input)
}

pub fn fn_is_solve(ctx: &Val, _input: Val) -> (r: Val)
    ensures
        r@ == call_flag(ctx@),
{
    call_get_flag(ctx)
}

pub fn fn_func(ctx: &Val, _input: Val) -> (r: Val)
    ensures
        r@ == call_get(CallField::Func, ctx@),
{
    call_get_field(CallField::Func, ctx)
}

pub fn fn_set_func(ctx: &mut Val, input: Val) -> (r: Val)
    ensures
        (final(ctx)@, r@) == call_set(CallField::Func, old(ctx)@, input@),
{
    call_set_field(CallField::Func, ctx, input)
}

pub fn fn_ctx(ctx: &Val, _input: Val) -> (r: Val)
    ensures
        r@ == call_get(CallField::Ctx, ctx@),
{
    call_get_field(CallField::Ctx, ctx)
}

pub fn fn_set_ctx(ctx: &mut Val, input: Val) -> (r: Val)
    ensures
        (final(ctx)@, r@) == call_set(CallField::Ctx, old(ctx)@, input@),
{
    call_set_field(CallField::Ctx, ctx, input)
}

pub fn fn_input(ctx: &Val, _input: Val) -> (r: Val)
    ensures
        r@ == call_get(CallField::Input, ctx@),
{
    call_get_field(CallField::Input, ctx)
}

pub fn fn_set_input(ctx: &mut Val, input: Val) -> (r: Val)
    ensures
        (final(ctx)@, r@) == call_set(CallField::Input, old(ctx)@, input@),
{
    call_set_field(CallField::Input, ctx, input)
}


/// The built-in functions of this module, by what they compute.
#[derive(Clone, Copy, PartialEq, Eq, Structural)]
pub enum TaskFn {
    NewCall,
    NewSolve,
    IsSolve,
    Func,
    SetFunc,
    Ctx,
    SetCtx,
    Input,
    SetInput,
}

/// What calling one of these functions does: the context after the call, and the result.
pub open spec fn run_spec(f: TaskFn, ctx: SVal, input: SVal) -> (SVal, SVal) {
    match f {
        TaskFn::NewCall => (ctx, task_new(false, input)),
        TaskFn::NewSolve => (ctx, task_new(true, input)),
        TaskFn::IsSolve => (ctx, call_flag(ctx)),
        TaskFn::Func => (ctx, call_get(CallField::Func, ctx)),
        TaskFn::SetFunc => call_set(CallField::Func, ctx, input),
        TaskFn::Ctx => (ctx, call_get(CallField::Ctx, ctx)),
        TaskFn::SetCtx => call_set(CallField::Ctx, ctx, input),
        TaskFn::Input => (ctx, call_get(CallField::Input, ctx)),
        TaskFn::SetInput => call_set(CallField::Input, ctx, input),
    }
}

/// Calls one of these functions on a context it may change.
pub fn run(f: TaskFn, ctx: &mut Val, input: Val) -> (r: Val)
    ensures
        (final(ctx)@, r@) == run_spec(f, old(ctx)@, input@),
{
    match f {
        TaskFn::NewCall => fn_new_call(input),
        TaskFn::NewSolve => fn_new_solve(input),
        TaskFn::IsSolve => fn_is_solve(&*ctx, input),
        TaskFn::Func => fn_func(&*ctx, input),
        TaskFn::SetFunc => fn_set_func(ctx, input),
        TaskFn::Ctx => fn_ctx(&*ctx, input),
        TaskFn::SetCtx => fn_set_ctx(ctx, input),
        TaskFn::Input => fn_input(&*ctx, input),
        TaskFn::SetInput => fn_set_input(ctx, input),
    }
}

} // verus!
