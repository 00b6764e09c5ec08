//! Functions on function values: making them from their written form and reading their parts.
use crate::prelude::func::repr::{
    access_word, code_form, func_parse_mode, func_writable, generate_access, generate_code,
    generate_func, generate_func_spec, key_code, lemma_func_roundtrip, parse_func, parse_func_spec,
};
use crate::prelude::mode::repr::gen_mode;
use crate::prelude::mode::{view_mode_entries, ModeEntry, SymbolMode, TaskPrimMode};
use crate::prelude::setup::{default_dyn_mode, default_free_mode};
use crate::prelude::{func_sval, prim_func, prim_model, put_func, spec_default_mode, FuncMode, Prelude};
use crate::types::copy::{copy_func, copy_val, copy_vars};
use crate::types::dict::dict_insert;
use crate::types::val::{view_func, CtxAccess, CtxVal, FuncVal, SFunc, SVal, Val, ValMap};
use crate::prelude::apply::Prim;
use vstd::prelude::*;

pub mod repr;

verus! {

pub struct FuncPrelude {
    pub new: FuncVal,
    pub repr: FuncVal,
    pub ctx_access: FuncVal,
    pub forward_setup: FuncVal,
    pub reverse_setup: FuncVal,
    pub is_primitive: FuncVal,
    pub is_cell: FuncVal,
    pub id: FuncVal,
    pub code: FuncVal,
    pub ctx: FuncVal,
}

pub open spec fn getter_model(id: Seq<char>, prim: Option<Prim>) -> SVal {
    prim_model(id, CtxAccess::Const, spec_default_mode(), spec_default_mode(), prim)
}

impl Default for FuncPrelude {
    fn default() -> (r: Self)
        ensures
            func_sval(r.new) == prim_model("function"@, CtxAccess::Free, gen_mode(func_parse_mode()), spec_default_mode(), Some(Prim::Func(crate::prelude::func::FuncFn::New))),
            func_sval(r.repr) == prim_model("function.represent"@, CtxAccess::Free, spec_default_mode(), spec_default_mode(), Some(Prim::Func(crate::prelude::func::FuncFn::Repr))),
            func_sval(r.ctx_access) == getter_model("function.context_access"@, Some(Prim::Func(crate::prelude::func::FuncFn::CtxAccess))),
            func_sval(r.forward_setup) == getter_model("function.forward_setup"@, Some(Prim::Func(crate::prelude::func::FuncFn::ForwardSetup))),
            func_sval(r.reverse_setup) == getter_model("function.reverse_setup"@, Some(Prim::Func(crate::prelude::func::FuncFn::ReverseSetup))),
            func_sval(r.is_primitive) == getter_model("function.is_primitive"@, Some(Prim::Func(crate::prelude::func::FuncFn::IsPrimitive))),
            func_sval(r.is_cell) == getter_model("function.is_cell"@, Some(Prim::Func(crate::prelude::func::FuncFn::IsCell))),
            func_sval(r.id) == getter_model("function.id"@, Some(Prim::Func(crate::prelude::func::FuncFn::Id))),
            func_sval(r.code) == getter_model("function.code"@, Some(Prim::Func(crate::prelude::func::FuncFn::Code))),
            func_sval(r.ctx) == getter_model("function.context"@, Some(Prim::Func(crate::prelude::func::FuncFn::Ctx))),
    {
        FuncPrelude {
            new: self::new(),
            repr: self::repr(),
            ctx_access: self::ctx_access(),
            forward_setup: self::forward_setup(),
            reverse_setup: self::reverse_setup(),
            is_primitive: self::is_primitive(),
            is_cell: self::is_cell(),
            id: self::id(),
            code: self::code(),
            ctx: self::ctx(),
        }
    }
}

impl Prelude for FuncPrelude {
    fn put(&self, ctx: &mut ValMap)
        ensures
            final(ctx).view() == dict_insert(dict_insert(dict_insert(dict_insert(dict_insert(
                dict_insert(dict_insert(dict_insert(dict_insert(dict_insert(old(ctx).view(),
                SVal::Symbol(self.new.id@), func_sval(self.new)),
                SVal::Symbol(self.repr.id@), func_sval(self.repr)),
                SVal::Symbol(self.ctx_access.id@), func_sval(self.ctx_access)),
                SVal::Symbol(self.forward_setup.id@), func_sval(self.forward_setup)),
                SVal::Symbol(self.reverse_setup.id@), func_sval(self.reverse_setup)),
                SVal::Symbol(self.is_primitive.id@), func_sval(self.is_primitive)),
                SVal::Symbol(self.is_cell.id@), func_sval(self.is_cell)),
                SVal::Symbol(self.id.id@), func_sval(self.id)),
                SVal::Symbol(self.code.id@), func_sval(self.code)),
                SVal::Symbol(self.ctx.id@), func_sval(self.ctx)),
    {
        put_func(ctx, &self.new);
        put_func(ctx, &self.repr);
        put_func(ctx, &self.ctx_access);
        put_func(ctx, &self.forward_setup);
        put_func(ctx, &self.reverse_setup);
        put_func(ctx, &self.is_primitive);
        put_func(ctx, &self.is_cell);
        put_func(ctx, &self.id);
        put_func(ctx, &self.code);
        put_func(ctx, &self.ctx);
    }
}

/// `function`: the function a map of its parts writes.
pub fn new() -> (f: FuncVal)
    ensures
        func_sval(f) == prim_model("function"@, CtxAccess::Free, gen_mode(func_parse_mode()), spec_default_mode(), Some(Prim::Func(crate::prelude::func::FuncFn::New))),
{
    let code_mode = FuncMode::prim_mode(SymbolMode::Ref, TaskPrimMode::Form);
    let mut some: Vec<ModeEntry> = Vec::new();
    let k = Val::Symbol(String::from_str("code"));
    assert(k@ == key_code());
    some.push(ModeEntry { key: k, mode: code_mode });
    proof {
        assert(some@.drop_last() =~= Seq::<ModeEntry>::empty());
        reveal_with_fuel(crate::prelude::mode::view_mode_entries, 2);
        assert(view_mode_entries(some@) =~= seq![(key_code(), some@[0].mode@)]);
    }
    let call = FuncMode::map_mode(some, FuncMode::default_mode());
    let m = FuncMode::from_modes(&call, &FuncMode::default_mode());
    prim_func("function", CtxAccess::Free, FuncMode { call: m.call, solve: m.solve }, Some(Prim::Func(crate::prelude::func::FuncFn::New)))
}

/// `function.represent`: the written form of a function.
pub fn repr() -> (f: FuncVal)
    ensures
        func_sval(f) == prim_model("function.represent"@, CtxAccess::Free, spec_default_mode(), spec_default_mode(), Some(Prim::Func(crate::prelude::func::FuncFn::Repr))),
{
    prim_func("function.represent", CtxAccess::Free, default_free_mode(), Some(Prim::Func(crate::prelude::func::FuncFn::Repr)))
}

pub fn ctx_access() -> (f: FuncVal)
    ensures
        func_sval(f) == getter_model("function.context_access"@, Some(Prim::Func(crate::prelude::func::FuncFn::CtxAccess))),
{
    prim_func("function.context_access", CtxAccess::Const, default_dyn_mode(), Some(Prim::Func(crate::prelude::func::FuncFn::CtxAccess)))
}

pub fn forward_setup() -> (f: FuncVal)
    ensures
        func_sval(f) == getter_model("function.forward_setup"@, Some(Prim::Func(crate::prelude::func::FuncFn::ForwardSetup))),
{
    prim_func("function.forward_setup", CtxAccess::Const, default_dyn_mode(), Some(Prim::Func(crate::prelude::func::FuncFn::ForwardSetup)))
}

pub fn reverse_setup() -> (f: FuncVal)
    ensures
        func_sval(f) == getter_model("function.reverse_setup"@, Some(Prim::Func(crate::prelude::func::FuncFn::ReverseSetup))),
{
    prim_func("function.reverse_setup", CtxAccess::Const, default_dyn_mode(), Some(Prim::Func(crate::prelude::func::FuncFn::ReverseSetup)))
}

pub fn is_primitive() -> (f: FuncVal)
    ensures
        func_sval(f) == getter_model("function.is_primitive"@, Some(Prim::Func(crate::prelude::func::FuncFn::IsPrimitive))),
{
    prim_func("function.is_primitive", CtxAccess::Const, default_dyn_mode(), Some(Prim::Func(crate::prelude::func::FuncFn::IsPrimitive)))
}

pub fn is_cell() -> (f: FuncVal)
    ensures
        func_sval(f) == getter_model("function.is_cell"@, Some(Prim::Func(crate::prelude::func::FuncFn::IsCell))),
{
    prim_func("function.is_cell", CtxAccess::Const, default_dyn_mode(), Some(Prim::Func(crate::prelude::func::FuncFn::IsCell)))
}

pub fn id() -> (f: FuncVal)
    ensures
        func_sval(f) == getter_model("function.id"@, Some(Prim::Func(crate::prelude::func::FuncFn::Id))),
{
    prim_func("function.id", CtxAccess::Const, default_dyn_mode(), Some(Prim::Func(crate::prelude::func::FuncFn::Id)))
}

pub fn code() -> (f: FuncVal)
    ensures
        func_sval(f) == getter_model("function.code"@, Some(Prim::Func(crate::prelude::func::FuncFn::Code))),
{
    prim_func("function.code", CtxAccess::Const, default_dyn_mode(), Some(Prim::Func(crate::prelude::func::FuncFn::Code)))
}

pub fn ctx() -> (f: FuncVal)
    ensures
        func_sval(f) == getter_model("function.context"@, Some(Prim::Func(crate::prelude::func::FuncFn::Ctx))),
{
    prim_func("function.context", CtxAccess::Const, default_dyn_mode(), Some(Prim::Func(crate::prelude::func::FuncFn::Ctx)))
}

pub open spec fn func_new(input: SVal) -> SVal {
    match parse_func_spec(input) {
        Some(f) => SVal::Func(Box::new(f)),
        None => SVal::Unit,
    }
}

pub open spec fn func_repr(input: SVal) -> SVal {
    match input {
        SVal::Func(f) => generate_func_spec(*f),
        _ => SVal::Unit,
    }
}

/// A part of the function in the context, or unit when the context is no function.
pub open spec fn func_part(ctx: SVal, part: spec_fn(SFunc) -> SVal) -> SVal {
    match ctx {
        SVal::Func(f) => part(*f),
        _ => SVal::Unit,
    }
}

pub open spec fn part_access(f: SFunc) -> SVal {
    SVal::Symbol(access_word(f.access))
}

pub open spec fn part_call(f: SFunc) -> SVal {
    f.call
}

pub open spec fn part_solve(f: SFunc) -> SVal {
    f.solve
}

pub open spec fn part_is_primitive(f: SFunc) -> SVal {
    SVal::Bit(f.comp is None)
}

pub open spec fn part_is_cell(f: SFunc) -> SVal {
    SVal::Bit(f.cell)
}

pub open spec fn part_id(f: SFunc) -> SVal {
    SVal::Symbol(f.id)
}

pub open spec fn part_code(f: SFunc) -> SVal {
    match f.comp {
        Some(c) => code_form(f.access, c),
        None => SVal::Unit,
    }
}

pub open spec fn part_ctx(f: SFunc) -> SVal {
    match f.comp {
        Some(c) => SVal::Ctx(c.ctx),
        None => SVal::Unit,
    }
}

pub fn fn_new(input: Val) -> (r: Val)
    ensures
        r@ == func_new(input@),
{
    match parse_func(&input) {
        Some(f) => Val::Func(Box::new(f)),
        None => Val::Unit,
    }
}

pub fn fn_repr(input: Val) -> (r: Val)
    ensures
        r@ == func_repr(input@),
{
    let Val::Func(f) = input else {
        return Val::Unit;
    };
    generate_func(&f)
}

pub fn fn_ctx_access(ctx: &Val, _input: Val) -> (r: Val)
    ensures
        r@ == func_part(ctx@, |f: SFunc| part_access(f)),
{
    let Val::Func(f) = ctx else {
        return Val::Unit;
    };
    generate_access(f.access)
}

pub fn fn_forward_setup(ctx: &Val, _input: Val) -> (r: Val)
    ensures
        r@ == func_part(ctx@, |f: SFunc| part_call(f)),
{
    let Val::Func(f) = ctx else {
        return Val::Unit;
    };
    copy_val(&f.call)
}

pub fn fn_reverse_setup(ctx: &Val, _input: Val) -> (r: Val)
    ensures
        r@ == func_part(ctx@, |f: SFunc| part_solve(f)),
{
    let Val::Func(f) = ctx else {
        return Val::Unit;
    };
    copy_val(&f.solve)
}

pub fn fn_is_primitive(ctx: &Val, _input: Val) -> (r: Val)
    ensures
        r@ == func_part(ctx@, |f: SFunc| part_is_primitive(f)),
{
    let Val::Func(f) = ctx else {
        return Val::Unit;
    };
    Val::Bit(f.comp.is_none())
}

pub fn fn_is_cell(ctx: &Val, _input: Val) -> (r: Val)
    ensures
        r@ == func_part(ctx@, |f: SFunc| part_is_cell(f)),
{
    let Val::Func(f) = ctx else {
        return Val::Unit;
    };
    Val::Bit(f.cell)
}

pub fn fn_id(ctx: &Val, _input: Val) -> (r: Val)
    ensures
        r@ == func_part(ctx@, |f: SFunc| part_id(f)),
{
    let Val::Func(f) = ctx else {
        return Val::Unit;
    };
    Val::Symbol(f.id.clone())
}

pub fn fn_code(ctx: &Val, _input: Val) -> (r: Val)
    ensures
        r@ == func_part(ctx@, |f: SFunc| part_code(f)),
{
    let Val::Func(f) = ctx else {
        return Val::Unit;
    };
    generate_code(f)
}

pub fn fn_ctx(ctx: &Val, _input: Val) -> (r: Val)
    ensures
        r@ == func_part(ctx@, |f: SFunc| part_ctx(f)),
{
    let Val::Func(f) = ctx else {
        return Val::Unit;
    };
    match &f.comp {
        Some(c) => {
            proof {
                crate::types::copy::lemma_view_vars(c.ctx.vars@);
            }
            Val::Ctx(CtxVal { vars: copy_vars(&c.ctx.vars) })
        },
        None => Val::Unit,
    }
}

/// A function with code, written down by `function.represent` and made again by
/// `function`, is the same function.
pub proof fn lemma_new_of_repr(f: SFunc)
    requires
        func_writable(f),
    ensures
        func_new(func_repr(SVal::Func(Box::new(f)))) == SVal::Func(Box::new(f)),
{
    lemma_func_roundtrip(f);
}


/// The built-in functions of this module, by what they compute.
#[derive(Clone, Copy, PartialEq, Eq, Structural)]
pub enum FuncFn {
    New,
    Repr,
    CtxAccess,
    ForwardSetup,
    ReverseSetup,
    IsPrimitive,
    IsCell,
    Id,
    Code,
    Ctx,
}

/// What calling one of these functions does: the context after the call, and the result.
pub open spec fn run_spec(f: FuncFn, ctx: SVal, input: SVal) -> (SVal, SVal) {
    match f {
        FuncFn::New => (ctx, func_new(input)),
        FuncFn::Repr => (ctx, func_repr(input)),
        FuncFn::CtxAccess => (ctx, func_part(ctx, |f: SFunc| part_access(f))),
        FuncFn::ForwardSetup => (ctx, func_part(ctx, |f: SFunc| part_call(f))),
        FuncFn::ReverseSetup => (ctx, func_part(ctx, |f: SFunc| part_solve(f))),
        FuncFn::IsPrimitive => (ctx, func_part(ctx, |f: SFunc| part_is_primitive(f))),
        FuncFn::IsCell => (ctx, func_part(ctx, |f: SFunc| part_is_cell(f))),
        FuncFn::Id => (ctx, func_part(ctx, |f: SFunc| part_id(f))),
        FuncFn::Code => (ctx, func_part(ctx, |f: SFunc| part_code(f))),
        FuncFn::Ctx => (ctx, func_part(ctx, |f: SFunc| part_ctx(f))),
    }
}

/// Calls one of these functions on a context it may change.
pub fn run(f: FuncFn, ctx: &mut Val, input: Val) -> (r: Val)
    ensures
        (final(ctx)@, r@) == run_spec(f, old(ctx)@, input@),
{
    match f {
        FuncFn::New => fn_new(input),
        FuncFn::Repr => fn_repr(input),
        FuncFn::CtxAccess => fn_ctx_access(&*ctx, input),
        FuncFn::ForwardSetup => fn_forward_setup(&*ctx, input),
        FuncFn::ReverseSetup => fn_reverse_setup(&*ctx, input),
        FuncFn::IsPrimitive => fn_is_primitive(&*ctx, input),
        FuncFn::IsCell => fn_is_cell(&*ctx, input),
        FuncFn::Id => fn_id(&*ctx, input),
        FuncFn::Code => fn_code(&*ctx, input),
        FuncFn::Ctx => fn_ctx(&*ctx, input),
    }
}

} // verus!
