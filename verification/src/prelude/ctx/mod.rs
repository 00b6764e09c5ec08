//! Functions on contexts: reading, moving and binding variables, and their contracts.
use crate::prelude::ctx::pattern::{
    pat_assign, pat_match, pattern_assign, pattern_match, pattern_name, value_or_unit,
};
use crate::prelude::ctx::repr::{
    contract_word, ctx_parse_mode, gen_vars, generate_contract, generate_ctx, lemma_ctx_roundtrip,
    parse_contract, parse_contract_spec, parse_ctx, parse_ctx_spec, parse_mode,
};
use crate::prelude::mode::func::default_prim;
use crate::prelude::mode::repr::gen_mode;
use crate::prelude::mode::{prim_smode, SymbolTaskMode, SMode, SPairMode, SymbolMode, TaskPrimMode};
use crate::prelude::setup::{default_dyn_mode, default_free_mode, dyn_mode, free_mode};
use crate::prelude::{func_sval, prim_func, prim_model, put_func, spec_default_mode, FuncMode, Prelude};
use crate::types::copy::copy_val;
use crate::types::dict::dict_insert;
use crate::types::val::{CtxAccess, FuncVal, SVal, Val, ValMap};
use crate::types::vars::{
    lemma_move_unbinds, lemma_put_get, names_distinct, var_contract, var_get, var_index, var_move,
    var_put, var_set_contract, Vars,
};
use crate::prelude::apply::Prim;
use vstd::prelude::*;

pub mod pattern;
pub mod repr;

verus! {

pub struct CtxPrelude {
    pub read: FuncVal,
    pub move_: FuncVal,
    pub assign: FuncVal,
    pub contract: FuncVal,
    pub set_contract: FuncVal,
    pub is_null: FuncVal,
    pub is_const: FuncVal,
    pub ctx_new: FuncVal,
    pub ctx_repr: FuncVal,
    pub ctx_self: FuncVal,
}

/// The mode `=` takes its input with: the pattern literally, the value evaluated.
pub open spec fn assign_mode() -> SMode {
    SMode::Comp(
        default_prim(),
        Some(
            Box::new(
                SPairMode {
                    some: Seq::empty(),
                    first: prim_smode(SymbolTaskMode { symbol: SymbolMode::Literal, task: TaskPrimMode::Form }),
                    second: prim_smode(default_prim()),
                },
            ),
        ),
        None,
        None,
        None,
    )
}

pub open spec fn dyn_model(id: Seq<char>, access: CtxAccess, prim: Option<Prim>) -> SVal {
    prim_model(id, access, spec_default_mode(), spec_default_mode(), prim)
}

impl Default for CtxPrelude {
    fn default() -> (r: Self)
        ensures
            func_sval(r.read) == dyn_model("read"@, CtxAccess::Const, Some(Prim::Ctx(crate::prelude::ctx::CtxFn::Read))),
            func_sval(r.move_) == dyn_model("move"@, CtxAccess::Mut, Some(Prim::Ctx(crate::prelude::ctx::CtxFn::Move))),
            func_sval(r.assign) == prim_model("="@, CtxAccess::Mut, gen_mode(assign_mode()), spec_default_mode(), Some(Prim::Ctx(crate::prelude::ctx::CtxFn::Assign))),
            func_sval(r.contract) == dyn_model("contract"@, CtxAccess::Const, Some(Prim::Ctx(crate::prelude::ctx::CtxFn::Contract))),
            func_sval(r.set_contract) == dyn_model("set_contract"@, CtxAccess::Mut, Some(Prim::Ctx(crate::prelude::ctx::CtxFn::SetContract))),
            func_sval(r.is_null) == dyn_model("is_null"@, CtxAccess::Const, Some(Prim::Ctx(crate::prelude::ctx::CtxFn::IsNull))),
            func_sval(r.is_const) == dyn_model("is_constant"@, CtxAccess::Mut, Some(Prim::Ctx(crate::prelude::ctx::CtxFn::IsConst))),
            func_sval(r.ctx_new) == prim_model("context"@, CtxAccess::Free, gen_mode(ctx_parse_mode()), spec_default_mode(), Some(Prim::Ctx(crate::prelude::ctx::CtxFn::CtxNew))),
            func_sval(r.ctx_repr) == dyn_model("context.represent"@, CtxAccess::Free, Some(Prim::Ctx(crate::prelude::ctx::CtxFn::CtxRepr))),
            func_sval(r.ctx_self) == dyn_model("self"@, CtxAccess::Const, Some(Prim::Ctx(crate::prelude::ctx::CtxFn::CtxSelf))),
    {
        CtxPrelude {
            read: self::read(),
            move_: self::move_(),
            assign: self::assign(),
            contract: self::contract(),
            set_contract: self::set_contract(),
            is_null: self::is_null(),
            is_const: self::is_const(),
            ctx_new: self::ctx_new(),
            ctx_repr: self::ctx_repr(),
            ctx_self: self::ctx_self(),
        }
    }
}

impl Prelude for CtxPrelude {
    fn put(&self, ctx: &mut ValMap)
        ensures
            final(ctx).view() == dict_insert(dict_insert(dict_insert(dict_insert(dict_insert(
                dict_insert(dict_insert(dict_insert(dict_insert(dict_insert(old(ctx).view(),
                SVal::Symbol(self.read.id@), func_sval(self.read)),
                SVal::Symbol(self.move_.id@), func_sval(self.move_)),
                SVal::Symbol(self.assign.id@), func_sval(self.assign)),
                SVal::Symbol(self.contract.id@), func_sval(self.contract)),
                SVal::Symbol(self.set_contract.id@), func_sval(self.set_contract)),
                SVal::Symbol(self.is_null.id@), func_sval(self.is_null)),
                SVal::Symbol(self.is_const.id@), func_sval(self.is_const)),
                SVal::Symbol(self.ctx_new.id@), func_sval(self.ctx_new)),
                SVal::Symbol(self.ctx_repr.id@), func_sval(self.ctx_repr)),
                SVal::Symbol(self.ctx_self.id@), func_sval(self.ctx_self)),
    {
        put_func(ctx, &self.read);
        put_func(ctx, &self.move_);
        put_func(ctx, &self.assign);
        put_func(ctx, &self.contract);
        put_func(ctx, &self.set_contract);
        put_func(ctx, &self.is_null);
        put_func(ctx, &self.is_const);
        put_func(ctx, &self.ctx_new);
        put_func(ctx, &self.ctx_repr);
        put_func(ctx, &self.ctx_self);
    }
}

/// `read`: the value of the variable the input names.
pub fn read() -> (f: FuncVal)
    ensures
        func_sval(f) == dyn_model("read"@, CtxAccess::Const, Some(Prim::Ctx(crate::prelude::ctx::CtxFn::Read))),
{
    prim_func("read", CtxAccess::Const, default_dyn_mode(), Some(Prim::Ctx(crate::prelude::ctx::CtxFn::Read)))
}

/// `move`: takes the variable the input names out of the context.
pub fn move_() -> (f: FuncVal)
    ensures
        func_sval(f) == dyn_model("move"@, CtxAccess::Mut, Some(Prim::Ctx(crate::prelude::ctx::CtxFn::Move))),
{
    prim_func("move", CtxAccess::Mut, default_dyn_mode(), Some(Prim::Ctx(crate::prelude::ctx::CtxFn::Move)))
}

/// `=`: binds the names of a pattern to the parts of a value.
pub fn assign() -> (f: FuncVal)
    ensures
        func_sval(f) == prim_model("="@, CtxAccess::Mut, gen_mode(assign_mode()), spec_default_mode(), Some(Prim::Ctx(crate::prelude::ctx::CtxFn::Assign))),
{
    let literal = FuncMode::prim_mode(SymbolMode::Literal, TaskPrimMode::Form);
    let call = FuncMode::pair_mode(Vec::new(), literal, FuncMode::default_mode());
    proof {
        assert(crate::prelude::mode::view_mode_entries(Seq::<crate::prelude::mode::ModeEntry>::empty())
            =~= Seq::empty());
    }
    let m = FuncMode::from_modes(&call, &FuncMode::default_mode());
    prim_func("=", CtxAccess::Mut, dyn_mode(m.call), Some(Prim::Ctx(crate::prelude::ctx::CtxFn::Assign)))
}

/// `contract`: the contract of the variable the input names.
pub fn contract() -> (f: FuncVal)
    ensures
        func_sval(f) == dyn_model("contract"@, CtxAccess::Const, Some(Prim::Ctx(crate::prelude::ctx::CtxFn::Contract))),
{
    prim_func("contract", CtxAccess::Const, default_dyn_mode(), Some(Prim::Ctx(crate::prelude::ctx::CtxFn::Contract)))
}

/// `set_contract`: makes the contract of a variable stricter.
pub fn set_contract() -> (f: FuncVal)
    ensures
        func_sval(f) == dyn_model("set_contract"@, CtxAccess::Mut, Some(Prim::Ctx(crate::prelude::ctx::CtxFn::SetContract))),
{
    prim_func("set_contract", CtxAccess::Mut, default_dyn_mode(), Some(Prim::Ctx(crate::prelude::ctx::CtxFn::SetContract)))
}

/// `is_null`: whether no variable has the name.
pub fn is_null() -> (f: FuncVal)
    ensures
        func_sval(f) == dyn_model("is_null"@, CtxAccess::Const, Some(Prim::Ctx(crate::prelude::ctx::CtxFn::IsNull))),
{
    prim_func("is_null", CtxAccess::Const, default_dyn_mode(), Some(Prim::Ctx(crate::prelude::ctx::CtxFn::IsNull)))
}

/// `is_constant`: whether the context was given only to be read.
pub fn is_const() -> (f: FuncVal)
    ensures
        func_sval(f) == dyn_model("is_constant"@, CtxAccess::Mut, Some(Prim::Ctx(crate::prelude::ctx::CtxFn::IsConst))),
{
    prim_func("is_constant", CtxAccess::Mut, default_dyn_mode(), Some(Prim::Ctx(crate::prelude::ctx::CtxFn::IsConst)))
}

/// `context`: the context a map of `(contract, value)` writes.
pub fn ctx_new() -> (f: FuncVal)
    ensures
        func_sval(f) == prim_model("context"@, CtxAccess::Free, gen_mode(ctx_parse_mode()), spec_default_mode(), Some(Prim::Ctx(crate::prelude::ctx::CtxFn::CtxNew))),
{
    let m = parse_mode();
    prim_func("context", CtxAccess::Free, free_mode(m.call), Some(Prim::Ctx(crate::prelude::ctx::CtxFn::CtxNew)))
}

/// `context.represent`: the written form of a context.
pub fn ctx_repr() -> (f: FuncVal)
    ensures
        func_sval(f) == dyn_model("context.represent"@, CtxAccess::Free, Some(Prim::Ctx(crate::prelude::ctx::CtxFn::CtxRepr))),
{
    prim_func("context.represent", CtxAccess::Free, default_free_mode(), Some(Prim::Ctx(crate::prelude::ctx::CtxFn::CtxRepr)))
}

/// `self`: the context itself.
pub fn ctx_self() -> (f: FuncVal)
    ensures
        func_sval(f) == dyn_model("self"@, CtxAccess::Const, Some(Prim::Ctx(crate::prelude::ctx::CtxFn::CtxSelf))),
{
    prim_func("self", CtxAccess::Const, default_dyn_mode(), Some(Prim::Ctx(crate::prelude::ctx::CtxFn::CtxSelf)))
}

pub open spec fn ctx_read(ctx: SVal, input: SVal) -> SVal {
    match ctx {
        SVal::Ctx(vars) => match input {
            SVal::Symbol(s) => value_or_unit(var_get(vars, s)),
            _ => SVal::Unit,
        },
        _ => SVal::Unit,
    }
}

pub open spec fn ctx_move(ctx: SVal, input: SVal) -> (SVal, SVal) {
    match ctx {
        SVal::Ctx(vars) => match input {
            SVal::Symbol(s) => match var_move(vars, s) {
                Some((t, x)) => (SVal::Ctx(t), x),
                None => (ctx, SVal::Unit),
            },
            _ => (ctx, SVal::Unit),
        },
        _ => (ctx, SVal::Unit),
    }
}

/// `=` on `(pattern, value)`: binds when the value has the pattern's shape.
pub open spec fn ctx_assign(ctx: SVal, input: SVal) -> (SVal, SVal) {
    match input {
        SVal::Pair(p, v) => if pat_match(*p, *v) {
            pat_assign(*p, ctx, *v)
        } else {
            (ctx, SVal::Unit)
        },
        _ => (ctx, SVal::Unit),
    }
}

pub open spec fn ctx_contract(ctx: SVal, input: SVal) -> SVal {
    match ctx {
        SVal::Ctx(vars) => match input {
            SVal::Symbol(s) => match var_contract(vars, s) {
                Some(c) => SVal::Symbol(contract_word(c)),
                None => SVal::Unit,
            },
            _ => SVal::Unit,
        },
        _ => SVal::Unit,
    }
}

/// `set_contract` on `(name, contract)`; always gives unit.
pub open spec fn ctx_set_contract(ctx: SVal, input: SVal) -> (SVal, SVal) {
    match ctx {
        SVal::Ctx(vars) => match input {
            SVal::Pair(n, c) => match *n {
                SVal::Symbol(s) => match parse_contract_spec(*c) {
                    Some(contract) => match var_set_contract(vars, s, contract) {
                        Some(t) => (SVal::Ctx(t), SVal::Unit),
                        None => (ctx, SVal::Unit),
                    },
                    None => (ctx, SVal::Unit),
                },
                _ => (ctx, SVal::Unit),
            },
            _ => (ctx, SVal::Unit),
        },
        _ => (ctx, SVal::Unit),
    }
}

pub open spec fn ctx_is_null(ctx: SVal, input: SVal) -> SVal {
    match ctx {
        SVal::Ctx(vars) => match input {
            SVal::Symbol(s) => SVal::Bit(var_index(vars, s) < 0),
            _ => SVal::Unit,
        },
        _ => SVal::Unit,
    }
}

pub open spec fn ctx_new_spec(input: SVal) -> SVal {
    match parse_ctx_spec(input) {
        Some(vars) => SVal::Ctx(vars),
        None => SVal::Unit,
    }
}

pub open spec fn ctx_repr_spec(input: SVal) -> SVal {
    match input {
        SVal::Ctx(vars) => SVal::Dict(gen_vars(vars)),
        _ => SVal::Unit,
    }
}

pub fn fn_read(ctx: &Val, input: Val) -> (r: Val)
    ensures
        r@ == ctx_read(ctx@, input@),
{
    let Val::Ctx(c) = ctx else {
        return Val::Unit;
    };
    let Val::Symbol(s) = input else {
        return Val::Unit;
    };
    match c.get(&s) {
        Some(v) => v,
        None => Val::Unit,
    }
}

pub fn fn_move(ctx: &mut Val, input: Val) -> (r: Val)
    ensures
        (final(ctx)@, r@) == ctx_move(old(ctx)@, input@),
{
    let Val::Symbol(s) = input else {
        return Val::Unit;
    };
    match ctx {
        Val::Ctx(c) => match c.take(&s) {
            Some(v) => v,
            None => Val::Unit,
        },
        _ => Val::Unit,
    }
}

pub fn fn_assign(ctx: &mut Val, input: Val) -> (r: Val)
    ensures
        (final(ctx)@, r@) == ctx_assign(old(ctx)@, input@),
{
    let Val::Pair(p) = input else {
        return Val::Unit;
    };
    let p = *p;
    if pattern_match(&p.first, &p.second) {
        pattern_assign(&p.first, ctx, p.second)
    } else {
        Val::Unit
    }
}

pub fn fn_contract(ctx: &Val, input: Val) -> (r: Val)
    ensures
        r@ == ctx_contract(ctx@, input@),
{
    let Val::Ctx(c) = ctx else {
        return Val::Unit;
    };
    let Val::Symbol(s) = input else {
        return Val::Unit;
    };
    match c.contract_of(&s) {
        Some(contract) => generate_contract(contract),
        None => Val::Unit,
    }
}

pub fn fn_set_contract(ctx: &mut Val, input: Val) -> (r: Val)
    ensures
        (final(ctx)@, r@) == ctx_set_contract(old(ctx)@, input@),
{
    proof {
        reveal_with_fuel(crate::types::val::view_val, 2);
    }
    let Val::Pair(p) = input else {
        return Val::Unit;
    };
    let Val::Symbol(s) = &p.first else {
        return Val::Unit;
    };
    let Some(contract) = parse_contract(&p.second) else {
        return Val::Unit;
    };
    match ctx {
        Val::Ctx(c) => {
            let _ = c.set_contract(s, contract);
            Val::Unit
        },
        _ => Val::Unit,
    }
}

pub fn fn_is_null(ctx: &Val, input: Val) -> (r: Val)
    ensures
        r@ == ctx_is_null(ctx@, input@),
{
    let Val::Ctx(c) = ctx else {
        return Val::Unit;
    };
    let Val::Symbol(s) = input else {
        return Val::Unit;
    };
    Val::Bit(c.find(&s).is_none())
}

/// `is_constant` called with a context it may only read.
pub fn fn_is_const_const(_ctx: &Val, _input: Val) -> (r: Val)
    ensures
        r@ == SVal::Bit(true),
{
    Val::Bit(true)
}

/// `is_constant` called with a context it may change.
pub fn fn_is_const_mut(ctx: &mut Val, _input: Val) -> (r: Val)
    ensures
        r@ == SVal::Bit(false),
        *final(ctx) == *old(ctx),
{
    Val::Bit(false)
}

pub fn fn_ctx_new(input: Val) -> (r: Val)
    ensures
        r@ == ctx_new_spec(input@),
{
    match parse_ctx(&input) {
        Some(c) => Val::Ctx(c),
        None => Val::Unit,
    }
}

pub fn fn_ctx_repr(input: Val) -> (r: Val)
    ensures
        r@ == ctx_repr_spec(input@),
{
    let Val::Ctx(c) = input else {
        return Val::Unit;
    };
    generate_ctx(&c)
}

pub fn fn_ctx_self(ctx: &Val, _input: Val) -> (r: Val)
    ensures
        r@ == ctx@,
{
    copy_val(ctx)
}

/// What `=` binds to a name can be read back under that name, when the name's
/// contract allows the binding.
pub proof fn lemma_assign_then_read(vars: Vars, name: Seq<char>, v: SVal)
    requires
        !(name.len() > 0 && name[0] == '*'),
        var_put(vars, pattern_name(name), v, crate::types::val::Contract::Open) is Some,
    ensures
        ctx_read(
            ctx_assign(SVal::Ctx(vars), crate::types::val::sval_pair(SVal::Symbol(name), v)).0,
            SVal::Symbol(pattern_name(name)),
        ) == v,
{
    lemma_put_get(vars, pattern_name(name), v, crate::types::val::Contract::Open);
}

/// A context written down and read back is the same context.
pub proof fn lemma_new_of_repr(vars: Vars)
    ensures
        ctx_new_spec(ctx_repr_spec(SVal::Ctx(vars))) == SVal::Ctx(vars),
{
    lemma_ctx_roundtrip(vars);
}


/// After `move` takes a variable out of a context whose names are bound once,
/// `is_null` holds of its name.
pub proof fn lemma_move_then_is_null(vars: Vars, name: Seq<char>)
    requires
        names_distinct(vars),
        var_move(vars, name) is Some,
    ensures
        ctx_is_null(ctx_move(SVal::Ctx(vars), SVal::Symbol(name)).0, SVal::Symbol(name)) == SVal::Bit(true),
{
    lemma_move_unbinds(vars, name);
}


/// The built-in functions of this module, by what they compute.
#[derive(Clone, Copy, PartialEq, Eq, Structural)]
pub enum CtxFn {
    Read,
    Move,
    Assign,
    Contract,
    SetContract,
    IsNull,
    IsConst,
    CtxNew,
    CtxRepr,
    CtxSelf,
}

/// What calling one of these functions does: the context after the call, and the result.
pub open spec fn run_spec(f: CtxFn, ctx: SVal, input: SVal) -> (SVal, SVal) {
    match f {
        CtxFn::Read => (ctx, ctx_read(ctx, input)),
        CtxFn::Move => ctx_move(ctx, input),
        CtxFn::Assign => ctx_assign(ctx, input),
        CtxFn::Contract => (ctx, ctx_contract(ctx, input)),
        CtxFn::SetContract => ctx_set_contract(ctx, input),
        CtxFn::IsNull => (ctx, ctx_is_null(ctx, input)),
        CtxFn::IsConst => (ctx, SVal::Bit(false)),
        CtxFn::CtxNew => (ctx, ctx_new_spec(input)),
        CtxFn::CtxRepr => (ctx, ctx_repr_spec(input)),
        CtxFn::CtxSelf => (ctx, ctx),
    }
}

/// Calls one of these functions on a context it may change.
pub fn run(f: CtxFn, ctx: &mut Val, input: Val) -> (r: Val)
    ensures
        (final(ctx)@, r@) == run_spec(f, old(ctx)@, input@),
{
    match f {
        CtxFn::Read => fn_read(&*ctx, input),
        CtxFn::Move => fn_move(ctx, input),
        CtxFn::Assign => fn_assign(ctx, input),
        CtxFn::Contract => fn_contract(&*ctx, input),
        CtxFn::SetContract => fn_set_contract(ctx, input),
        CtxFn::IsNull => fn_is_null(&*ctx, input),
        CtxFn::IsConst => fn_is_const_mut(ctx, input),
        CtxFn::CtxNew => fn_ctx_new(input),
        CtxFn::CtxRepr => fn_ctx_repr(input),
        CtxFn::CtxSelf => fn_ctx_self(&*ctx, input),
    }
}

} // verus!
