//! Abstract records: a function.
use crate::prelude::setup::{default_dyn_mode, default_free_mode};
use crate::prelude::{func_sval, prim_func, prim_model, put_func, spec_default_mode, Prelude};
use crate::types::dict::dict_insert;
use crate::types::val::{CtxAccess, FuncVal, SVal, Val, ValMap};
use crate::types::record::{node_from_pair, node_get, node_get_field, node_new, node_set, node_set_field, wrap_get, wrap_get_field, wrap_set, wrap_set_field};
use crate::types::val::{NodeKind, WrapKind};
use crate::prelude::apply::Prim;
use vstd::prelude::*;

verus! {

pub struct AbstractPrelude {
    pub new: FuncVal,
    pub get_function: FuncVal,
    pub set_function: FuncVal,
}

impl Default for AbstractPrelude {
    fn default() -> (r: Self)
        ensures
            func_sval(r.new) == prim_model("abstract"@, CtxAccess::Free, spec_default_mode(), spec_default_mode(), Some(Prim::Abstract(crate::prelude::abstract1::AbstractFn::New))),
            func_sval(r.get_function) == prim_model("abstract.function"@, CtxAccess::Const, spec_default_mode(), spec_default_mode(), Some(Prim::Abstract(crate::prelude::abstract1::AbstractFn::GetFunction))),
            func_sval(r.set_function) == prim_model("abstract.set_function"@, CtxAccess::Mut, spec_default_mode(), spec_default_mode(), Some(Prim::Abstract(crate::prelude::abstract1::AbstractFn::SetFunction))),
    {
        AbstractPrelude {
            new: self::new(),
            get_function: self::get_function(),
            set_function: self::set_function(),
        }
    }
}

impl Prelude for AbstractPrelude {
    fn put(&self, ctx: &mut ValMap)
        ensures
            final(ctx).view() == dict_insert(dict_insert(dict_insert(old(ctx).view(), SVal::Symbol(self.new.id@), func_sval(self.new)), SVal::Symbol(self.get_function.id@), func_sval(self.get_function)), SVal::Symbol(self.set_function.id@), func_sval(self.set_function)),
    {
        put_func(ctx, &self.new);
        put_func(ctx, &self.get_function);
        put_func(ctx, &self.set_function);
    }
}

/// `abstract`: the abstract record holding a value.
pub fn new() -> (f: FuncVal)
    ensures
        func_sval(f) == prim_model("abstract"@, CtxAccess::Free, spec_default_mode(), spec_default_mode(), Some(Prim::Abstract(crate::prelude::abstract1::AbstractFn::New))),
{
    prim_func("abstract", CtxAccess::Free, default_free_mode(), Some(Prim::Abstract(crate::prelude::abstract1::AbstractFn::New)))
}

/// `abstract.function`: a copy of the function of the context record.
pub fn get_function() -> (f: FuncVal)
    ensures
        func_sval(f) == prim_model("abstract.function"@, CtxAccess::Const, spec_default_mode(), spec_default_mode(), Some(Prim::Abstract(crate::prelude::abstract1::AbstractFn::GetFunction))),
{
    prim_func("abstract.function", CtxAccess::Const, default_dyn_mode(), Some(Prim::Abstract(crate::prelude::abstract1::AbstractFn::GetFunction)))
}

/// `abstract.set_function`: replaces the function; gives back the old one.
pub fn set_function() -> (f: FuncVal)
    ensures
        func_sval(f) == prim_model("abstract.set_function"@, CtxAccess::Mut, spec_default_mode(), spec_default_mode(), Some(Prim::Abstract(crate::prelude::abstract1::AbstractFn::SetFunction))),
{
    prim_func("abstract.set_function", CtxAccess::Mut, default_dyn_mode(), Some(Prim::Abstract(crate::prelude::abstract1::AbstractFn::SetFunction)))
}

/// The record holding the input.
pub fn fn_new(input: Val) -> (r: Val)
    ensures
        r@ == SVal::Wrap(WrapKind::Abstract, Box::new(input@)),
{
    Val::Wrap(WrapKind::Abstract, Box::new(input))
}

pub fn fn_get_function(ctx: &Val, _input: Val) -> (r: Val)
    ensures
        r@ == wrap_get(WrapKind::Abstract, ctx@),
{
    wrap_get_field(WrapKind::Abstract, ctx)
}

pub fn fn_set_function(ctx: &mut Val, input: Val) -> (r: Val)
    ensures
        (final(ctx)@, r@) == wrap_set(WrapKind::Abstract, old(ctx)@, input@),
{
    wrap_set_field(WrapKind::Abstract, ctx, input)
}


/// The built-in functions of this module, by what they compute.
#[derive(Clone, Copy, PartialEq, Eq, Structural)]
pub enum AbstractFn {
    New,
    GetFunction,
    SetFunction,
}

/// What calling one of these functions does: the context after the call, and the result.
pub open spec fn run_spec(f: AbstractFn, ctx: SVal, input: SVal) -> (SVal, SVal) {
    match f {
        AbstractFn::New => (ctx, SVal::Wrap(WrapKind::Abstract, Box::new(input))),
        AbstractFn::GetFunction => (ctx, wrap_get(WrapKind::Abstract, ctx)),
        AbstractFn::SetFunction => wrap_set(WrapKind::Abstract, ctx, input),
    }
}

/// Calls one of these functions on a context it may change.
pub fn run(f: AbstractFn, ctx: &mut Val, input: Val) -> (r: Val)
    ensures
        (final(ctx)@, r@) == run_spec(f, old(ctx)@, input@),
{
    match f {
        AbstractFn::New => fn_new(input),
        AbstractFn::GetFunction => fn_get_function(&*ctx, input),
        AbstractFn::SetFunction => fn_set_function(ctx, input),
    }
}

} // verus!
