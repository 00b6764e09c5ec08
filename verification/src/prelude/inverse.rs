//! Inverse records: a function.
use crate::prelude::setup::{default_dyn_mode, default_free_mode};
use crate::prelude::{func_sval, prim_func, prim_model, put_func, spec_default_mode, Prelude};
use crate::types::dict::dict_insert;
use crate::types::val::{CtxAccess, FuncVal, SVal, Val, ValMap};
use crate::types::record::{node_from_pair, node_get, node_get_field, node_new, node_set, node_set_field, wrap_get, wrap_get_field, wrap_set, wrap_set_field};
use crate::types::val::{NodeKind, WrapKind};
use crate::prelude::apply::Prim;
use vstd::prelude::*;

verus! {

pub struct InversePrelude {
    pub new: FuncVal,
    pub get_func: FuncVal,
    pub set_func: FuncVal,
}

impl Default for InversePrelude {
    fn default() -> (r: Self)
        ensures
            func_sval(r.new) == prim_model("inverse"@, CtxAccess::Free, spec_default_mode(), spec_default_mode(), Some(Prim::Inverse(crate::prelude::inverse::InverseFn::New))),
            func_sval(r.get_func) == prim_model("inverse.function"@, CtxAccess::Const, spec_default_mode(), spec_default_mode(), Some(Prim::Inverse(crate::prelude::inverse::InverseFn::GetFunc))),
            func_sval(r.set_func) == prim_model("inverse.set_function"@, CtxAccess::Mut, spec_default_mode(), spec_default_mode(), Some(Prim::Inverse(crate::prelude::inverse::InverseFn::SetFunc))),
    {
        InversePrelude {
            new: self::new(),
            get_func: self::get_func(),
            set_func: self::set_func(),
        }
    }
}

impl Prelude for InversePrelude {
    fn put(&self, ctx: &mut ValMap)
        ensures
            final(ctx).view() == dict_insert(dict_insert(dict_insert(old(ctx).view(), SVal::Symbol(self.new.id@), func_sval(self.new)), SVal::Symbol(self.get_func.id@), func_sval(self.get_func)), SVal::Symbol(self.set_func.id@), func_sval(self.set_func)),
    {
        put_func(ctx, &self.new);
        put_func(ctx, &self.get_func);
        put_func(ctx, &self.set_func);
    }
}

/// `inverse`: the inverse record holding a value.
pub fn new() -> (f: FuncVal)
    ensures
        func_sval(f) == prim_model("inverse"@, CtxAccess::Free, spec_default_mode(), spec_default_mode(), Some(Prim::Inverse(crate::prelude::inverse::InverseFn::New))),
{
    prim_func("inverse", CtxAccess::Free, default_free_mode(), Some(Prim::Inverse(crate::prelude::inverse::InverseFn::New)))
}

/// `inverse.function`: a copy of the function of the context record.
pub fn get_func() -> (f: FuncVal)
    ensures
        func_sval(f) == prim_model("inverse.function"@, CtxAccess::Const, spec_default_mode(), spec_default_mode(), Some(Prim::Inverse(crate::prelude::inverse::InverseFn::GetFunc))),
{
    prim_func("inverse.function", CtxAccess::Const, default_dyn_mode(), Some(Prim::Inverse(crate::prelude::inverse::InverseFn::GetFunc)))
}

/// `inverse.set_function`: replaces the function; gives back the old one.
pub fn set_func() -> (f: FuncVal)
    ensures
        func_sval(f) == prim_model("inverse.set_function"@, CtxAccess::Mut, spec_default_mode(), spec_default_mode(), Some(Prim::Inverse(crate::prelude::inverse::InverseFn::SetFunc))),
{
    prim_func("inverse.set_function", CtxAccess::Mut, default_dyn_mode(), Some(Prim::Inverse(crate::prelude::inverse::InverseFn::SetFunc)))
}

/// The record holding the input.
pub fn fn_new(input: Val) -> (r: Val)
    ensures
        r@ == SVal::Wrap(WrapKind::Inverse, Box::new(input@)),
{
    Val::Wrap(WrapKind::Inverse, Box::new(input))
}

pub fn fn_get_func(ctx: &Val, _input: Val) -> (r: Val)
    ensures
        r@ == wrap_get(WrapKind::Inverse, ctx@),
{
    wrap_get_field(WrapKind::Inverse, ctx)
}

pub fn fn_set_func(ctx: &mut Val, input: Val) -> (r: Val)
    ensures
        (final(ctx)@, r@) == wrap_set(WrapKind::Inverse, old(ctx)@, input@),
{
    wrap_set_field(WrapKind::Inverse, ctx, input)
}


/// The built-in functions of this module, by what they compute.
#[derive(Clone, Copy, PartialEq, Eq, Structural)]
pub enum InverseFn {
    New,
    GetFunc,
    SetFunc,
}

/// What calling one of these functions does: the context after the call, and the result.
pub open spec fn run_spec(f: InverseFn, ctx: SVal, input: SVal) -> (SVal, SVal) {
    match f {
        InverseFn::New => (ctx, SVal::Wrap(WrapKind::Inverse, Box::new(input))),
        InverseFn::GetFunc => (ctx, wrap_get(WrapKind::Inverse, ctx)),
        InverseFn::SetFunc => wrap_set(WrapKind::Inverse, ctx, input),
    }
}

/// Calls one of these functions on a context it may change.
pub fn run(f: InverseFn, ctx: &mut Val, input: Val) -> (r: Val)
    ensures
        (final(ctx)@, r@) == run_spec(f, old(ctx)@, input@),
{
    match f {
        InverseFn::New => fn_new(input),
        InverseFn::GetFunc => fn_get_func(&*ctx, input),
        InverseFn::SetFunc => fn_set_func(ctx, input),
    }
}

} // verus!
