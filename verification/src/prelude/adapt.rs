//! Adapt records: a specification and a value.
use crate::prelude::setup::{default_dyn_mode, default_free_mode};
use crate::prelude::{func_sval, prim_func, prim_model, put_func, spec_default_mode, Prelude};
use crate::types::dict::dict_insert;
use crate::types::val::{CtxAccess, FuncVal, SVal, Val, ValMap};
use crate::types::record::{node_from_pair, node_get, node_get_field, node_new, node_set, node_set_field, wrap_get, wrap_get_field, wrap_set, wrap_set_field};
use crate::types::val::{NodeKind, WrapKind};
use crate::prelude::apply::Prim;
use vstd::prelude::*;

verus! {

pub struct AdaptPrelude {
    pub new: FuncVal,
    pub apply: FuncVal,
    pub get_spec: FuncVal,
    pub set_spec: FuncVal,
    pub get_value: FuncVal,
    pub set_value: FuncVal,
}

impl Default for AdaptPrelude {
    fn default() -> (r: Self)
        ensures
            func_sval(r.new) == prim_model("adapt"@, CtxAccess::Free, spec_default_mode(), spec_default_mode(), Some(Prim::Adapt(crate::prelude::adapt::AdaptFn::New))),
            func_sval(r.apply) == prim_model("adapt.apply"@, CtxAccess::Mut, spec_default_mode(), spec_default_mode(), None),
            func_sval(r.get_spec) == prim_model("adapt.spec"@, CtxAccess::Const, spec_default_mode(), spec_default_mode(), Some(Prim::Adapt(crate::prelude::adapt::AdaptFn::GetSpec))),
            func_sval(r.set_spec) == prim_model("adapt.set_spec"@, CtxAccess::Mut, spec_default_mode(), spec_default_mode(), Some(Prim::Adapt(crate::prelude::adapt::AdaptFn::SetSpec))),
            func_sval(r.get_value) == prim_model("adapt.value"@, CtxAccess::Const, spec_default_mode(), spec_default_mode(), Some(Prim::Adapt(crate::prelude::adapt::AdaptFn::GetValue))),
            func_sval(r.set_value) == prim_model("adapt.set_value"@, CtxAccess::Mut, spec_default_mode(), spec_default_mode(), Some(Prim::Adapt(crate::prelude::adapt::AdaptFn::SetValue))),
    {
        AdaptPrelude {
            new: self::new(),
            apply: self::apply(),
            get_spec: self::get_spec(),
            set_spec: self::set_spec(),
            get_value: self::get_value(),
            set_value: self::set_value(),
        }
    }
}

impl Prelude for AdaptPrelude {
    fn put(&self, ctx: &mut ValMap)
        ensures
            final(ctx).view() == dict_insert(dict_insert(dict_insert(dict_insert(dict_insert(dict_insert(old(ctx).view(), SVal::Symbol(self.new.id@), func_sval(self.new)), SVal::Symbol(self.apply.id@), func_sval(self.apply)), SVal::Symbol(self.get_spec.id@), func_sval(self.get_spec)), SVal::Symbol(self.set_spec.id@), func_sval(self.set_spec)), SVal::Symbol(self.get_value.id@), func_sval(self.get_value)), SVal::Symbol(self.set_value.id@), func_sval(self.set_value)),
    {
        put_func(ctx, &self.new);
        put_func(ctx, &self.apply);
        put_func(ctx, &self.get_spec);
        put_func(ctx, &self.set_spec);
        put_func(ctx, &self.get_value);
        put_func(ctx, &self.set_value);
    }
}

/// `adapt`: the adapt record made of a pair.
pub fn new() -> (f: FuncVal)
    ensures
        func_sval(f) == prim_model("adapt"@, CtxAccess::Free, spec_default_mode(), spec_default_mode(), Some(Prim::Adapt(crate::prelude::adapt::AdaptFn::New))),
{
    prim_func("adapt", CtxAccess::Free, default_free_mode(), Some(Prim::Adapt(crate::prelude::adapt::AdaptFn::New)))
}

/// `adapt.apply`: applies the adapt record; the evaluation it needs lies outside this library.
pub fn apply() -> (f: FuncVal)
    ensures
        func_sval(f) == prim_model("adapt.apply"@, CtxAccess::Mut, spec_default_mode(), spec_default_mode(), None),
{
    prim_func("adapt.apply", CtxAccess::Mut, default_dyn_mode(), None)
}

/// `adapt.spec`: a copy of the spec of the context record.
pub fn get_spec() -> (f: FuncVal)
    ensures
        func_sval(f) == prim_model("adapt.spec"@, CtxAccess::Const, spec_default_mode(), spec_default_mode(), Some(Prim::Adapt(crate::prelude::adapt::AdaptFn::GetSpec))),
{
    prim_func("adapt.spec", CtxAccess::Const, default_dyn_mode(), Some(Prim::Adapt(crate::prelude::adapt::AdaptFn::GetSpec)))
}

/// `adapt.set_spec`: replaces the spec; gives back the old one.
pub fn set_spec() -> (f: FuncVal)
    ensures
        func_sval(f) == prim_model("adapt.set_spec"@, CtxAccess::Mut, spec_default_mode(), spec_default_mode(), Some(Prim::Adapt(crate::prelude::adapt::AdaptFn::SetSpec))),
{
    prim_func("adapt.set_spec", CtxAccess::Mut, default_dyn_mode(), Some(Prim::Adapt(crate::prelude::adapt::AdaptFn::SetSpec)))
}

/// `adapt.value`: a copy of the value of the context record.
pub fn get_value() -> (f: FuncVal)
    ensures
        func_sval(f) == prim_model("adapt.value"@, CtxAccess::Const, spec_default_mode(), spec_default_mode(), Some(Prim::Adapt(crate::prelude::adapt::AdaptFn::GetValue))),
{
    prim_func("adapt.value", CtxAccess::Const, default_dyn_mode(), Some(Prim::Adapt(crate::prelude::adapt::AdaptFn::GetValue)))
}

/// `adapt.set_value`: replaces the value; gives back the old one.
pub fn set_value() -> (f: FuncVal)
    ensures
        func_sval(f) == prim_model("adapt.set_value"@, CtxAccess::Mut, spec_default_mode(), spec_default_mode(), Some(Prim::Adapt(crate::prelude::adapt::AdaptFn::SetValue))),
{
    prim_func("adapt.set_value", CtxAccess::Mut, default_dyn_mode(), Some(Prim::Adapt(crate::prelude::adapt::AdaptFn::SetValue)))
}

/// The record made of a pair.
pub fn fn_new(input: Val) -> (r: Val)
    ensures
        r@ == node_new(NodeKind::Adapt, input@),
{
    node_from_pair(NodeKind::Adapt, input)
}

pub fn fn_get_spec(ctx: &Val, _input: Val) -> (r: Val)
    ensures
        r@ == node_get(NodeKind::Adapt, true, ctx@),
{
    node_get_field(NodeKind::Adapt, true, ctx)
}

pub fn fn_set_spec(ctx: &mut Val, input: Val) -> (r: Val)
    ensures
        (final(ctx)@, r@) == node_set(NodeKind::Adapt, true, old(ctx)@, input@),
{
    node_set_field(NodeKind::Adapt, true, ctx, input)
}

pub fn fn_get_value(ctx: &Val, _input: Val) -> (r: Val)
    ensures
        r@ == node_get(NodeKind::Adapt, false, ctx@),
{
    node_get_field(NodeKind::Adapt, false, ctx)
}

pub fn fn_set_value(ctx: &mut Val, input: Val) -> (r: Val)
    ensures
        (final(ctx)@, r@) == node_set(NodeKind::Adapt, false, old(ctx)@, input@),
{
    node_set_field(NodeKind::Adapt, false, ctx, input)
}


/// The built-in functions of this module, by what they compute.
#[derive(Clone, Copy, PartialEq, Eq, Structural)]
pub enum AdaptFn {
    New,
    GetSpec,
    SetSpec,
    GetValue,
    SetValue,
}

/// What calling one of these functions does: the context after the call, and the result.
pub open spec fn run_spec(f: AdaptFn, ctx: SVal, input: SVal) -> (SVal, SVal) {
    match f {
        AdaptFn::New => (ctx, node_new(NodeKind::Adapt, input)),
        AdaptFn::GetSpec => (ctx, node_get(NodeKind::Adapt, true, ctx)),
        AdaptFn::SetSpec => node_set(NodeKind::Adapt, true, ctx, input),
        AdaptFn::GetValue => (ctx, node_get(NodeKind::Adapt, false, ctx)),
        AdaptFn::SetValue => node_set(NodeKind::Adapt, false, ctx, input),
    }
}

/// Calls one of these functions on a context it may change.
pub fn run(f: AdaptFn, ctx: &mut Val, input: Val) -> (r: Val)
    ensures
        (final(ctx)@, r@) == run_spec(f, old(ctx)@, input@),
{
    match f {
        AdaptFn::New => fn_new(input),
        AdaptFn::GetSpec => fn_get_spec(&*ctx, input),
        AdaptFn::SetSpec => fn_set_spec(ctx, input),
        AdaptFn::GetValue => fn_get_value(&*ctx, input),
        AdaptFn::SetValue => fn_set_value(ctx, input),
    }
}

} // verus!
