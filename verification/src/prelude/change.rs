//! Change records: a value before and after.
use crate::prelude::setup::{default_dyn_mode, default_free_mode};
use crate::prelude::{func_sval, prim_func, prim_model, put_func, spec_default_mode, Prelude};
use crate::types::dict::dict_insert;
use crate::types::val::{CtxAccess, FuncVal, SVal, Val, ValMap};
use crate::types::record::{node_from_pair, node_get, node_get_field, node_new, node_set, node_set_field, wrap_get, wrap_get_field, wrap_set, wrap_set_field};
use crate::types::val::{NodeKind, WrapKind};
use crate::prelude::apply::Prim;
use vstd::prelude::*;

verus! {

pub struct ChangePrelude {
    pub new: FuncVal,
    pub get_from: FuncVal,
    pub set_from: FuncVal,
    pub get_to: FuncVal,
    pub set_to: FuncVal,
}

impl Default for ChangePrelude {
    fn default() -> (r: Self)
        ensures
            func_sval(r.new) == prim_model("change"@, CtxAccess::Free, spec_default_mode(), spec_default_mode(), Some(Prim::Change(crate::prelude::change::ChangeFn::New))),
            func_sval(r.get_from) == prim_model("change.from"@, CtxAccess::Const, spec_default_mode(), spec_default_mode(), Some(Prim::Change(crate::prelude::change::ChangeFn::GetFrom))),
            func_sval(r.set_from) == prim_model("change.set_from"@, CtxAccess::Mut, spec_default_mode(), spec_default_mode(), Some(Prim::Change(crate::prelude::change::ChangeFn::SetFrom))),
            func_sval(r.get_to) == prim_model("change.to"@, CtxAccess::Const, spec_default_mode(), spec_default_mode(), Some(Prim::Change(crate::prelude::change::ChangeFn::GetTo))),
            func_sval(r.set_to) == prim_model("change.set_to"@, CtxAccess::Mut, spec_default_mode(), spec_default_mode(), Some(Prim::Change(crate::prelude::change::ChangeFn::SetTo))),
    {
        ChangePrelude {
            new: self::new(),
            get_from: self::get_from(),
            set_from: self::set_from(),
            get_to: self::get_to(),
            set_to: self::set_to(),
        }
    }
}

impl Prelude for ChangePrelude {
    fn put(&self, ctx: &mut ValMap)
        ensures
            final(ctx).view() == dict_insert(dict_insert(dict_insert(dict_insert(dict_insert(old(ctx).view(), SVal::Symbol(self.new.id@), func_sval(self.new)), SVal::Symbol(self.get_from.id@), func_sval(self.get_from)), SVal::Symbol(self.set_from.id@), func_sval(self.set_from)), SVal::Symbol(self.get_to.id@), func_sval(self.get_to)), SVal::Symbol(self.set_to.id@), func_sval(self.set_to)),
    {
        put_func(ctx, &self.new);
        put_func(ctx, &self.get_from);
        put_func(ctx, &self.set_from);
        put_func(ctx, &self.get_to);
        put_func(ctx, &self.set_to);
    }
}

/// `change`: the change record made of a pair.
pub fn new() -> (f: FuncVal)
    ensures
        func_sval(f) == prim_model("change"@, CtxAccess::Free, spec_default_mode(), spec_default_mode(), Some(Prim::Change(crate::prelude::change::ChangeFn::New))),
{
    prim_func("change", CtxAccess::Free, default_free_mode(), Some(Prim::Change(crate::prelude::change::ChangeFn::New)))
}

/// `change.from`: a copy of the from of the context record.
pub fn get_from() -> (f: FuncVal)
    ensures
        func_sval(f) == prim_model("change.from"@, CtxAccess::Const, spec_default_mode(), spec_default_mode(), Some(Prim::Change(crate::prelude::change::ChangeFn::GetFrom))),
{
    prim_func("change.from", CtxAccess::Const, default_dyn_mode(), Some(Prim::Change(crate::prelude::change::ChangeFn::GetFrom)))
}

/// `change.set_from`: replaces the from; gives back the old one.
pub fn set_from() -> (f: FuncVal)
    ensures
        func_sval(f) == prim_model("change.set_from"@, CtxAccess::Mut, spec_default_mode(), spec_default_mode(), Some(Prim::Change(crate::prelude::change::ChangeFn::SetFrom))),
{
    prim_func("change.set_from", CtxAccess::Mut, default_dyn_mode(), Some(Prim::Change(crate::prelude::change::ChangeFn::SetFrom)))
}

/// `change.to`: a copy of the to of the context record.
pub fn get_to() -> (f: FuncVal)
    ensures
        func_sval(f) == prim_model("change.to"@, CtxAccess::Const, spec_default_mode(), spec_default_mode(), Some(Prim::Change(crate::prelude::change::ChangeFn::GetTo))),
{
    prim_func("change.to", CtxAccess::Const, default_dyn_mode(), Some(Prim::Change(crate::prelude::change::ChangeFn::GetTo)))
}

/// `change.set_to`: replaces the to; gives back the old one.
pub fn set_to() -> (f: FuncVal)
    ensures
        func_sval(f) == prim_model("change.set_to"@, CtxAccess::Mut, spec_default_mode(), spec_default_mode(), Some(Prim::Change(crate::prelude::change::ChangeFn::SetTo))),
{
    prim_func("change.set_to", CtxAccess::Mut, default_dyn_mode(), Some(Prim::Change(crate::prelude::change::ChangeFn::SetTo)))
}

/// The record made of a pair.
pub fn fn_new(input: Val) -> (r: Val)
    ensures
        r@ == node_new(NodeKind::Change, input@),
{
    node_from_pair(NodeKind::Change, input)
}

pub fn fn_get_from(ctx: &Val, _input: Val) -> (r: Val)
    ensures
        r@ == node_get(NodeKind::Change, true, ctx@),
{
    node_get_field(NodeKind::Change, true, ctx)
}

pub fn fn_set_from(ctx: &mut Val, input: Val) -> (r: Val)
    ensures
        (final(ctx)@, r@) == node_set(NodeKind::Change, true, old(ctx)@, input@),
{
    node_set_field(NodeKind::Change, true, ctx, input)
}

pub fn fn_get_to(ctx: &Val, _input: Val) -> (r: Val)
    ensures
        r@ == node_get(NodeKind::Change, false, ctx@),
{
    node_get_field(NodeKind::Change, false, ctx)
}

pub fn fn_set_to(ctx: &mut Val, input: Val) -> (r: Val)
    ensures
        (final(ctx)@, r@) == node_set(NodeKind::Change, false, old(ctx)@, input@),
{
    node_set_field(NodeKind::Change, false, ctx, input)
}


/// The built-in functions of this module, by what they compute.
#[derive(Clone, Copy, PartialEq, Eq, Structural)]
pub enum ChangeFn {
    New,
    GetFrom,
    SetFrom,
    GetTo,
    SetTo,
}

/// What calling one of these functions does: the context after the call, and the result.
pub open spec fn run_spec(f: ChangeFn, ctx: SVal, input: SVal) -> (SVal, SVal) {
    match f {
        ChangeFn::New => (ctx, node_new(NodeKind::Change, input)),
        ChangeFn::GetFrom => (ctx, node_get(NodeKind::Change, true, ctx)),
        ChangeFn::SetFrom => node_set(NodeKind::Change, true, ctx, input),
        ChangeFn::GetTo => (ctx, node_get(NodeKind::Change, false, ctx)),
        ChangeFn::SetTo => node_set(NodeKind::Change, false, ctx, input),
    }
}

/// Calls one of these functions on a context it may change.
pub fn run(f: ChangeFn, ctx: &mut Val, input: Val) -> (r: Val)
    ensures
        (final(ctx)@, r@) == run_spec(f, old(ctx)@, input@),
{
    match f {
        ChangeFn::New => fn_new(input),
        ChangeFn::GetFrom => fn_get_from(&*ctx, input),
        ChangeFn::SetFrom => fn_set_from(ctx, input),
        ChangeFn::GetTo => fn_get_to(&*ctx, input),
        ChangeFn::SetTo => fn_set_to(ctx, input),
    }
}

} // verus!
