//! Annotate records: a note and a value.
use crate::prelude::setup::{default_dyn_mode, default_free_mode};
use crate::prelude::{func_sval, prim_func, prim_model, put_func, spec_default_mode, Prelude};
use crate::types::dict::dict_insert;
use crate::types::val::{CtxAccess, FuncVal, SVal, Val, ValMap};
use crate::types::record::{node_from_pair, node_get, node_get_field, node_new, node_set, node_set_field, wrap_get, wrap_get_field, wrap_set, wrap_set_field};
use crate::types::val::{NodeKind, WrapKind};
use crate::prelude::apply::Prim;
use vstd::prelude::*;

verus! {

pub struct AnnotatePrelude {
    pub new: FuncVal,
    pub apply: FuncVal,
    pub get_note: FuncVal,
    pub set_note: FuncVal,
    pub get_value: FuncVal,
    pub set_value: FuncVal,
}

impl Default for AnnotatePrelude {
    fn default() -> (r: Self)
        ensures
            func_sval(r.new) == prim_model("annotate"@, CtxAccess::Free, spec_default_mode(), spec_default_mode(), Some(Prim::Annotate(crate::prelude::annotate::AnnotateFn::New))),
            func_sval(r.apply) == prim_model("annotate.apply"@, CtxAccess::Mut, spec_default_mode(), spec_default_mode(), None),
            func_sval(r.get_note) == prim_model("annotate.note"@, CtxAccess::Const, spec_default_mode(), spec_default_mode(), Some(Prim::Annotate(crate::prelude::annotate::AnnotateFn::GetNote))),
            func_sval(r.set_note) == prim_model("annotate.set_note"@, CtxAccess::Mut, spec_default_mode(), spec_default_mode(), Some(Prim::Annotate(crate::prelude::annotate::AnnotateFn::SetNote))),
            func_sval(r.get_value) == prim_model("annotate.value"@, CtxAccess::Const, spec_default_mode(), spec_default_mode(), Some(Prim::Annotate(crate::prelude::annotate::AnnotateFn::GetValue))),
            func_sval(r.set_value) == prim_model("annotate.set_value"@, CtxAccess::Mut, spec_default_mode(), spec_default_mode(), Some(Prim::Annotate(crate::prelude::annotate::AnnotateFn::SetValue))),
    {
        AnnotatePrelude {
            new: self::new(),
            apply: self::apply(),
            get_note: self::get_note(),
            set_note: self::set_note(),
            get_value: self::get_value(),
            set_value: self::set_value(),
        }
    }
}

impl Prelude for AnnotatePrelude {
    fn put(&self, ctx: &mut ValMap)
        ensures
            final(ctx).view() == dict_insert(dict_insert(dict_insert(dict_insert(dict_insert(dict_insert(old(ctx).view(), SVal::Symbol(self.new.id@), func_sval(self.new)), SVal::Symbol(self.apply.id@), func_sval(self.apply)), SVal::Symbol(self.get_note.id@), func_sval(self.get_note)), SVal::Symbol(self.set_note.id@), func_sval(self.set_note)), SVal::Symbol(self.get_value.id@), func_sval(self.get_value)), SVal::Symbol(self.set_value.id@), func_sval(self.set_value)),
    {
        put_func(ctx, &self.new);
        put_func(ctx, &self.apply);
        put_func(ctx, &self.get_note);
        put_func(ctx, &self.set_note);
        put_func(ctx, &self.get_value);
        put_func(ctx, &self.set_value);
    }
}

/// `annotate`: the annotate record made of a pair.
pub fn new() -> (f: FuncVal)
    ensures
        func_sval(f) == prim_model("annotate"@, CtxAccess::Free, spec_default_mode(), spec_default_mode(), Some(Prim::Annotate(crate::prelude::annotate::AnnotateFn::New))),
{
    prim_func("annotate", CtxAccess::Free, default_free_mode(), Some(Prim::Annotate(crate::prelude::annotate::AnnotateFn::New)))
}

/// `annotate.apply`: applies the annotate record; the evaluation it needs lies outside this library.
pub fn apply() -> (f: FuncVal)
    ensures
        func_sval(f) == prim_model("annotate.apply"@, CtxAccess::Mut, spec_default_mode(), spec_default_mode(), None),
{
    prim_func("annotate.apply", CtxAccess::Mut, default_dyn_mode(), None)
}

/// `annotate.note`: a copy of the note of the context record.
pub fn get_note() -> (f: FuncVal)
    ensures
        func_sval(f) == prim_model("annotate.note"@, CtxAccess::Const, spec_default_mode(), spec_default_mode(), Some(Prim::Annotate(crate::prelude::annotate::AnnotateFn::GetNote))),
{
    prim_func("annotate.note", CtxAccess::Const, default_dyn_mode(), Some(Prim::Annotate(crate::prelude::annotate::AnnotateFn::GetNote)))
}

/// `annotate.set_note`: replaces the note; gives back the old one.
pub fn set_note() -> (f: FuncVal)
    ensures
        func_sval(f) == prim_model("annotate.set_note"@, CtxAccess::Mut, spec_default_mode(), spec_default_mode(), Some(Prim::Annotate(crate::prelude::annotate::AnnotateFn::SetNote))),
{
    prim_func("annotate.set_note", CtxAccess::Mut, default_dyn_mode(), Some(Prim::Annotate(crate::prelude::annotate::AnnotateFn::SetNote)))
}

/// `annotate.value`: a copy of the value of the context record.
pub fn get_value() -> (f: FuncVal)
    ensures
        func_sval(f) == prim_model("annotate.value"@, CtxAccess::Const, spec_default_mode(), spec_default_mode(), Some(Prim::Annotate(crate::prelude::annotate::AnnotateFn::GetValue))),
{
    prim_func("annotate.value", CtxAccess::Const, default_dyn_mode(), Some(Prim::Annotate(crate::prelude::annotate::AnnotateFn::GetValue)))
}

/// `annotate.set_value`: replaces the value; gives back the old one.
pub fn set_value() -> (f: FuncVal)
    ensures
        func_sval(f) == prim_model("annotate.set_value"@, CtxAccess::Mut, spec_default_mode(), spec_default_mode(), Some(Prim::Annotate(crate::prelude::annotate::AnnotateFn::SetValue))),
{
    prim_func("annotate.set_value", CtxAccess::Mut, default_dyn_mode(), Some(Prim::Annotate(crate::prelude::annotate::AnnotateFn::SetValue)))
}

/// The record made of a pair.
pub fn fn_new(input: Val) -> (r: Val)
    ensures
        r@ == node_new(NodeKind::Annotate, input@),
{
    node_from_pair(NodeKind::Annotate, input)
}

pub fn fn_get_note(ctx: &Val, _input: Val) -> (r: Val)
    ensures
        r@ == node_get(NodeKind::Annotate, true, ctx@),
{
    node_get_field(NodeKind::Annotate, true, ctx)
}

pub fn fn_set_note(ctx: &mut Val, input: Val) -> (r: Val)
    ensures
        (final(ctx)@, r@) == node_set(NodeKind::Annotate, true, old(ctx)@, input@),
{
    node_set_field(NodeKind::Annotate, true, ctx, input)
}

pub fn fn_get_value(ctx: &Val, _input: Val) -> (r: Val)
    ensures
        r@ == node_get(NodeKind::Annotate, false, ctx@),
{
    node_get_field(NodeKind::Annotate, false, ctx)
}

pub fn fn_set_value(ctx: &mut Val, input: Val) -> (r: Val)
    ensures
        (final(ctx)@, r@) == node_set(NodeKind::Annotate, false, old(ctx)@, input@),
{
    node_set_field(NodeKind::Annotate, false, ctx, input)
}


/// The built-in functions of this module, by what they compute.
#[derive(Clone, Copy, PartialEq, Eq, Structural)]
pub enum AnnotateFn {
    New,
    GetNote,
    SetNote,
    GetValue,
    SetValue,
}

/// What calling one of these functions does: the context after the call, and the result.
pub open spec fn run_spec(f: AnnotateFn, ctx: SVal, input: SVal) -> (SVal, SVal) {
    match f {
        AnnotateFn::New => (ctx, node_new(NodeKind::Annotate, input)),
        AnnotateFn::GetNote => (ctx, node_get(NodeKind::Annotate, true, ctx)),
        AnnotateFn::SetNote => node_set(NodeKind::Annotate, true, ctx, input),
        AnnotateFn::GetValue => (ctx, node_get(NodeKind::Annotate, false, ctx)),
        AnnotateFn::SetValue => node_set(NodeKind::Annotate, false, ctx, input),
    }
}

/// Calls one of these functions on a context it may change.
pub fn run(f: AnnotateFn, ctx: &mut Val, input: Val) -> (r: Val)
    ensures
        (final(ctx)@, r@) == run_spec(f, old(ctx)@, input@),
{
    match f {
        AnnotateFn::New => fn_new(input),
        AnnotateFn::GetNote => fn_get_note(&*ctx, input),
        AnnotateFn::SetNote => fn_set_note(ctx, input),
        AnnotateFn::GetValue => fn_get_value(&*ctx, input),
        AnnotateFn::SetValue => fn_set_value(ctx, input),
    }
}

} // verus!
