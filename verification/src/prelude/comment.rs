//! Comment records: a note and a value.
use crate::prelude::setup::{default_dyn_mode, default_free_mode};
use crate::prelude::{func_sval, prim_func, prim_model, put_func, spec_default_mode, Prelude};
use crate::types::dict::dict_insert;
use crate::types::val::{CtxAccess, FuncVal, SVal, Val, ValMap};
use crate::types::record::{node_from_pair, node_get, node_get_field, node_new, node_set, node_set_field, wrap_get, wrap_get_field, wrap_set, wrap_set_field};
use crate::types::val::{NodeKind, WrapKind};
use crate::prelude::apply::Prim;
use vstd::prelude::*;

verus! {

pub struct CommentPrelude {
    pub new: FuncVal,
    pub apply: FuncVal,
    pub get_note: FuncVal,
    pub set_note: FuncVal,
    pub get_value: FuncVal,
    pub set_value: FuncVal,
}

impl Default for CommentPrelude {
    fn default() -> (r: Self)
        ensures
            func_sval(r.new) == prim_model("comment"@, CtxAccess::Free, spec_default_mode(), spec_default_mode(), Some(Prim::Comment(crate::prelude::comment::CommentFn::New))),
            func_sval(r.apply) == prim_model("comment.apply"@, CtxAccess::Mut, spec_default_mode(), spec_default_mode(), None),
            func_sval(r.get_note) == prim_model("comment.note"@, CtxAccess::Const, spec_default_mode(), spec_default_mode(), Some(Prim::Comment(crate::prelude::comment::CommentFn::GetNote))),
            func_sval(r.set_note) == prim_model("comment.set_note"@, CtxAccess::Mut, spec_default_mode(), spec_default_mode(), Some(Prim::Comment(crate::prelude::comment::CommentFn::SetNote))),
            func_sval(r.get_value) == prim_model("comment.value"@, CtxAccess::Const, spec_default_mode(), spec_default_mode(), Some(Prim::Comment(crate::prelude::comment::CommentFn::GetValue))),
            func_sval(r.set_value) == prim_model("comment.set_value"@, CtxAccess::Mut, spec_default_mode(), spec_default_mode(), Some(Prim::Comment(crate::prelude::comment::CommentFn::SetValue))),
    {
        CommentPrelude {
            new: self::new(),
            apply: self::apply(),
            get_note: self::get_note(),
            set_note: self::set_note(),
            get_value: self::get_value(),
            set_value: self::set_value(),
        }
    }
}

impl Prelude for CommentPrelude {
    fn put(&self, ctx: &mut ValMap)
        ensures
            final(ctx).view() == dict_insert(dict_insert(dict_insert(dict_insert(dict_insert(dict_insert(old(ctx).view(), SVal::Symbol(self.new.id@), func_sval(self.new)), SVal::Symbol(self.apply.id@), func_sval(self.apply)), SVal::Symbol(self.get_note.id@), func_sval(self.get_note)), SVal::Symbol(self.set_note.id@), func_sval(self.set_note)), SVal::Symbol(self.get_value.id@), func_sval(self.get_value)), SVal::Symbol(self.set_value.id@), func_sval(self.set_value)),
    {
        put_func(ctx, &self.new);
        put_func(ctx, &self.apply);
        put_func(ctx, &self.get_note);
        put_func(ctx, &self.set_note);
        put_func(ctx, &self.get_value);
        put_func(ctx, &self.set_value);
    }
}

/// `comment`: the comment record made of a pair.
pub fn new() -> (f: FuncVal)
    ensures
        func_sval(f) == prim_model("comment"@, CtxAccess::Free, spec_default_mode(), spec_default_mode(), Some(Prim::Comment(crate::prelude::comment::CommentFn::New))),
{
    prim_func("comment", CtxAccess::Free, default_free_mode(), Some(Prim::Comment(crate::prelude::comment::CommentFn::New)))
}

/// `comment.apply`: applies the comment record; the evaluation it needs lies outside this library.
pub fn apply() -> (f: FuncVal)
    ensures
        func_sval(f) == prim_model("comment.apply"@, CtxAccess::Mut, spec_default_mode(), spec_default_mode(), None),
{
    prim_func("comment.apply", CtxAccess::Mut, default_dyn_mode(), None)
}

/// `comment.note`: a copy of the note of the context record.
pub fn get_note() -> (f: FuncVal)
    ensures
        func_sval(f) == prim_model("comment.note"@, CtxAccess::Const, spec_default_mode(), spec_default_mode(), Some(Prim::Comment(crate::prelude::comment::CommentFn::GetNote))),
{
    prim_func("comment.note", CtxAccess::Const, default_dyn_mode(), Some(Prim::Comment(crate::prelude::comment::CommentFn::GetNote)))
}

/// `comment.set_note`: replaces the note; gives back the old one.
pub fn set_note() -> (f: FuncVal)
    ensures
        func_sval(f) == prim_model("comment.set_note"@, CtxAccess::Mut, spec_default_mode(), spec_default_mode(), Some(Prim::Comment(crate::prelude::comment::CommentFn::SetNote))),
{
    prim_func("comment.set_note", CtxAccess::Mut, default_dyn_mode(), Some(Prim::Comment(crate::prelude::comment::CommentFn::SetNote)))
}

/// `comment.value`: a copy of the value of the context record.
pub fn get_value() -> (f: FuncVal)
    ensures
        func_sval(f) == prim_model("comment.value"@, CtxAccess::Const, spec_default_mode(), spec_default_mode(), Some(Prim::Comment(crate::prelude::comment::CommentFn::GetValue))),
{
    prim_func("comment.value", CtxAccess::Const, default_dyn_mode(), Some(Prim::Comment(crate::prelude::comment::CommentFn::GetValue)))
}

/// `comment.set_value`: replaces the value; gives back the old one.
pub fn set_value() -> (f: FuncVal)
    ensures
        func_sval(f) == prim_model("comment.set_value"@, CtxAccess::Mut, spec_default_mode(), spec_default_mode(), Some(Prim::Comment(crate::prelude::comment::CommentFn::SetValue))),
{
    prim_func("comment.set_value", CtxAccess::Mut, default_dyn_mode(), Some(Prim::Comment(crate::prelude::comment::CommentFn::SetValue)))
}

/// The record made of a pair.
pub fn fn_new(input: Val) -> (r: Val)
    ensures
        r@ == node_new(NodeKind::Comment, input@),
{
    node_from_pair(NodeKind::Comment, input)
}

pub fn fn_get_note(ctx: &Val, _input: Val) -> (r: Val)
    ensures
        r@ == node_get(NodeKind::Comment, true, ctx@),
{
    node_get_field(NodeKind::Comment, true, ctx)
}

pub fn fn_set_note(ctx: &mut Val, input: Val) -> (r: Val)
    ensures
        (final(ctx)@, r@) == node_set(NodeKind::Comment, true, old(ctx)@, input@),
{
    node_set_field(NodeKind::Comment, true, ctx, input)
}

pub fn fn_get_value(ctx: &Val, _input: Val) -> (r: Val)
    ensures
        r@ == node_get(NodeKind::Comment, false, ctx@),
{
    node_get_field(NodeKind::Comment, false, ctx)
}

pub fn fn_set_value(ctx: &mut Val, input: Val) -> (r: Val)
    ensures
        (final(ctx)@, r@) == node_set(NodeKind::Comment, false, old(ctx)@, input@),
{
    node_set_field(NodeKind::Comment, false, ctx, input)
}


/// The built-in functions of this module, by what they compute.
#[derive(Clone, Copy, PartialEq, Eq, Structural)]
pub enum CommentFn {
    New,
    GetNote,
    SetNote,
    GetValue,
    SetValue,
}

/// What calling one of these functions does: the context after the call, and the result.
pub open spec fn run_spec(f: CommentFn, ctx: SVal, input: SVal) -> (SVal, SVal) {
    match f {
        CommentFn::New => (ctx, node_new(NodeKind::Comment, input)),
        CommentFn::GetNote => (ctx, node_get(NodeKind::Comment, true, ctx)),
        CommentFn::SetNote => node_set(NodeKind::Comment, true, ctx, input),
        CommentFn::GetValue => (ctx, node_get(NodeKind::Comment, false, ctx)),
        CommentFn::SetValue => node_set(NodeKind::Comment, false, ctx, input),
    }
}

/// Calls one of these functions on a context it may change.
pub fn run(f: CommentFn, ctx: &mut Val, input: Val) -> (r: Val)
    ensures
        (final(ctx)@, r@) == run_spec(f, old(ctx)@, input@),
{
    match f {
        CommentFn::New => fn_new(input),
        CommentFn::GetNote => fn_get_note(&*ctx, input),
        CommentFn::SetNote => fn_set_note(ctx, input),
        CommentFn::GetValue => fn_get_value(&*ctx, input),
        CommentFn::SetValue => fn_set_value(ctx, input),
    }
}

} // verus!
