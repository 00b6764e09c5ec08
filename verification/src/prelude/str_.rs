//! Strings, in their older form; they are texts.
use crate::prelude::setup::{default_dyn_mode, default_free_mode};
use crate::prelude::{func_sval, prim_func, prim_model, put_func, spec_default_mode, Prelude};
use crate::types::dict::dict_insert;
use crate::types::val::{CtxAccess, FuncVal, SVal, Val, ValMap};
use crate::prelude::text::{join_texts, text_from_utf8, text_into_utf8, text_length, text_parts, text_push};
use crate::types::seqs::join_seqs;
use crate::prelude::apply::Prim;
use vstd::prelude::*;

verus! {

pub struct StrPrelude {
    pub from_utf8: FuncVal,
    pub into_utf8: FuncVal,
    pub length: FuncVal,
    pub push: FuncVal,
    pub concat: FuncVal,
}

impl Default for StrPrelude {
    fn default() -> (r: Self)
        ensures
            func_sval(r.from_utf8) == prim_model("string.from_utf8"@, CtxAccess::Free, spec_default_mode(), spec_default_mode(), Some(Prim::Str(crate::prelude::str_::StrFn::FromUtf8))),
            func_sval(r.into_utf8) == prim_model("string.into_utf8"@, CtxAccess::Free, spec_default_mode(), spec_default_mode(), Some(Prim::Str(crate::prelude::str_::StrFn::IntoUtf8))),
            func_sval(r.length) == prim_model("string.length"@, CtxAccess::Const, spec_default_mode(), spec_default_mode(), Some(Prim::Str(crate::prelude::str_::StrFn::Length))),
            func_sval(r.push) == prim_model("string.push"@, CtxAccess::Mut, spec_default_mode(), spec_default_mode(), Some(Prim::Str(crate::prelude::str_::StrFn::Push))),
            func_sval(r.concat) == prim_model("string.concat"@, CtxAccess::Free, spec_default_mode(), spec_default_mode(), Some(Prim::Str(crate::prelude::str_::StrFn::Concat))),
    {
        StrPrelude {
            from_utf8: self::from_utf8(),
            into_utf8: self::into_utf8(),
            length: self::length(),
            push: self::push(),
            concat: self::concat(),
        }
    }
}

impl Prelude for StrPrelude {
    fn put(&self, ctx: &mut ValMap)
        ensures
            final(ctx).view() == dict_insert(dict_insert(dict_insert(dict_insert(dict_insert(old(ctx).view(), SVal::Symbol(self.from_utf8.id@), func_sval(self.from_utf8)), SVal::Symbol(self.into_utf8.id@), func_sval(self.into_utf8)), SVal::Symbol(self.length.id@), func_sval(self.length)), SVal::Symbol(self.push.id@), func_sval(self.push)), SVal::Symbol(self.concat.id@), func_sval(self.concat)),
    {
        put_func(ctx, &self.from_utf8);
        put_func(ctx, &self.into_utf8);
        put_func(ctx, &self.length);
        put_func(ctx, &self.push);
        put_func(ctx, &self.concat);
    }
}

/// `string.from_utf8`: the text that UTF-8 bytes encode.
pub fn from_utf8() -> (f: FuncVal)
    ensures
        func_sval(f) == prim_model("string.from_utf8"@, CtxAccess::Free, spec_default_mode(), spec_default_mode(), Some(Prim::Str(crate::prelude::str_::StrFn::FromUtf8))),
{
    prim_func("string.from_utf8", CtxAccess::Free, default_free_mode(), Some(Prim::Str(crate::prelude::str_::StrFn::FromUtf8)))
}

/// `string.into_utf8`: the UTF-8 bytes of a text.
pub fn into_utf8() -> (f: FuncVal)
    ensures
        func_sval(f) == prim_model("string.into_utf8"@, CtxAccess::Free, spec_default_mode(), spec_default_mode(), Some(Prim::Str(crate::prelude::str_::StrFn::IntoUtf8))),
{
    prim_func("string.into_utf8", CtxAccess::Free, default_free_mode(), Some(Prim::Str(crate::prelude::str_::StrFn::IntoUtf8)))
}

/// `string.length`: the length in bytes of the context text.
pub fn length() -> (f: FuncVal)
    ensures
        func_sval(f) == prim_model("string.length"@, CtxAccess::Const, spec_default_mode(), spec_default_mode(), Some(Prim::Str(crate::prelude::str_::StrFn::Length))),
{
    prim_func("string.length", CtxAccess::Const, default_dyn_mode(), Some(Prim::Str(crate::prelude::str_::StrFn::Length)))
}

/// `string.push`: appends a text to the context text.
pub fn push() -> (f: FuncVal)
    ensures
        func_sval(f) == prim_model("string.push"@, CtxAccess::Mut, spec_default_mode(), spec_default_mode(), Some(Prim::Str(crate::prelude::str_::StrFn::Push))),
{
    prim_func("string.push", CtxAccess::Mut, default_dyn_mode(), Some(Prim::Str(crate::prelude::str_::StrFn::Push)))
}

/// `string.concat`: the texts of a list one after another.
pub fn concat() -> (f: FuncVal)
    ensures
        func_sval(f) == prim_model("string.concat"@, CtxAccess::Free, spec_default_mode(), spec_default_mode(), Some(Prim::Str(crate::prelude::str_::StrFn::Concat))),
{
    prim_func("string.concat", CtxAccess::Free, default_free_mode(), Some(Prim::Str(crate::prelude::str_::StrFn::Concat)))
}

pub fn fn_from_utf8(input: Val) -> (r: Val)
    ensures
        r@ == text_from_utf8(input@),
{
    crate::prelude::text::fn_from_utf8(input)
}

pub fn fn_into_utf8(input: Val) -> (r: Val)
    ensures
        r@ == text_into_utf8(input@),
{
    crate::prelude::text::fn_into_utf8(input)
}

pub fn fn_length(ctx: &Val, input: Val) -> (r: Val)
    ensures
        r@ == text_length(ctx@),
{
    crate::prelude::text::fn_length(ctx, input)
}

pub fn fn_push(ctx: &mut Val, input: Val) -> (r: Val)
    ensures
        (final(ctx)@, r@) == text_push(old(ctx)@, input@),
{
    crate::prelude::text::fn_push(ctx, input)
}

/// The texts of a list one after another; unit when an item is not a text.
pub open spec fn text_concat(input: SVal) -> SVal {
    match input {
        SVal::List(items) => match text_parts(items) {
            Some(ps) => SVal::Text(join_seqs(ps, Seq::empty())),
            None => SVal::Unit,
        },
        _ => SVal::Unit,
    }
}

pub fn fn_concat(input: Val) -> (r: Val)
    ensures
        r@ == text_concat(input@),
{
    let Val::List(strings) = input else {
        return Val::Unit;
    };
    let empty = String::new();
    match join_texts(&empty, &strings) {
        Some(t) => Val::Text(t),
        None => Val::Unit,
    }
}


/// The built-in functions of this module, by what they compute.
#[derive(Clone, Copy, PartialEq, Eq, Structural)]
pub enum StrFn {
    FromUtf8,
    IntoUtf8,
    Length,
    Push,
    Concat,
}

/// What calling one of these functions does: the context after the call, and the result.
pub open spec fn run_spec(f: StrFn, ctx: SVal, input: SVal) -> (SVal, SVal) {
    match f {
        StrFn::FromUtf8 => (ctx, text_from_utf8(input)),
        StrFn::IntoUtf8 => (ctx, text_into_utf8(input)),
        StrFn::Length => (ctx, text_length(ctx)),
        StrFn::Push => text_push(ctx, input),
        StrFn::Concat => (ctx, text_concat(input)),
    }
}

/// Calls one of these functions on a context it may change.
pub fn run(f: StrFn, ctx: &mut Val, input: Val) -> (r: Val)
    ensures
        (final(ctx)@, r@) == run_spec(f, old(ctx)@, input@),
{
    match f {
        StrFn::FromUtf8 => fn_from_utf8(input),
        StrFn::IntoUtf8 => fn_into_utf8(input),
        StrFn::Length => fn_length(&*ctx, input),
        StrFn::Push => fn_push(ctx, input),
        StrFn::Concat => fn_concat(input),
    }
}

} // verus!
