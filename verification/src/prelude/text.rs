//! Operations on texts.
use crate::prelude::setup::{default_dyn_mode, default_free_mode};
use crate::prelude::{func_sval, prim_func, prim_model, put_func, spec_default_mode, Prelude};
use crate::types::dict::dict_insert;
use crate::types::val::{CtxAccess, FuncVal, SVal, Val, ValMap};
use crate::types::bigint::big_from_usize;
use crate::types::copy::lemma_view_list;
use crate::types::seqs::{join_seqs, lemma_join_push};
use crate::types::text::string_from_utf8;
use crate::types::val::{view_list, view_val};
use vstd::utf8::{decode_utf8, encode_utf8, valid_utf8};
use crate::prelude::apply::Prim;
use vstd::prelude::*;

verus! {

pub struct TextPrelude {
    pub from_utf8: FuncVal,
    pub into_utf8: FuncVal,
    pub length: FuncVal,
    pub push: FuncVal,
    pub join: FuncVal,
}

impl Default for TextPrelude {
    fn default() -> (r: Self)
        ensures
            func_sval(r.from_utf8) == prim_model("text.from_utf8"@, CtxAccess::Free, spec_default_mode(), spec_default_mode(), Some(Prim::Text(crate::prelude::text::TextFn::FromUtf8))),
            func_sval(r.into_utf8) == prim_model("text.into_utf8"@, CtxAccess::Free, spec_default_mode(), spec_default_mode(), Some(Prim::Text(crate::prelude::text::TextFn::IntoUtf8))),
            func_sval(r.length) == prim_model("text.length"@, CtxAccess::Const, spec_default_mode(), spec_default_mode(), Some(Prim::Text(crate::prelude::text::TextFn::Length))),
            func_sval(r.push) == prim_model("text.push"@, CtxAccess::Mut, spec_default_mode(), spec_default_mode(), Some(Prim::Text(crate::prelude::text::TextFn::Push))),
            func_sval(r.join) == prim_model("text.join"@, CtxAccess::Free, spec_default_mode(), spec_default_mode(), Some(Prim::Text(crate::prelude::text::TextFn::Join))),
    {
        TextPrelude {
            from_utf8: self::from_utf8(),
            into_utf8: self::into_utf8(),
            length: self::length(),
            push: self::push(),
            join: self::join(),
        }
    }
}

impl Prelude for TextPrelude {
    fn put(&self, ctx: &mut ValMap)
        ensures
            final(ctx).view() == dict_insert(dict_insert(dict_insert(dict_insert(dict_insert(old(ctx).view(), SVal::Symbol(self.from_utf8.id@), func_sval(self.from_utf8)), SVal::Symbol(self.into_utf8.id@), func_sval(self.into_utf8)), SVal::Symbol(self.length.id@), func_sval(self.length)), SVal::Symbol(self.push.id@), func_sval(self.push)), SVal::Symbol(self.join.id@), func_sval(self.join)),
    {
        put_func(ctx, &self.from_utf8);
        put_func(ctx, &self.into_utf8);
        put_func(ctx, &self.length);
        put_func(ctx, &self.push);
        put_func(ctx, &self.join);
    }
}

/// `text.from_utf8`: the text that UTF-8 bytes encode.
pub fn from_utf8() -> (f: FuncVal)
    ensures
        func_sval(f) == prim_model("text.from_utf8"@, CtxAccess::Free, spec_default_mode(), spec_default_mode(), Some(Prim::Text(crate::prelude::text::TextFn::FromUtf8))),
{
    prim_func("text.from_utf8", CtxAccess::Free, default_free_mode(), Some(Prim::Text(crate::prelude::text::TextFn::FromUtf8)))
}

/// `text.into_utf8`: the UTF-8 bytes of a text.
pub fn into_utf8() -> (f: FuncVal)
    ensures
        func_sval(f) == prim_model("text.into_utf8"@, CtxAccess::Free, spec_default_mode(), spec_default_mode(), Some(Prim::Text(crate::prelude::text::TextFn::IntoUtf8))),
{
    prim_func("text.into_utf8", CtxAccess::Free, default_free_mode(), Some(Prim::Text(crate::prelude::text::TextFn::IntoUtf8)))
}

/// `text.length`: the length in bytes of the context text.
pub fn length() -> (f: FuncVal)
    ensures
        func_sval(f) == prim_model("text.length"@, CtxAccess::Const, spec_default_mode(), spec_default_mode(), Some(Prim::Text(crate::prelude::text::TextFn::Length))),
{
    prim_func("text.length", CtxAccess::Const, default_dyn_mode(), Some(Prim::Text(crate::prelude::text::TextFn::Length)))
}

/// `text.push`: appends a text to the context text.
pub fn push() -> (f: FuncVal)
    ensures
        func_sval(f) == prim_model("text.push"@, CtxAccess::Mut, spec_default_mode(), spec_default_mode(), Some(Prim::Text(crate::prelude::text::TextFn::Push))),
{
    prim_func("text.push", CtxAccess::Mut, default_dyn_mode(), Some(Prim::Text(crate::prelude::text::TextFn::Push)))
}

/// `text.join`: joins a list of texts with a separator.
pub fn join() -> (f: FuncVal)
    ensures
        func_sval(f) == prim_model("text.join"@, CtxAccess::Free, spec_default_mode(), spec_default_mode(), Some(Prim::Text(crate::prelude::text::TextFn::Join))),
{
    prim_func("text.join", CtxAccess::Free, default_free_mode(), Some(Prim::Text(crate::prelude::text::TextFn::Join)))
}

/// The contents of a list of text values; `None` when an item is not a text value.
pub open spec fn text_parts(items: Seq<SVal>) -> Option<Seq<Seq<char>>>
    decreases items.len(),
{
    if items.len() == 0 {
        Some(Seq::empty())
    } else {
        match (text_parts(items.drop_last()), items.last()) {
            (Some(ps), SVal::Text(t)) => Some(ps.push(t)),
            _ => None,
        }
    }
}

pub proof fn lemma_text_parts_none(items: Seq<SVal>, n: int)
    requires
        0 <= n <= items.len(),
        text_parts(items.take(n)) is None,
    ensures
        text_parts(items) is None,
    decreases items.len() - n,
{
    if n < items.len() {
        assert(items.take(n + 1).drop_last() =~= items.take(n));
        lemma_text_parts_none(items, n + 1);
    } else {
        assert(items.take(n) =~= items);
    }
}

pub open spec fn text_from_utf8(input: SVal) -> SVal {
    match input {
        SVal::Byte(b) => if valid_utf8(b) {
            SVal::Text(decode_utf8(b))
        } else {
            SVal::Unit
        },
        _ => SVal::Unit,
    }
}

pub open spec fn text_into_utf8(input: SVal) -> SVal {
    match input {
        SVal::Text(t) => SVal::Byte(encode_utf8(t)),
        _ => SVal::Unit,
    }
}

/// The length of a text: the number of bytes of its UTF-8 encoding.
pub open spec fn text_length(ctx: SVal) -> SVal {
    match ctx {
        SVal::Text(t) => SVal::Int(encode_utf8(t).len() as int),
        _ => SVal::Unit,
    }
}

pub open spec fn text_push(ctx: SVal, input: SVal) -> (SVal, SVal) {
    match (ctx, input) {
        (SVal::Text(t), SVal::Text(x)) => (SVal::Text(t + x), SVal::Unit),
        _ => (ctx, SVal::Unit),
    }
}

pub open spec fn text_join(input: SVal) -> SVal {
    match input {
        SVal::Pair(a, b) => {
            let sep = match *a {
                SVal::Unit => Some(Seq::<char>::empty()),
                SVal::Text(s) => Some(s),
                _ => None,
            };
            match (sep, *b) {
                (Some(sep), SVal::List(items)) => match text_parts(items) {
                    Some(ps) => SVal::Text(join_seqs(ps, sep)),
                    None => SVal::Unit,
                },
                _ => SVal::Unit,
            }
        },
        _ => SVal::Unit,
    }
}

pub fn fn_from_utf8(input: Val) -> (r: Val)
    ensures
        r@ == text_from_utf8(input@),
{
    let Val::Byte(byte) = input else {
        return Val::Unit;
    };
    match string_from_utf8(byte) {
        Some(s) => Val::Text(s),
        None => Val::Unit,
    }
}

pub fn fn_into_utf8(input: Val) -> (r: Val)
    ensures
        r@ == text_into_utf8(input@),
{
    let Val::Text(text) = input else {
        return Val::Unit;
    };
    Val::Byte(text.as_str().as_bytes_vec())
}

pub fn fn_length(ctx: &Val, _input: Val) -> (r: Val)
    ensures
        r@ == text_length(ctx@),
{
    let Val::Text(t) = ctx else {
        return Val::Unit;
    };
    let bytes = t.as_str().as_bytes_vec();
    Val::Int(big_from_usize(bytes.len()))
}

pub fn fn_push(ctx: &mut Val, input: Val) -> (r: Val)
    ensures
        (final(ctx)@, r@) == text_push(old(ctx)@, input@),
{
    let Val::Text(text) = ctx else {
        return Val::Unit;
    };
    let Val::Text(t) = input else {
        return Val::Unit;
    };
    text.append(t.as_str());
    Val::Unit
}

/// Joins the contents of a list of text values with a separator.
pub fn join_texts(sep: &String, items: &Vec<Val>) -> (r: Option<String>)
    ensures
        r matches Some(s) ==> (text_parts(view_list(items@)) matches Some(ps) && s@ == join_seqs(ps, sep@)),
        r is None <==> text_parts(view_list(items@)) is None,
{
    let ghost its = view_list(items@);
    proof {
        lemma_view_list(items@);
    }
    let mut out = String::new();
    let ghost mut parts: Seq<Seq<char>> = Seq::empty();
    let mut i: usize = 0;
    while i < items.len()
        invariant
            i <= items@.len(),
            its == view_list(items@),
            its.len() == items@.len(),
            forall|j: int| 0 <= j < items@.len() ==> #[trigger] its[j] == view_val(items@[j]),
            text_parts(its.take(i as int)) == Some(parts),
            out@ == join_seqs(parts, sep@),
            parts.len() == i,
        decreases items@.len() - i,
    {
        proof {
            assert(its.take(i + 1).drop_last() =~= its.take(i as int));
        }
        match &items[i] {
            Val::Text(t) => {
                proof {
                    lemma_join_push(parts, sep@, t@);
                }
                if i > 0 {
                    out.append(sep.as_str());
                }
                out.append(t.as_str());
                proof {
                    parts = parts.push(t@);
                }
            },
            _ => {
                proof {
                    lemma_text_parts_none(its, i as int + 1);
                }
                return None;
            },
        }
        i = i + 1;
    }
    proof {
        assert(its.take(i as int) =~= its);
    }
    Some(out)
}

pub fn fn_join(input: Val) -> (r: Val)
    ensures
        r@ == text_join(input@),
{
    reveal_with_fuel(crate::types::val::view_val, 2);
    let Val::Pair(pair) = input else {
        return Val::Unit;
    };
    let pair = *pair;
    let separator = match pair.first {
        Val::Unit => String::new(),
        Val::Text(t) => t,
        _ => {
            return Val::Unit;
        },
    };
    let Val::List(texts) = pair.second else {
        return Val::Unit;
    };
    match join_texts(&separator, &texts) {
        Some(t) => Val::Text(t),
        None => Val::Unit,
    }
}


/// The built-in functions of this module, by what they compute.
#[derive(Clone, Copy, PartialEq, Eq, Structural)]
pub enum TextFn {
    FromUtf8,
    IntoUtf8,
    Length,
    Push,
    Join,
}

/// What calling one of these functions does: the context after the call, and the result.
pub open spec fn run_spec(f: TextFn, ctx: SVal, input: SVal) -> (SVal, SVal) {
    match f {
        TextFn::FromUtf8 => (ctx, text_from_utf8(input)),
        TextFn::IntoUtf8 => (ctx, text_into_utf8(input)),
        TextFn::Length => (ctx, text_length(ctx)),
        TextFn::Push => text_push(ctx, input),
        TextFn::Join => (ctx, text_join(input)),
    }
}

/// Calls one of these functions on a context it may change.
pub fn run(f: TextFn, ctx: &mut Val, input: Val) -> (r: Val)
    ensures
        (final(ctx)@, r@) == run_spec(f, old(ctx)@, input@),
{
    match f {
        TextFn::FromUtf8 => fn_from_utf8(input),
        TextFn::IntoUtf8 => fn_into_utf8(input),
        TextFn::Length => fn_length(&*ctx, input),
        TextFn::Push => fn_push(ctx, input),
        TextFn::Join => fn_join(input),
    }
}

} // verus!
