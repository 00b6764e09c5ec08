//! Operations on symbols.
use crate::prelude::setup::{default_dyn_mode, default_free_mode};
use crate::prelude::{func_sval, prim_func, prim_model, put_func, spec_default_mode, Prelude};
use crate::types::dict::dict_insert;
use crate::types::val::{CtxAccess, FuncVal, SVal, Val, ValMap};
use crate::types::bigint::big_from_usize;
use crate::types::copy::lemma_view_list;
use crate::types::seqs::{join_seqs, lemma_join_push};
use crate::types::text::{all_symbol_chars, check_symbol_chars};
use crate::types::val::{view_list, view_val};
use vstd::utf8::encode_utf8;
use crate::prelude::apply::Prim;
use vstd::prelude::*;

verus! {

pub struct SymbolPrelude {
    pub from_text: FuncVal,
    pub into_text: FuncVal,
    pub length: FuncVal,
    pub join: FuncVal,
}

impl Default for SymbolPrelude {
    fn default() -> (r: Self)
        ensures
            func_sval(r.from_text) == prim_model("symbol.from_text"@, CtxAccess::Free, spec_default_mode(), spec_default_mode(), Some(Prim::Symbol(crate::prelude::symbol::SymbolFn::FromText))),
            func_sval(r.into_text) == prim_model("symbol.into_text"@, CtxAccess::Free, spec_default_mode(), spec_default_mode(), Some(Prim::Symbol(crate::prelude::symbol::SymbolFn::IntoText))),
            func_sval(r.length) == prim_model("symbol.length"@, CtxAccess::Const, spec_default_mode(), spec_default_mode(), Some(Prim::Symbol(crate::prelude::symbol::SymbolFn::Length))),
            func_sval(r.join) == prim_model("symbol.join"@, CtxAccess::Free, spec_default_mode(), spec_default_mode(), Some(Prim::Symbol(crate::prelude::symbol::SymbolFn::Join))),
    {
        SymbolPrelude {
            from_text: self::from_text(),
            into_text: self::into_text(),
            length: self::length(),
            join: self::join(),
        }
    }
}

impl Prelude for SymbolPrelude {
    fn put(&self, ctx: &mut ValMap)
        ensures
            final(ctx).view() == dict_insert(dict_insert(dict_insert(dict_insert(old(ctx).view(), SVal::Symbol(self.from_text.id@), func_sval(self.from_text)), SVal::Symbol(self.into_text.id@), func_sval(self.into_text)), SVal::Symbol(self.length.id@), func_sval(self.length)), SVal::Symbol(self.join.id@), func_sval(self.join)),
    {
        put_func(ctx, &self.from_text);
        put_func(ctx, &self.into_text);
        put_func(ctx, &self.length);
        put_func(ctx, &self.join);
    }
}

/// `symbol.from_text`: the symbol spelled by a text.
pub fn from_text() -> (f: FuncVal)
    ensures
        func_sval(f) == prim_model("symbol.from_text"@, CtxAccess::Free, spec_default_mode(), spec_default_mode(), Some(Prim::Symbol(crate::prelude::symbol::SymbolFn::FromText))),
{
    prim_func("symbol.from_text", CtxAccess::Free, default_free_mode(), Some(Prim::Symbol(crate::prelude::symbol::SymbolFn::FromText)))
}

/// `symbol.into_text`: the text of a symbol.
pub fn into_text() -> (f: FuncVal)
    ensures
        func_sval(f) == prim_model("symbol.into_text"@, CtxAccess::Free, spec_default_mode(), spec_default_mode(), Some(Prim::Symbol(crate::prelude::symbol::SymbolFn::IntoText))),
{
    prim_func("symbol.into_text", CtxAccess::Free, default_free_mode(), Some(Prim::Symbol(crate::prelude::symbol::SymbolFn::IntoText)))
}

/// `symbol.length`: the length of the context symbol.
pub fn length() -> (f: FuncVal)
    ensures
        func_sval(f) == prim_model("symbol.length"@, CtxAccess::Const, spec_default_mode(), spec_default_mode(), Some(Prim::Symbol(crate::prelude::symbol::SymbolFn::Length))),
{
    prim_func("symbol.length", CtxAccess::Const, default_dyn_mode(), Some(Prim::Symbol(crate::prelude::symbol::SymbolFn::Length)))
}

/// `symbol.join`: joins a list of symbols with a separator.
pub fn join() -> (f: FuncVal)
    ensures
        func_sval(f) == prim_model("symbol.join"@, CtxAccess::Free, spec_default_mode(), spec_default_mode(), Some(Prim::Symbol(crate::prelude::symbol::SymbolFn::Join))),
{
    prim_func("symbol.join", CtxAccess::Free, default_free_mode(), Some(Prim::Symbol(crate::prelude::symbol::SymbolFn::Join)))
}

/// The contents of a list of symbol values; `None` when an item is not a symbol.
pub open spec fn symbol_parts(items: Seq<SVal>) -> Option<Seq<Seq<char>>>
    decreases items.len(),
{
    if items.len() == 0 {
        Some(Seq::empty())
    } else {
        match (symbol_parts(items.drop_last()), items.last()) {
            (Some(ps), SVal::Symbol(t)) => Some(ps.push(t)),
            _ => None,
        }
    }
}

pub proof fn lemma_symbol_parts_none(items: Seq<SVal>, n: int)
    requires
        0 <= n <= items.len(),
        symbol_parts(items.take(n)) is None,
    ensures
        symbol_parts(items) is None,
    decreases items.len() - n,
{
    if n < items.len() {
        assert(items.take(n + 1).drop_last() =~= items.take(n));
        lemma_symbol_parts_none(items, n + 1);
    } else {
        assert(items.take(n) =~= items);
    }
}

pub open spec fn symbol_from_text(input: SVal) -> SVal {
    match input {
        SVal::Text(t) => if all_symbol_chars(t) {
            SVal::Symbol(t)
        } else {
            SVal::Unit
        },
        _ => SVal::Unit,
    }
}

pub open spec fn symbol_into_text(input: SVal) -> SVal {
    match input {
        SVal::Symbol(s) => SVal::Text(s),
        _ => SVal::Unit,
    }
}

pub open spec fn symbol_length(ctx: SVal) -> SVal {
    match ctx {
        SVal::Symbol(s) => SVal::Int(encode_utf8(s).len() as int),
        _ => SVal::Unit,
    }
}

pub open spec fn symbol_join(input: SVal) -> SVal {
    match input {
        SVal::Pair(a, b) => {
            let sep = match *a {
                SVal::Unit => Some(Seq::<char>::empty()),
                SVal::Symbol(s) => Some(s),
                _ => None,
            };
            match (sep, *b) {
                (Some(sep), SVal::List(items)) => match symbol_parts(items) {
                    Some(ps) => SVal::Symbol(join_seqs(ps, sep)),
                    None => SVal::Unit,
                },
                _ => SVal::Unit,
            }
        },
        _ => SVal::Unit,
    }
}

pub fn fn_from_text(input: Val) -> (r: Val)
    ensures
        r@ == symbol_from_text(input@),
{
    let Val::Text(t) = input else {
        return Val::Unit;
    };
    if !check_symbol_chars(t.as_str()) {
        return Val::Unit;
    }
    Val::Symbol(t)
}

pub fn fn_into_text(input: Val) -> (r: Val)
    ensures
        r@ == symbol_into_text(input@),
{
    let Val::Symbol(s) = input else {
        return Val::Unit;
    };
    Val::Text(s)
}

pub fn fn_length(ctx: &Val, _input: Val) -> (r: Val)
    ensures
        r@ == symbol_length(ctx@),
{
    let Val::Symbol(s) = ctx else {
        return Val::Unit;
    };
    let bytes = s.as_str().as_bytes_vec();
    Val::Int(big_from_usize(bytes.len()))
}

/// Joins the contents of a list of symbols with a separator.
pub fn join_symbols(sep: &String, items: &Vec<Val>) -> (r: Option<String>)
    ensures
        r matches Some(s) ==> (symbol_parts(view_list(items@)) matches Some(ps) && s@ == join_seqs(ps, sep@)),
        r is None <==> symbol_parts(view_list(items@)) is None,
{
    let ghost its = view_list(items@);
    proof {
        lemma_view_list(items@);
    }
    let mut out = String::new();
    let ghost mut parts: Seq<Seq<char>> = Seq::empty();
    let mut i: usize = 0;
    while i < items.len()
        invariant
            i <= items@.len(),
            its == view_list(items@),
            its.len() == items@.len(),
            forall|j: int| 0 <= j < items@.len() ==> #[trigger] its[j] == view_val(items@[j]),
            symbol_parts(its.take(i as int)) == Some(parts),
            out@ == join_seqs(parts, sep@),
            parts.len() == i,
        decreases items@.len() - i,
    {
        proof {
            assert(its.take(i + 1).drop_last() =~= its.take(i as int));
        }
        match &items[i] {
            Val::Symbol(t) => {
                proof {
                    lemma_join_push(parts, sep@, t@);
                }
                if i > 0 {
                    out.append(sep.as_str());
                }
                out.append(t.as_str());
                proof {
                    parts = parts.push(t@);
                }
            },
            _ => {
                proof {
                    lemma_symbol_parts_none(its, i as int + 1);
                }
                return None;
            },
        }
        i = i + 1;
    }
    proof {
        assert(its.take(i as int) =~= its);
    }
    Some(out)
}

pub fn fn_join(input: Val) -> (r: Val)
    ensures
        r@ == symbol_join(input@),
{
    reveal_with_fuel(crate::types::val::view_val, 2);
    let Val::Pair(pair) = input else {
        return Val::Unit;
    };
    let pair = *pair;
    let separator = match pair.first {
        Val::Unit => String::new(),
        Val::Symbol(s) => s,
        _ => {
            return Val::Unit;
        },
    };
    let Val::List(symbols) = pair.second else {
        return Val::Unit;
    };
    match join_symbols(&separator, &symbols) {
        Some(s) => Val::Symbol(s),
        None => Val::Unit,
    }
}


/// The built-in functions of this module, by what they compute.
#[derive(Clone, Copy, PartialEq, Eq, Structural)]
pub enum SymbolFn {
    FromText,
    IntoText,
    Length,
    Join,
}

/// What calling one of these functions does: the context after the call, and the result.
pub open spec fn run_spec(f: SymbolFn, ctx: SVal, input: SVal) -> (SVal, SVal) {
    match f {
        SymbolFn::FromText => (ctx, symbol_from_text(input)),
        SymbolFn::IntoText => (ctx, symbol_into_text(input)),
        SymbolFn::Length => (ctx, symbol_length(ctx)),
        SymbolFn::Join => (ctx, symbol_join(input)),
    }
}

/// Calls one of these functions on a context it may change.
pub fn run(f: SymbolFn, ctx: &mut Val, input: Val) -> (r: Val)
    ensures
        (final(ctx)@, r@) == run_spec(f, old(ctx)@, input@),
{
    match f {
        SymbolFn::FromText => fn_from_text(input),
        SymbolFn::IntoText => fn_into_text(input),
        SymbolFn::Length => fn_length(&*ctx, input),
        SymbolFn::Join => fn_join(input),
    }
}

} // verus!
