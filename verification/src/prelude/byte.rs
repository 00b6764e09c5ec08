//! Operations on byte strings.
use crate::prelude::setup::{default_dyn_mode, default_free_mode};
use crate::prelude::{func_sval, prim_func, prim_model, put_func, spec_default_mode, Prelude};
use crate::types::dict::dict_insert;
use crate::types::val::{CtxAccess, FuncVal, SVal, Val, ValMap};
use crate::types::bigint::big_from_usize;
use crate::types::copy::{copy_bytes, lemma_view_list};
use crate::types::seqs::{join_seqs, lemma_join_push};
use crate::types::val::{sval_pair, view_list, view_val};
use crate::prelude::apply::Prim;
use vstd::prelude::*;

verus! {

pub struct BytePrelude {
    pub length: FuncVal,
    pub push: FuncVal,
    pub join: FuncVal,
}

impl Default for BytePrelude {
    fn default() -> (r: Self)
        ensures
            func_sval(r.length) == prim_model("byte.length"@, CtxAccess::Const, spec_default_mode(), spec_default_mode(), Some(Prim::Byte(crate::prelude::byte::ByteFn::Length))),
            func_sval(r.push) == prim_model("byte.push"@, CtxAccess::Mut, spec_default_mode(), spec_default_mode(), Some(Prim::Byte(crate::prelude::byte::ByteFn::Push))),
            func_sval(r.join) == prim_model("byte.join"@, CtxAccess::Free, spec_default_mode(), spec_default_mode(), Some(Prim::Byte(crate::prelude::byte::ByteFn::Join))),
    {
        BytePrelude {
            length: self::length(),
            push: self::push(),
            join: self::join(),
        }
    }
}

impl Prelude for BytePrelude {
    fn put(&self, ctx: &mut ValMap)
        ensures
            final(ctx).view() == dict_insert(dict_insert(dict_insert(old(ctx).view(), SVal::Symbol(self.length.id@), func_sval(self.length)), SVal::Symbol(self.push.id@), func_sval(self.push)), SVal::Symbol(self.join.id@), func_sval(self.join)),
    {
        put_func(ctx, &self.length);
        put_func(ctx, &self.push);
        put_func(ctx, &self.join);
    }
}

/// `byte.length`: the number of bytes of the context.
pub fn length() -> (f: FuncVal)
    ensures
        func_sval(f) == prim_model("byte.length"@, CtxAccess::Const, spec_default_mode(), spec_default_mode(), Some(Prim::Byte(crate::prelude::byte::ByteFn::Length))),
{
    prim_func("byte.length", CtxAccess::Const, default_dyn_mode(), Some(Prim::Byte(crate::prelude::byte::ByteFn::Length)))
}

/// `byte.push`: appends bytes to the context.
pub fn push() -> (f: FuncVal)
    ensures
        func_sval(f) == prim_model("byte.push"@, CtxAccess::Mut, spec_default_mode(), spec_default_mode(), Some(Prim::Byte(crate::prelude::byte::ByteFn::Push))),
{
    prim_func("byte.push", CtxAccess::Mut, default_dyn_mode(), Some(Prim::Byte(crate::prelude::byte::ByteFn::Push)))
}

/// `byte.join`: joins a list of byte strings with a separator.
pub fn join() -> (f: FuncVal)
    ensures
        func_sval(f) == prim_model("byte.join"@, CtxAccess::Free, spec_default_mode(), spec_default_mode(), Some(Prim::Byte(crate::prelude::byte::ByteFn::Join))),
{
    prim_func("byte.join", CtxAccess::Free, default_free_mode(), Some(Prim::Byte(crate::prelude::byte::ByteFn::Join)))
}

/// The contents of a list of byte values; `None` when an item is not a byte value.
pub open spec fn byte_parts(items: Seq<SVal>) -> Option<Seq<Seq<u8>>>
    decreases items.len(),
{
    if items.len() == 0 {
        Some(Seq::empty())
    } else {
        match (byte_parts(items.drop_last()), items.last()) {
            (Some(ps), SVal::Byte(b)) => Some(ps.push(b)),
            _ => None,
        }
    }
}

pub open spec fn byte_length(ctx: SVal) -> SVal {
    match ctx {
        SVal::Byte(b) => SVal::Int(b.len() as int),
        _ => SVal::Unit,
    }
}

pub open spec fn byte_push(ctx: SVal, input: SVal) -> (SVal, SVal) {
    match (ctx, input) {
        (SVal::Byte(b), SVal::Byte(x)) => (SVal::Byte(b + x), SVal::Unit),
        _ => (ctx, SVal::Unit),
    }
}

/// The byte items of a list joined with a separator (unit: none); unit for other inputs.
pub open spec fn byte_join(input: SVal) -> SVal {
    match input {
        SVal::Pair(a, b) => {
            let sep = match *a {
                SVal::Unit => Some(Seq::<u8>::empty()),
                SVal::Byte(s) => Some(s),
                _ => None,
            };
            match (sep, *b) {
                (Some(sep), SVal::List(items)) => match byte_parts(items) {
                    Some(ps) => SVal::Byte(join_seqs(ps, sep)),
                    None => SVal::Unit,
                },
                _ => SVal::Unit,
            }
        },
        _ => SVal::Unit,
    }
}

pub proof fn lemma_byte_parts_none(items: Seq<SVal>, n: int)
    requires
        0 <= n <= items.len(),
        byte_parts(items.take(n)) is None,
    ensures
        byte_parts(items) is None,
    decreases items.len() - n,
{
    if n < items.len() {
        assert(items.take(n + 1).drop_last() =~= items.take(n));
        lemma_byte_parts_none(items, n + 1);
    } else {
        assert(items.take(n) =~= items);
    }
}

pub fn fn_length(ctx: &Val, _input: Val) -> (r: Val)
    ensures
        r@ == byte_length(ctx@),
{
    let Val::Byte(byte) = ctx else {
        return Val::Unit;
    };
    Val::Int(big_from_usize(byte.len()))
}

pub fn fn_push(ctx: &mut Val, input: Val) -> (r: Val)
    ensures
        (final(ctx)@, r@) == byte_push(old(ctx)@, input@),
{
    let Val::Byte(byte) = ctx else {
        return Val::Unit;
    };
    let Val::Byte(mut b) = input else {
        return Val::Unit;
    };
    byte.append(&mut b);
    Val::Unit
}

pub fn fn_join(input: Val) -> (r: Val)
    ensures
        r@ == byte_join(input@),
{
    reveal_with_fuel(crate::types::val::view_val, 2);
    let ghost input_v = input@;
    let Val::Pair(pair) = input else {
        return Val::Unit;
    };
    let pair = *pair;
    let separator: Vec<u8> = match pair.first {
        Val::Unit => Vec::new(),
        Val::Byte(b) => b,
        _ => {
            return Val::Unit;
        },
    };
    let Val::List(bytes) = pair.second else {
        return Val::Unit;
    };
    let ghost items = view_list(bytes@);
    proof {
        lemma_view_list(bytes@);
    }
    let mut out: Vec<u8> = Vec::new();
    let ghost mut parts: Seq<Seq<u8>> = Seq::empty();
    let mut i: usize = 0;
    while i < bytes.len()
        invariant
            i <= bytes@.len(),
            input_v == input@,
            byte_join(input_v) == (match byte_parts(items) {
                Some(ps) => SVal::Byte(join_seqs(ps, separator@)),
                None => SVal::Unit,
            }),
            items == view_list(bytes@),
            items.len() == bytes@.len(),
            forall|j: int| 0 <= j < bytes@.len() ==> #[trigger] items[j] == view_val(bytes@[j]),
            byte_parts(items.take(i as int)) == Some(parts),
            out@ == join_seqs(parts, separator@),
            parts.len() == i,
        decreases bytes@.len() - i,
    {
        proof {
            assert(items.take(i + 1).drop_last() =~= items.take(i as int));
        }
        match &bytes[i] {
            Val::Byte(b) => {
                proof {
                    lemma_join_push(parts, separator@, b@);
                }
                if i > 0 {
                    let mut s = copy_bytes(&separator);
                    out.append(&mut s);
                }
                let mut c = copy_bytes(b);
                out.append(&mut c);
                proof {
                    parts = parts.push(b@);
                }
            },
            _ => {
                proof {
                    lemma_byte_parts_none(items, i as int + 1);
                }
                return Val::Unit;
            },
        }
        i = i + 1;
    }
    proof {
        assert(items.take(i as int) =~= items);
    }
    Val::Byte(out)
}


/// The built-in functions of this module, by what they compute.
#[derive(Clone, Copy, PartialEq, Eq, Structural)]
pub enum ByteFn {
    Length,
    Push,
    Join,
}

/// What calling one of these functions does: the context after the call, and the result.
pub open spec fn run_spec(f: ByteFn, ctx: SVal, input: SVal) -> (SVal, SVal) {
    match f {
        ByteFn::Length => (ctx, byte_length(ctx)),
        ByteFn::Push => byte_push(ctx, input),
        ByteFn::Join => (ctx, byte_join(input)),
    }
}

/// Calls one of these functions on a context it may change.
pub fn run(f: ByteFn, ctx: &mut Val, input: Val) -> (r: Val)
    ensures
        (final(ctx)@, r@) == run_spec(f, old(ctx)@, input@),
{
    match f {
        ByteFn::Length => fn_length(&*ctx, input),
        ByteFn::Push => fn_push(ctx, input),
        ByteFn::Join => fn_join(input),
    }
}

} // verus!
