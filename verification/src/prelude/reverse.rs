//! Reverse records: a function and the output wanted of it.
use crate::prelude::setup::{default_dyn_mode, default_free_mode};
use crate::prelude::{func_sval, prim_func, prim_model, put_func, spec_default_mode, Prelude};
use crate::types::dict::dict_insert;
use crate::types::val::{CtxAccess, FuncVal, SVal, Val, ValMap};
use crate::types::record::{node_from_pair, node_get, node_get_field, node_new, node_set, node_set_field, wrap_get, wrap_get_field, wrap_set, wrap_set_field};
use crate::types::val::{NodeKind, WrapKind};
use crate::prelude::apply::Prim;
use vstd::prelude::*;

verus! {

pub struct ReversePrelude {
    pub new: FuncVal,
    pub reverse: FuncVal,
}

impl Default for ReversePrelude {
    fn default() -> (r: Self)
        ensures
            func_sval(r.new) == prim_model("reverse"@, CtxAccess::Free, spec_default_mode(), spec_default_mode(), Some(Prim::Reverse(crate::prelude::reverse::ReverseFn::New))),
            func_sval(r.reverse) == prim_model("??"@, CtxAccess::Mut, spec_default_mode(), spec_default_mode(), None),
    {
        ReversePrelude {
            new: self::new(),
            reverse: self::reverse(),
        }
    }
}

impl Prelude for ReversePrelude {
    fn put(&self, ctx: &mut ValMap)
        ensures
            final(ctx).view() == dict_insert(dict_insert(old(ctx).view(), SVal::Symbol(self.new.id@), func_sval(self.new)), SVal::Symbol(self.reverse.id@), func_sval(self.reverse)),
    {
        put_func(ctx, &self.new);
        put_func(ctx, &self.reverse);
    }
}

/// `reverse`: the reverse record made of a pair.
pub fn new() -> (f: FuncVal)
    ensures
        func_sval(f) == prim_model("reverse"@, CtxAccess::Free, spec_default_mode(), spec_default_mode(), Some(Prim::Reverse(crate::prelude::reverse::ReverseFn::New))),
{
    prim_func("reverse", CtxAccess::Free, default_free_mode(), Some(Prim::Reverse(crate::prelude::reverse::ReverseFn::New)))
}

/// `??`: solves a reverse record; the solving it needs lies outside this library.
pub fn reverse() -> (f: FuncVal)
    ensures
        func_sval(f) == prim_model("??"@, CtxAccess::Mut, spec_default_mode(), spec_default_mode(), None),
{
    prim_func("??", CtxAccess::Mut, default_dyn_mode(), None)
}

/// The reverse record made of a pair of function and output.
pub fn fn_new(input: Val) -> (r: Val)
    ensures
        r@ == node_new(NodeKind::Reverse, input@),
{
    node_from_pair(NodeKind::Reverse, input)
}


/// The built-in functions of this module, by what they compute.
#[derive(Clone, Copy, PartialEq, Eq, Structural)]
pub enum ReverseFn {
    New,
}

/// What calling one of these functions does: the context after the call, and the result.
pub open spec fn run_spec(f: ReverseFn, ctx: SVal, input: SVal) -> (SVal, SVal) {
    match f {
        ReverseFn::New => (ctx, node_new(NodeKind::Reverse, input)),
    }
}

/// Calls one of these functions on a context it may change.
pub fn run(f: ReverseFn, ctx: &mut Val, input: Val) -> (r: Val)
    ensures
        (final(ctx)@, r@) == run_spec(f, old(ctx)@, input@),
{
    match f {
        ReverseFn::New => fn_new(input),
    }
}

} // verus!
