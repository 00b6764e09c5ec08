//! Annotations: a note in front of a value.
use crate::prelude::setup::{default_dyn_mode, default_free_mode};
use crate::prelude::{func_sval, prim_func, prim_model, put_func, spec_default_mode, Prelude};
use crate::types::dict::dict_insert;
use crate::types::val::{CtxAccess, FuncVal, SVal, Val, ValMap};
use crate::prelude::apply::Prim;
use vstd::prelude::*;

verus! {

pub struct AnnotationPrelude {
    pub new: FuncVal,
}

impl Default for AnnotationPrelude {
    fn default() -> (r: Self)
        ensures
            func_sval(r.new) == prim_model("annotation"@, CtxAccess::Free, spec_default_mode(), spec_default_mode(), Some(Prim::Annotation(crate::prelude::annotation::AnnotationFn::New))),
    {
        AnnotationPrelude {
            new: self::new(),
        }
    }
}

impl Prelude for AnnotationPrelude {
    fn put(&self, ctx: &mut ValMap)
        ensures
            final(ctx).view() == dict_insert(old(ctx).view(), SVal::Symbol(self.new.id@), func_sval(self.new)),
    {
        put_func(ctx, &self.new);
    }
}

/// `annotation`: drops the note of a pair and keeps the value.
pub fn new() -> (f: FuncVal)
    ensures
        func_sval(f) == prim_model("annotation"@, CtxAccess::Free, spec_default_mode(), spec_default_mode(), Some(Prim::Annotation(crate::prelude::annotation::AnnotationFn::New))),
{
    prim_func("annotation", CtxAccess::Free, default_free_mode(), Some(Prim::Annotation(crate::prelude::annotation::AnnotationFn::New)))
}

/// An annotation: the second item of a pair; the first is the note and is dropped.
pub fn fn_new(input: Val) -> (r: Val)
    ensures
        r@ == (match input@ {
            SVal::Pair(a, b) => *b,
            _ => SVal::Unit,
        }),
{
    let Val::Pair(pair) = input else {
        return Val::Unit;
    };
    let pair = *pair;
    pair.second
}


/// The built-in functions of this module, by what they compute.
#[derive(Clone, Copy, PartialEq, Eq, Structural)]
pub enum AnnotationFn {
    New,
}

/// What calling one of these functions does: the context after the call, and the result.
pub open spec fn run_spec(f: AnnotationFn, ctx: SVal, input: SVal) -> (SVal, SVal) {
    match f {
        AnnotationFn::New => (ctx, (match input { SVal::Pair(a, b) => *b, _ => SVal::Unit, })),
    }
}

/// Calls one of these functions on a context it may change.
pub fn run(f: AnnotationFn, ctx: &mut Val, input: Val) -> (r: Val)
    ensures
        (final(ctx)@, r@) == run_spec(f, old(ctx)@, input@),
{
    match f {
        AnnotationFn::New => fn_new(input),
    }
}

} // verus!
