//! Calling a built-in function: each built-in function value names the computation it performs.
use crate::types::val::{FuncVal, SVal, Val};
use vstd::prelude::*;

verus! {

/// Which built-in computation a function value performs.
#[derive(Clone, Copy, PartialEq, Eq, Structural)]
pub enum Prim {
    Abstract(crate::prelude::abstract1::AbstractFn),
    Adapt(crate::prelude::adapt::AdaptFn),
    Annotate(crate::prelude::annotate::AnnotateFn),
    Annotation(crate::prelude::annotation::AnnotationFn),
    Bit(crate::prelude::bit::BitFn),
    Bool(crate::prelude::bool::BoolFn),
    Byte(crate::prelude::byte::ByteFn),
    Call(crate::prelude::call::CallFn),
    Change(crate::prelude::change::ChangeFn),
    Class(crate::prelude::class::ClassFn),
    Comment(crate::prelude::comment::CommentFn),
    Ctx(crate::prelude::ctx::CtxFn),
    Either(crate::prelude::either::EitherFn),
    Func(crate::prelude::func::FuncFn),
    Int(crate::prelude::int_::IntFn),
    Inverse(crate::prelude::inverse::InverseFn),
    List(crate::prelude::list::ListFn),
    Dict(crate::prelude::map::MapFn),
    Mode(crate::prelude::mode::ModeFn),
    Pair(crate::prelude::pair::PairFn),
    Reverse(crate::prelude::reverse::ReverseFn),
    Str(crate::prelude::str_::StrFn),
    Symbol(crate::prelude::symbol::SymbolFn),
    Task(crate::prelude::task::TaskFn),
    Text(crate::prelude::text::TextFn),
    Unit(crate::prelude::unit::UnitFn),
    Value(crate::prelude::value::ValueFn),
}

/// Calls a function value on a context it may change and an input. A built-in
/// function performs its computation; a function with no built-in computation
/// (one written in the language, a mode made into a function, or one made by
/// name alone) is not run here: the result is `None` and the context is unchanged.
/// Each clause below gives the computation of one group, as that group's `run_spec`.
pub fn apply_prim(f: &FuncVal, ctx: &mut Val, input: Val) -> (r: Option<Val>)
    ensures
        f.prim matches Some(Prim::Abstract(g)) ==> (r matches Some(x) && (final(ctx)@, x@) == crate::prelude::abstract1::run_spec(g, old(ctx)@, input@)),
        f.prim matches Some(Prim::Adapt(g)) ==> (r matches Some(x) && (final(ctx)@, x@) == crate::prelude::adapt::run_spec(g, old(ctx)@, input@)),
        f.prim matches Some(Prim::Annotate(g)) ==> (r matches Some(x) && (final(ctx)@, x@) == crate::prelude::annotate::run_spec(g, old(ctx)@, input@)),
        f.prim matches Some(Prim::Annotation(g)) ==> (r matches Some(x) && (final(ctx)@, x@) == crate::prelude::annotation::run_spec(g, old(ctx)@, input@)),
        f.prim matches Some(Prim::Bit(g)) ==> (r matches Some(x) && (final(ctx)@, x@) == crate::prelude::bit::run_spec(g, old(ctx)@, input@)),
        f.prim matches Some(Prim::Bool(g)) ==> (r matches Some(x) && (final(ctx)@, x@) == crate::prelude::bool::run_spec(g, old(ctx)@, input@)),
        f.prim matches Some(Prim::Byte(g)) ==> (r matches Some(x) && (final(ctx)@, x@) == crate::prelude::byte::run_spec(g, old(ctx)@, input@)),
        f.prim matches Some(Prim::Call(g)) ==> (r matches Some(x) && (final(ctx)@, x@) == crate::prelude::call::run_spec(g, old(ctx)@, input@)),
        f.prim matches Some(Prim::Change(g)) ==> (r matches Some(x) && (final(ctx)@, x@) == crate::prelude::change::run_spec(g, old(ctx)@, input@)),
        f.prim matches Some(Prim::Class(g)) ==> (r matches Some(x) && (final(ctx)@, x@) == crate::prelude::class::run_spec(g, old(ctx)@, input@)),
        f.prim matches Some(Prim::Comment(g)) ==> (r matches Some(x) && (final(ctx)@, x@) == crate::prelude::comment::run_spec(g, old(ctx)@, input@)),
        f.prim matches Some(Prim::Ctx(g)) ==> (r matches Some(x) && (final(ctx)@, x@) == crate::prelude::ctx::run_spec(g, old(ctx)@, input@)),
        f.prim matches Some(Prim::Either(g)) ==> (r matches Some(x) && (final(ctx)@, x@) == crate::prelude::either::run_spec(g, old(ctx)@, input@)),
        f.prim matches Some(Prim::Func(g)) ==> (r matches Some(x) && (final(ctx)@, x@) == crate::prelude::func::run_spec(g, old(ctx)@, input@)),
        f.prim matches Some(Prim::Int(g)) ==> (r matches Some(x) && (final(ctx)@, x@) == crate::prelude::int_::run_spec(g, old(ctx)@, input@)),
        f.prim matches Some(Prim::Inverse(g)) ==> (r matches Some(x) && (final(ctx)@, x@) == crate::prelude::inverse::run_spec(g, old(ctx)@, input@)),
        f.prim matches Some(Prim::List(g)) ==> (r matches Some(x) && (final(ctx)@, x@) == crate::prelude::list::run_spec(g, old(ctx)@, input@)),
        f.prim matches Some(Prim::Dict(g)) ==> (r matches Some(x) && (final(ctx)@, x@) == crate::prelude::map::run_spec(g, old(ctx)@, input@)),
        f.prim matches Some(Prim::Mode(g)) ==> (r matches Some(x) && (final(ctx)@, x@) == crate::prelude::mode::run_spec(g, old(ctx)@, input@)),
        f.prim matches Some(Prim::Pair(g)) ==> (r matches Some(x) && (final(ctx)@, x@) == crate::prelude::pair::run_spec(g, old(ctx)@, input@)),
        f.prim matches Some(Prim::Reverse(g)) ==> (r matches Some(x) && (final(ctx)@, x@) == crate::prelude::reverse::run_spec(g, old(ctx)@, input@)),
        f.prim matches Some(Prim::Str(g)) ==> (r matches Some(x) && (final(ctx)@, x@) == crate::prelude::str_::run_spec(g, old(ctx)@, input@)),
        f.prim matches Some(Prim::Symbol(g)) ==> (r matches Some(x) && (final(ctx)@, x@) == crate::prelude::symbol::run_spec(g, old(ctx)@, input@)),
        f.prim matches Some(Prim::Task(g)) ==> (r matches Some(x) && (final(ctx)@, x@) == crate::prelude::task::run_spec(g, old(ctx)@, input@)),
        f.prim matches Some(Prim::Text(g)) ==> (r matches Some(x) && (final(ctx)@, x@) == crate::prelude::text::run_spec(g, old(ctx)@, input@)),
        f.prim matches Some(Prim::Unit(g)) ==> (r matches Some(x) && (final(ctx)@, x@) == crate::prelude::unit::run_spec(g, old(ctx)@, input@)),
        f.prim matches Some(Prim::Value(g)) ==> (r matches Some(x) && (final(ctx)@, x@) == crate::prelude::value::run_spec(g, old(ctx)@, input@)),
        f.prim is None ==> (r is None && final(ctx)@ == old(ctx)@),
{
    match f.prim {
        None => None,
        Some(p) => Some(
            match p {
                Prim::Abstract(g) => crate::prelude::abstract1::run(g, ctx, input),
                Prim::Adapt(g) => crate::prelude::adapt::run(g, ctx, input),
                Prim::Annotate(g) => crate::prelude::annotate::run(g, ctx, input),
                Prim::Annotation(g) => crate::prelude::annotation::run(g, ctx, input),
                Prim::Bit(g) => crate::prelude::bit::run(g, ctx, input),
                Prim::Bool(g) => crate::prelude::bool::run(g, ctx, input),
                Prim::Byte(g) => crate::prelude::byte::run(g, ctx, input),
                Prim::Call(g) => crate::prelude::call::run(g, ctx, input),
                Prim::Change(g) => crate::prelude::change::run(g, ctx, input),
                Prim::Class(g) => crate::prelude::class::run(g, ctx, input),
                Prim::Comment(g) => crate::prelude::comment::run(g, ctx, input),
                Prim::Ctx(g) => crate::prelude::ctx::run(g, ctx, input),
                Prim::Either(g) => crate::prelude::either::run(g, ctx, input),
                Prim::Func(g) => crate::prelude::func::run(g, ctx, input),
                Prim::Int(g) => crate::prelude::int_::run(g, ctx, input),
                Prim::Inverse(g) => crate::prelude::inverse::run(g, ctx, input),
                Prim::List(g) => crate::prelude::list::run(g, ctx, input),
                Prim::Dict(g) => crate::prelude::map::run(g, ctx, input),
                Prim::Mode(g) => crate::prelude::mode::run(g, ctx, input),
                Prim::Pair(g) => crate::prelude::pair::run(g, ctx, input),
                Prim::Reverse(g) => crate::prelude::reverse::run(g, ctx, input),
                Prim::Str(g) => crate::prelude::str_::run(g, ctx, input),
                Prim::Symbol(g) => crate::prelude::symbol::run(g, ctx, input),
                Prim::Task(g) => crate::prelude::task::run(g, ctx, input),
                Prim::Text(g) => crate::prelude::text::run(g, ctx, input),
                Prim::Unit(g) => crate::prelude::unit::run(g, ctx, input),
                Prim::Value(g) => crate::prelude::value::run(g, ctx, input),
            },
        ),
    }
}

} // verus!
