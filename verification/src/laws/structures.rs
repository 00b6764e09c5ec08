//! What building the two-part and wrapped values and reading or replacing their
//! parts do.
use crate::prelude::abstract1::{run_spec as abstract_run, AbstractFn};
use crate::prelude::adapt::{run_spec as adapt_run, AdaptFn};
use crate::prelude::annotate::{run_spec as annotate_run, AnnotateFn};
use crate::prelude::change::{run_spec as change_run, ChangeFn};
use crate::prelude::class::{run_spec as class_run, ClassFn};
use crate::prelude::comment::{run_spec as comment_run, CommentFn};
use crate::prelude::either::{run_spec as either_run, EitherFn};
use crate::prelude::inverse::{run_spec as inverse_run, InverseFn};
use crate::prelude::str_::{run_spec as str_run, StrFn};
use crate::prelude::text::text_join;
use crate::types::val::{sval_pair, SVal};
use vstd::prelude::*;

verus! {

/// `change` from `(from, to)` reads back `from` and `to`; replacing either part
/// gives back the old one and the new one reads back, the other part staying.
pub proof fn lemma_change_parts(ctx: SVal, a: SVal, b: SVal, v: SVal)
    ensures
        ({
            let x = change_run(ChangeFn::New, ctx, sval_pair(a, b)).1;
            let (x1, o1) = change_run(ChangeFn::SetFrom, x, v);
            let (x2, o2) = change_run(ChangeFn::SetTo, x, v);
            &&& change_run(ChangeFn::GetFrom, x, SVal::Unit).1 == a
            &&& change_run(ChangeFn::GetTo, x, SVal::Unit).1 == b
            &&& o1 == a && change_run(ChangeFn::GetFrom, x1, SVal::Unit).1 == v
                && change_run(ChangeFn::GetTo, x1, SVal::Unit).1 == b
            &&& o2 == b && change_run(ChangeFn::GetTo, x2, SVal::Unit).1 == v
                && change_run(ChangeFn::GetFrom, x2, SVal::Unit).1 == a
        }),
{
}

/// `adapt` from `(spec, value)`: the parts read back and are replaced one at a time.
pub proof fn lemma_adapt_parts(ctx: SVal, a: SVal, b: SVal, v: SVal)
    ensures
        ({
            let x = adapt_run(AdaptFn::New, ctx, sval_pair(a, b)).1;
            let (x1, o1) = adapt_run(AdaptFn::SetSpec, x, v);
            let (x2, o2) = adapt_run(AdaptFn::SetValue, x, v);
            &&& adapt_run(AdaptFn::GetSpec, x, SVal::Unit).1 == a
            &&& adapt_run(AdaptFn::GetValue, x, SVal::Unit).1 == b
            &&& o1 == a && adapt_run(AdaptFn::GetSpec, x1, SVal::Unit).1 == v
                && adapt_run(AdaptFn::GetValue, x1, SVal::Unit).1 == b
            &&& o2 == b && adapt_run(AdaptFn::GetValue, x2, SVal::Unit).1 == v
                && adapt_run(AdaptFn::GetSpec, x2, SVal::Unit).1 == a
        }),
{
}

/// `annotate` and `comment` from `(note, value)`: the parts read back and are
/// replaced one at a time.
pub proof fn lemma_note_parts(ctx: SVal, a: SVal, b: SVal, v: SVal)
    ensures
        ({
            let x = annotate_run(AnnotateFn::New, ctx, sval_pair(a, b)).1;
            let (x1, o1) = annotate_run(AnnotateFn::SetNote, x, v);
            let (x2, o2) = annotate_run(AnnotateFn::SetValue, x, v);
            &&& annotate_run(AnnotateFn::GetNote, x, SVal::Unit).1 == a
            &&& annotate_run(AnnotateFn::GetValue, x, SVal::Unit).1 == b
            &&& o1 == a && annotate_run(AnnotateFn::GetNote, x1, SVal::Unit).1 == v
                && annotate_run(AnnotateFn::GetValue, x1, SVal::Unit).1 == b
            &&& o2 == b && annotate_run(AnnotateFn::GetValue, x2, SVal::Unit).1 == v
                && annotate_run(AnnotateFn::GetNote, x2, SVal::Unit).1 == a
        }),
        ({
            let x = comment_run(CommentFn::New, ctx, sval_pair(a, b)).1;
            let (x1, o1) = comment_run(CommentFn::SetNote, x, v);
            let (x2, o2) = comment_run(CommentFn::SetValue, x, v);
            &&& comment_run(CommentFn::GetNote, x, SVal::Unit).1 == a
            &&& comment_run(CommentFn::GetValue, x, SVal::Unit).1 == b
            &&& o1 == a && comment_run(CommentFn::GetNote, x1, SVal::Unit).1 == v
                && comment_run(CommentFn::GetValue, x1, SVal::Unit).1 == b
            &&& o2 == b && comment_run(CommentFn::GetValue, x2, SVal::Unit).1 == v
                && comment_run(CommentFn::GetNote, x2, SVal::Unit).1 == a
        }),
{
}

/// `abstract`, `class` and `inverse` wrap a function: it reads back, and
/// replacing it gives back the old one while the new one reads back.
pub proof fn lemma_wrapped_function(ctx: SVal, f: SVal, g: SVal)
    ensures
        ({
            let x = abstract_run(AbstractFn::New, ctx, f).1;
            let (x1, o) = abstract_run(AbstractFn::SetFunction, x, g);
            abstract_run(AbstractFn::GetFunction, x, SVal::Unit).1 == f && o == f
                && abstract_run(AbstractFn::GetFunction, x1, SVal::Unit).1 == g
        }),
        ({
            let x = class_run(ClassFn::New, ctx, f).1;
            let (x1, o) = class_run(ClassFn::SetFunc, x, g);
            class_run(ClassFn::GetFunc, x, SVal::Unit).1 == f && o == f && class_run(ClassFn::GetFunc, x1, SVal::Unit).1
                == g
        }),
        ({
            let x = inverse_run(InverseFn::New, ctx, f).1;
            let (x1, o) = inverse_run(InverseFn::SetFunc, x, g);
            inverse_run(InverseFn::GetFunc, x, SVal::Unit).1 == f && o == f && inverse_run(
                InverseFn::GetFunc,
                x1,
                SVal::Unit,
            ).1 == g
        }),
{
}

/// `this` and `that` wrap a value on one side: the side is told apart, the value
/// reads back, and replacing it keeps the side and gives back the old value.
pub proof fn lemma_either_sides(ctx: SVal, v: SVal, w: SVal)
    ensures
        ({
            let x = either_run(EitherFn::This, ctx, v).1;
            let y = either_run(EitherFn::That, ctx, v).1;
            let (x1, o) = either_run(EitherFn::Replace, x, w);
            &&& either_run(EitherFn::IsThis, x, SVal::Unit).1 == SVal::Bit(true)
            &&& either_run(EitherFn::IsThat, x, SVal::Unit).1 == SVal::Bit(false)
            &&& either_run(EitherFn::IsThis, y, SVal::Unit).1 == SVal::Bit(false)
            &&& either_run(EitherFn::IsThat, y, SVal::Unit).1 == SVal::Bit(true)
            &&& either_run(EitherFn::Get, x, SVal::Unit).1 == v && either_run(EitherFn::Get, y, SVal::Unit).1 == v
            &&& o == v && either_run(EitherFn::Get, x1, SVal::Unit).1 == w
                && either_run(EitherFn::IsThis, x1, SVal::Unit).1 == SVal::Bit(true)
        }),
{
}

/// `str.concat` puts texts one after another: it is joining them with no separator.
pub proof fn lemma_concat_is_join(ctx: SVal, items: Seq<SVal>)
    ensures
        str_run(StrFn::Concat, ctx, SVal::List(items)).1 == text_join(sval_pair(SVal::Unit, SVal::List(items))),
{
}

} // verus!
