//! What building calls and reading or replacing their parts do.
use crate::prelude::call::{run_spec as call_run, CallFn};
use crate::prelude::pair::{run_spec as pair_run, PairFn};
use crate::prelude::task::{run_spec as task_run, TaskFn};
use crate::types::val::{sval_pair, SVal};
use vstd::prelude::*;

verus! {

/// A call built by `call` from `(function, input)` reads back that function and
/// that input, has unit for context, and is forward; `call.reverse` builds the
/// same call marked reverse.
pub proof fn lemma_new_call_parts(ctx: SVal, f: SVal, i: SVal)
    ensures
        ({
            let c = call_run(CallFn::NewForward, ctx, sval_pair(f, i)).1;
            &&& call_run(CallFn::Func, c, SVal::Unit).1 == f
            &&& call_run(CallFn::Input, c, SVal::Unit).1 == i
            &&& call_run(CallFn::Ctx, c, SVal::Unit).1 == SVal::Unit
            &&& call_run(CallFn::IsReverse, c, SVal::Unit).1 == SVal::Bit(false)
        }),
        ({
            let c = call_run(CallFn::NewReverse, ctx, sval_pair(f, i)).1;
            &&& call_run(CallFn::Func, c, SVal::Unit).1 == f
            &&& call_run(CallFn::Input, c, SVal::Unit).1 == i
            &&& call_run(CallFn::IsReverse, c, SVal::Unit).1 == SVal::Bit(true)
        }),
{
}

/// Replacing one part of a call gives back the old part, and reading the parts
/// afterwards gives the new one and the others unchanged; the direction stays.
pub proof fn lemma_call_set_parts(rev: bool, f: SVal, c: SVal, i: SVal, v: SVal)
    ensures
        ({
            let x = SVal::Call(rev, Box::new(f), Box::new(c), Box::new(i));
            let (x1, o1) = call_run(CallFn::SetFunc, x, v);
            let (x2, o2) = call_run(CallFn::SetCtx, x, v);
            let (x3, o3) = call_run(CallFn::SetInput, x, v);
            &&& o1 == f && o2 == c && o3 == i
            &&& call_run(CallFn::Func, x1, SVal::Unit).1 == v && call_run(CallFn::Ctx, x1, SVal::Unit).1 == c
                && call_run(CallFn::Input, x1, SVal::Unit).1 == i
            &&& call_run(CallFn::Func, x2, SVal::Unit).1 == f && call_run(CallFn::Ctx, x2, SVal::Unit).1 == v
                && call_run(CallFn::Input, x2, SVal::Unit).1 == i
            &&& call_run(CallFn::Func, x3, SVal::Unit).1 == f && call_run(CallFn::Ctx, x3, SVal::Unit).1 == c
                && call_run(CallFn::Input, x3, SVal::Unit).1 == v
            &&& call_run(CallFn::IsReverse, x1, SVal::Unit).1 == SVal::Bit(rev)
            &&& task_run(TaskFn::SetFunc, x, v) == (x1, o1)
            &&& task_run(TaskFn::SetCtx, x, v) == (x2, o2)
            &&& task_run(TaskFn::SetInput, x, v) == (x3, o3)
            &&& task_run(TaskFn::Func, x, SVal::Unit).1 == f && task_run(TaskFn::Ctx, x, SVal::Unit).1 == c
                && task_run(TaskFn::Input, x, SVal::Unit).1 == i
            &&& task_run(TaskFn::IsSolve, x, SVal::Unit).1 == SVal::Bit(rev)
        }),
{
}

/// `pair` gives back a pair as it is, and its parts read back; anything else gives unit.
pub proof fn lemma_new_pair(ctx: SVal, a: SVal, b: SVal, other: SVal)
    ensures
        pair_run(PairFn::New, ctx, sval_pair(a, b)).1 == sval_pair(a, b),
        pair_run(PairFn::First, sval_pair(a, b), SVal::Unit).1 == a,
        pair_run(PairFn::Second, sval_pair(a, b), SVal::Unit).1 == b,
        !(other is Pair) ==> pair_run(PairFn::New, ctx, other).1 == SVal::Unit,
{
}

} // verus!
