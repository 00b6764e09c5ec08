//! What the integer functions compute, stated over the integers.
use crate::laws::lemma_divide_remainder;
use crate::prelude::int_::{run_spec as int_run, IntFn};
use crate::types::val::{sval_pair, SVal};
use vstd::prelude::*;

verus! {

/// Sum, difference, product and the comparisons of two integers; anything but a
/// pair of integers gives unit.
pub proof fn lemma_int_arithmetic(ctx: SVal, a: int, b: int, other: SVal)
    ensures
        int_run(IntFn::Add, ctx, sval_pair(SVal::Int(a), SVal::Int(b))) == (ctx, SVal::Int(a + b)),
        int_run(IntFn::Subtract, ctx, sval_pair(SVal::Int(a), SVal::Int(b))) == (ctx, SVal::Int(a - b)),
        int_run(IntFn::Multiply, ctx, sval_pair(SVal::Int(a), SVal::Int(b))) == (ctx, SVal::Int(a * b)),
        int_run(IntFn::LessThan, ctx, sval_pair(SVal::Int(a), SVal::Int(b))) == (ctx, SVal::Bit(a < b)),
        int_run(IntFn::LessEqual, ctx, sval_pair(SVal::Int(a), SVal::Int(b))) == (ctx, SVal::Bit(a <= b)),
        int_run(IntFn::GreaterThan, ctx, sval_pair(SVal::Int(a), SVal::Int(b))) == (ctx, SVal::Bit(a > b)),
        int_run(IntFn::GreaterEqual, ctx, sval_pair(SVal::Int(a), SVal::Int(b))) == (ctx, SVal::Bit(a >= b)),
        int_run(IntFn::LessGreater, ctx, sval_pair(SVal::Int(a), SVal::Int(b))) == (ctx, SVal::Bit(a != b)),
        !(other is Pair) ==> int_run(IntFn::Add, ctx, other).1 == SVal::Unit,
{
}

/// Division of `a` by `b` rounds toward zero: quotient times divisor plus
/// remainder is `a`, the remainder is smaller than the divisor in size and has
/// the sign of `a` (or is zero); `DivideRemainder` gives both. Division by zero gives unit.
pub proof fn lemma_int_division(ctx: SVal, a: int, b: int)
    ensures
        b == 0 ==> int_run(IntFn::Divide, ctx, sval_pair(SVal::Int(a), SVal::Int(b))).1 == SVal::Unit,
        b == 0 ==> int_run(IntFn::Remainder, ctx, sval_pair(SVal::Int(a), SVal::Int(b))).1 == SVal::Unit,
        b != 0 ==> (int_run(IntFn::Divide, ctx, sval_pair(SVal::Int(a), SVal::Int(b))).1 matches SVal::Int(q)
            && int_run(IntFn::Remainder, ctx, sval_pair(SVal::Int(a), SVal::Int(b))).1 matches SVal::Int(r)
            && q * b + r == a
            && (if r >= 0 { r } else { -r }) < (if b >= 0 { b } else { -b })
            && (r == 0 || ((r > 0) == (a > 0)))
            && int_run(IntFn::DivideRemainder, ctx, sval_pair(SVal::Int(a), SVal::Int(b))).1 == sval_pair(
                SVal::Int(q),
                SVal::Int(r),
            )),
{
    if b != 0 {
        lemma_divide_remainder(a, b);
        let x = crate::types::bigint::abs(a);
        let y = crate::types::bigint::abs(b);
        assert(0 <= x % y < y) by (nonlinear_arith)
            requires
                y > 0,
        ;
    }
}

} // verus!
