//! What `==` says of two values.
use crate::prelude::value::{run_spec as value_run, ValueFn};
use crate::types::val::{sval_pair, SVal};
use crate::types::vars::{var_get, Vars};
use vstd::prelude::*;

verus! {

/// `==` in a context: two plain values are equal exactly when they are the same
/// value; the order of the sides does not matter; a name stands for its value in
/// the context, so a bound name equals its value.
pub proof fn lemma_equal(vars: Vars, a: SVal, b: SVal, n: Seq<char>)
    requires
        !(a is Symbol),
        !(b is Symbol),
    ensures
        value_run(ValueFn::Equal, SVal::Ctx(vars), sval_pair(a, b)).1 == SVal::Bit(a == b),
        value_run(ValueFn::Equal, SVal::Ctx(vars), sval_pair(a, b)) == value_run(
            ValueFn::Equal,
            SVal::Ctx(vars),
            sval_pair(b, a),
        ),
        n.len() > 0 && n[0] != '*' && n[0] != '#' && var_get(vars, n) == Some(a) ==> value_run(
            ValueFn::Equal,
            SVal::Ctx(vars),
            sval_pair(SVal::Symbol(n), a),
        ).1 == SVal::Bit(true),
{
}

} // verus!
