//! What binding, reading and moving names in a context do, stated name by name.
use crate::laws::patterns::plain_name;
use crate::prelude::ctx::pattern::{is_literal_symbol, pattern_name};
use crate::prelude::ctx::{ctx_is_null, ctx_read, run_spec as ctx_run, CtxFn};
use crate::types::val::{sval_pair, Contract, SVal};
use crate::types::vars::{can_assign, lemma_var_index, var_get, var_index, Vars};
use vstd::prelude::*;

verus! {

/// `=` on a fresh plain name binds it: reading the name gives the value, it is
/// no longer null, the other names read as before, and moving it out gives the
/// value back and leaves the context as it was.
pub proof fn lemma_assign_fresh_then_read_move(vars: Vars, n: Seq<char>, v: SVal, other: Seq<char>)
    requires
        plain_name(n),
        var_index(vars, n) < 0,
    ensures
        ({
            let (c1, old) = ctx_run(CtxFn::Assign, SVal::Ctx(vars), sval_pair(SVal::Symbol(n), v));
            &&& old == SVal::Unit
            &&& ctx_read(c1, SVal::Symbol(n)) == v
            &&& ctx_is_null(c1, SVal::Symbol(n)) == SVal::Bit(false)
            &&& other != n ==> ctx_read(c1, SVal::Symbol(other)) == ctx_read(SVal::Ctx(vars), SVal::Symbol(other))
            &&& ctx_run(CtxFn::Move, c1, SVal::Symbol(n)) == (SVal::Ctx(vars), v)
        }),
{
    assert(!is_literal_symbol(n) && pattern_name(n) == n);
    let t = vars.push((n, Contract::Open, v));
    assert(t.drop_last() =~= vars);
    assert(var_index(t, n) == vars.len());
    assert(t.remove(vars.len() as int) =~= vars);
    if other != n {
        lemma_var_index(vars, other);
        let i = var_index(vars, other);
        if i >= 0 {
            assert(t[i] == vars[i]);
        }
    }
}

/// `=` on a bound name whose contract allows assignment replaces its value:
/// reading it gives the new value, and the old value is given back.
pub proof fn lemma_assign_bound_then_read(vars: Vars, n: Seq<char>, v: SVal)
    requires
        plain_name(n),
        var_index(vars, n) >= 0,
        can_assign(vars[var_index(vars, n)].1),
    ensures
        ({
            let (c1, old) = ctx_run(CtxFn::Assign, SVal::Ctx(vars), sval_pair(SVal::Symbol(n), v));
            &&& Some(old) == var_get(vars, n)
            &&& ctx_read(c1, SVal::Symbol(n)) == v
        }),
{
    assert(!is_literal_symbol(n) && pattern_name(n) == n);
    lemma_var_index(vars, n);
    let i = var_index(vars, n);
    let t = vars.update(i, (n, vars[i].1, v));
    lemma_var_index(t, n);
    assert(t[i].0 == n);
    if var_index(t, n) != i {
        assert(var_index(t, n) > i ==> t[var_index(t, n)] == vars[var_index(t, n)]);
    }
    crate::types::vars::lemma_put_get(vars, n, v, Contract::Open);
}

} // verus!
