//! What assigning a pattern binds, stated name by name.
use crate::prelude::ctx::pattern::{ctx_put, is_literal_symbol, pat_assign, pattern_name};
use crate::types::val::{sval_pair, Contract, SVal};
use crate::types::vars::{var_get, var_index, var_put, Vars};
use vstd::prelude::*;

verus! {

/// A name that binds itself: it starts with neither `*` nor `#`.
pub open spec fn plain_name(s: Seq<char>) -> bool {
    s.len() > 0 ==> (s[0] != '*' && s[0] != '#')
}

proof fn lemma_put_fresh(vars: Vars, n: Seq<char>, v: SVal, m: Seq<char>)
    requires
        var_index(vars, n) < 0,
    ensures
        var_put(vars, n, v, Contract::Open) == Some((vars.push((n, Contract::Open, v)), None::<SVal>)),
        var_get(vars.push((n, Contract::Open, v)), n) == Some(v),
        m != n ==> var_index(vars.push((n, Contract::Open, v)), m) == var_index(vars, m),
        m != n ==> var_get(vars.push((n, Contract::Open, v)), m) == var_get(vars, m),
{
    let t = vars.push((n, Contract::Open, v));
    assert(t.drop_last() =~= vars);
    if m != n {
        let i = var_index(vars, m);
        crate::types::vars::lemma_var_index(vars, m);
        if i >= 0 {
            assert(t[i] == vars[i]);
        }
    }
}

/// Assigning a call pattern of three distinct plain names, in a context where
/// none of them is bound yet, to a call of the same direction binds the first
/// name to the call's function, the second to its context and the third to its
/// input.
pub proof fn lemma_assign_call_binds_parts(
    vars: Vars,
    rev: bool,
    f: Seq<char>,
    c: Seq<char>,
    x: Seq<char>,
    vf: SVal,
    vc: SVal,
    vi: SVal,
)
    requires
        plain_name(f),
        plain_name(c),
        plain_name(x),
        f != c,
        f != x,
        c != x,
        var_index(vars, f) < 0,
        var_index(vars, c) < 0,
        var_index(vars, x) < 0,
    ensures
        pat_assign(
            SVal::Call(rev, Box::new(SVal::Symbol(f)), Box::new(SVal::Symbol(c)), Box::new(SVal::Symbol(x))),
            SVal::Ctx(vars),
            SVal::Call(rev, Box::new(vf), Box::new(vc), Box::new(vi)),
        ).0 matches SVal::Ctx(t) && var_get(t, f) == Some(vf) && var_get(t, c) == Some(vc) && var_get(t, x)
            == Some(vi),
{
    assert(pattern_name(f) == f && pattern_name(c) == c && pattern_name(x) == x);
    let v1 = vars.push((f, Contract::Open, vf));
    let v2 = v1.push((c, Contract::Open, vc));
    let v3 = v2.push((x, Contract::Open, vi));
    lemma_put_fresh(vars, f, vf, c);
    lemma_put_fresh(vars, f, vf, x);
    lemma_put_fresh(v1, c, vc, x);
    lemma_put_fresh(v1, c, vc, f);
    lemma_put_fresh(v2, x, vi, f);
    lemma_put_fresh(v2, x, vi, c);
    assert(!is_literal_symbol(f) && !is_literal_symbol(c) && !is_literal_symbol(x));
    assert(ctx_put(SVal::Ctx(vars), f, vf) == (SVal::Ctx(v1), SVal::Unit));
    assert(pat_assign(SVal::Symbol(f), SVal::Ctx(vars), vf) == (SVal::Ctx(v1), SVal::Unit));
    assert(ctx_put(SVal::Ctx(v1), c, vc) == (SVal::Ctx(v2), SVal::Unit));
    assert(pat_assign(SVal::Symbol(c), SVal::Ctx(v1), vc) == (SVal::Ctx(v2), SVal::Unit));
    assert(ctx_put(SVal::Ctx(v2), x, vi) == (SVal::Ctx(v3), SVal::Unit));
    assert(pat_assign(SVal::Symbol(x), SVal::Ctx(v2), vi) == (SVal::Ctx(v3), SVal::Unit));
}

/// Assigning a pair pattern of two distinct plain names, in a context where
/// neither is bound yet, to a pair binds the first name to the pair's first part
/// and the second name to its second part.
pub proof fn lemma_assign_pair_binds_parts(vars: Vars, a: Seq<char>, b: Seq<char>, va: SVal, vb: SVal)
    requires
        plain_name(a),
        plain_name(b),
        a != b,
        var_index(vars, a) < 0,
        var_index(vars, b) < 0,
    ensures
        pat_assign(sval_pair(SVal::Symbol(a), SVal::Symbol(b)), SVal::Ctx(vars), sval_pair(va, vb)).0 matches SVal::Ctx(
            t,
        ) && var_get(t, a) == Some(va) && var_get(t, b) == Some(vb),
{
    assert(pattern_name(a) == a && pattern_name(b) == b);
    let v1 = vars.push((a, Contract::Open, va));
    lemma_put_fresh(vars, a, va, b);
    lemma_put_fresh(v1, b, vb, a);
    let v2 = v1.push((b, Contract::Open, vb));
    assert(!is_literal_symbol(a) && !is_literal_symbol(b));
    assert(ctx_put(SVal::Ctx(vars), a, va) == (SVal::Ctx(v1), SVal::Unit));
    assert(pat_assign(SVal::Symbol(a), SVal::Ctx(vars), va) == (SVal::Ctx(v1), SVal::Unit));
    assert(ctx_put(SVal::Ctx(v1), b, vb) == (SVal::Ctx(v2), SVal::Unit));
    assert(pat_assign(SVal::Symbol(b), SVal::Ctx(v1), vb) == (SVal::Ctx(v2), SVal::Unit));
}

/// Assigning a list pattern of two distinct plain names, in a context where
/// neither is bound yet, to a list binds them to its first and second items
/// (unit for an item the list lacks).
pub proof fn lemma_assign_list_binds_items(vars: Vars, a: Seq<char>, b: Seq<char>, vs: Seq<SVal>)
    requires
        plain_name(a),
        plain_name(b),
        a != b,
        var_index(vars, a) < 0,
        var_index(vars, b) < 0,
    ensures
        pat_assign(SVal::List(seq![SVal::Symbol(a), SVal::Symbol(b)]), SVal::Ctx(vars), SVal::List(vs)).0 matches SVal::Ctx(
            t,
        ) && var_get(t, a) == Some(if vs.len() > 0 { vs[0] } else { SVal::Unit }) && var_get(t, b) == Some(
            if vs.len() > 1 { vs[1] } else { SVal::Unit },
        ),
{
    assert(pattern_name(a) == a && pattern_name(b) == b);
    let ps = seq![SVal::Symbol(a), SVal::Symbol(b)];
    assert(ps.drop_last() =~= seq![SVal::Symbol(a)]);
    assert(seq![SVal::Symbol(a)].drop_last() =~= Seq::<SVal>::empty());
    let va = if vs.len() > 0 { vs[0] } else { SVal::Unit };
    let vb = if vs.len() > 1 { vs[1] } else { SVal::Unit };
    let v1 = vars.push((a, Contract::Open, va));
    lemma_put_fresh(vars, a, va, b);
    lemma_put_fresh(v1, b, vb, a);
    let v2 = v1.push((b, Contract::Open, vb));
    assert(!is_literal_symbol(a) && !is_literal_symbol(b));
    assert(ctx_put(SVal::Ctx(vars), a, va) == (SVal::Ctx(v1), SVal::Unit));
    assert(pat_assign(SVal::Symbol(a), SVal::Ctx(vars), va) == (SVal::Ctx(v1), SVal::Unit));
    assert(ctx_put(SVal::Ctx(v1), b, vb) == (SVal::Ctx(v2), SVal::Unit));
    assert(pat_assign(SVal::Symbol(b), SVal::Ctx(v1), vb) == (SVal::Ctx(v2), SVal::Unit));
    assert(crate::prelude::ctx::pattern::item_or_unit(vs, 0) == va);
    assert(crate::prelude::ctx::pattern::item_or_unit(vs, 1) == vb);
    let p1 = seq![SVal::Symbol(a)];
    assert(crate::prelude::ctx::pattern::list_assign(Seq::<SVal>::empty(), SVal::Ctx(vars), vs) == (SVal::Ctx(vars), Seq::<SVal>::empty()));
    assert(crate::prelude::ctx::pattern::list_assign(p1, SVal::Ctx(vars), vs).0 == SVal::Ctx(v1));
    assert(crate::prelude::ctx::pattern::list_assign(ps, SVal::Ctx(vars), vs).0 == SVal::Ctx(v2));
}

} // verus!
