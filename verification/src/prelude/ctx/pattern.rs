//! Patterns: a value read as a shape that names the parts of another value.
//!
//! A symbol is a name that takes the whole part, `#name` too; `*word` stands for
//! the symbol `word` itself. Pairs, calls, lists and maps take the matching parts
//! of a value of the same kind (a missing list item or map value is unit); any
//! other value stands for itself.
use crate::types::copy::{copy_val, lemma_view_entries, lemma_view_list, val_eq};
use crate::types::dict::{dict_get, dict_insert, dict_remove, Entries};
use crate::types::val::{
    sval_pair, view_entries, view_list, view_val, CallVal, Contract, PairVal, SVal, Val, ValMap,
};
use crate::types::vars::var_put;
use vstd::prelude::*;

verus! {

pub open spec fn is_literal_symbol(s: Seq<char>) -> bool {
    s.len() > 0 && s[0] == '*'
}

pub open spec fn rest_of(s: Seq<char>) -> Seq<char> {
    s.subrange(1, s.len() as int)
}

/// The name a symbol binds.
pub open spec fn pattern_name(s: Seq<char>) -> Seq<char> {
    if s.len() > 0 && s[0] == '#' {
        rest_of(s)
    } else {
        s
    }
}

pub open spec fn item_or_unit(vs: Seq<SVal>, i: int) -> SVal {
    if 0 <= i < vs.len() {
        vs[i]
    } else {
        SVal::Unit
    }
}

pub open spec fn value_or_unit(o: Option<SVal>) -> SVal {
    match o {
        Some(v) => v,
        None => SVal::Unit,
    }
}

pub open spec fn list_match(ps: Seq<SVal>, vs: Seq<SVal>) -> bool
    decreases ps, 0nat,
{
    if ps.len() == 0 {
        true
    } else {
        list_match(ps.drop_last(), vs) && pat_match(ps.last(), item_or_unit(vs, ps.len() - 1))
    }
}

pub open spec fn map_match(es: Entries, ves: Entries) -> bool
    decreases es, 0nat,
{
    if es.len() == 0 {
        true
    } else {
        map_match(es.drop_last(), ves) && pat_match(es.last().1, value_or_unit(dict_get(ves, es.last().0)))
    }
}

/// Whether the value has the shape of the pattern.
pub open spec fn pat_match(p: SVal, v: SVal) -> bool
    decreases p, 1nat,
{
    match p {
        SVal::Symbol(s) => if is_literal_symbol(s) {
            v == SVal::Symbol(rest_of(s))
        } else {
            true
        },
        SVal::Pair(a, b) => match v {
            SVal::Pair(x, y) => pat_match(*a, *x) && pat_match(*b, *y),
            _ => false,
        },
        SVal::Call(_, f, c, i) => match v {
            SVal::Call(_, vf, vc, vi) => pat_match(*f, *vf) && pat_match(*c, *vc) && pat_match(*i, *vi),
            _ => false,
        },
        SVal::List(ps) => match v {
            SVal::List(vs) => list_match(ps, vs),
            _ => false,
        },
        SVal::Dict(es) => match v {
            SVal::Dict(ves) => map_match(es, ves),
            _ => false,
        },
        _ => p == v,
    }
}

/// Binds a name in a context to a value: gives the new context and the value the
/// name had (unit if none); a context whose contract forbids it is left as it is
/// and gives unit. In a map, the value under the name (as a symbol) is swapped
/// for the new one and the old one given back; a map without that key, or any
/// other value, is left as it is and gives unit.
pub open spec fn ctx_put(ctx: SVal, name: Seq<char>, v: SVal) -> (SVal, SVal) {
    match ctx {
        SVal::Ctx(vars) => match var_put(vars, name, v, Contract::Open) {
            Some((t, last)) => (SVal::Ctx(t), value_or_unit(last)),
            None => (ctx, SVal::Unit),
        },
        SVal::Dict(es) => match dict_get(es, SVal::Symbol(name)) {
            Some(old) => (SVal::Dict(dict_insert(es, SVal::Symbol(name), v)), old),
            None => (ctx, SVal::Unit),
        },
        _ => (ctx, SVal::Unit),
    }
}

pub open spec fn list_assign(ps: Seq<SVal>, ctx: SVal, vs: Seq<SVal>) -> (SVal, Seq<SVal>)
    decreases ps, 0nat,
{
    if ps.len() == 0 {
        (ctx, Seq::empty())
    } else {
        let (c1, rs) = list_assign(ps.drop_last(), ctx, vs);
        let (c2, r) = pat_assign(ps.last(), c1, item_or_unit(vs, ps.len() - 1));
        (c2, rs.push(r))
    }
}

/// Gives the context, the results under each key, and the entries of the value not yet taken.
pub open spec fn map_assign(es: Entries, ctx: SVal, ves: Entries) -> (SVal, Entries, Entries)
    decreases es, 0nat,
{
    if es.len() == 0 {
        (ctx, Seq::empty(), ves)
    } else {
        let (c1, rs, rem) = map_assign(es.drop_last(), ctx, ves);
        let k = es.last().0;
        let (c2, r) = pat_assign(es.last().1, c1, value_or_unit(dict_get(rem, k)));
        (c2, rs.push((k, r)), dict_remove(rem, k))
    }
}

/// Binds the names of the pattern to the parts of the value, left to right: gives
/// the new context and, in the shape of the pattern, what each name had before.
pub open spec fn pat_assign(p: SVal, ctx: SVal, v: SVal) -> (SVal, SVal)
    decreases p, 1nat,
{
    match p {
        SVal::Symbol(s) => if is_literal_symbol(s) {
            (ctx, SVal::Unit)
        } else {
            ctx_put(ctx, pattern_name(s), v)
        },
        SVal::Pair(a, b) => match v {
            SVal::Pair(x, y) => {
                let (c1, r1) = pat_assign(*a, ctx, *x);
                let (c2, r2) = pat_assign(*b, c1, *y);
                (c2, sval_pair(r1, r2))
            },
            _ => (ctx, SVal::Unit),
        },
        SVal::Call(rev, f, c, i) => match v {
            SVal::Call(vrev, vf, vc, vi) => if rev != vrev {
                (ctx, SVal::Unit)
            } else {
                let (c1, r1) = pat_assign(*f, ctx, *vf);
                let (c2, r2) = pat_assign(*c, c1, *vc);
                let (c3, r3) = pat_assign(*i, c2, *vi);
                (c3, SVal::Call(vrev, Box::new(r1), Box::new(r2), Box::new(r3)))
            },
            _ => (ctx, SVal::Unit),
        },
        SVal::List(ps) => match v {
            SVal::List(vs) => {
                let (c1, rs) = list_assign(ps, ctx, vs);
                (c1, SVal::List(rs))
            },
            _ => (ctx, SVal::Unit),
        },
        SVal::Dict(es) => match v {
            SVal::Dict(ves) => {
                let (c1, rs, _) = map_assign(es, ctx, ves);
                (c1, SVal::Dict(rs))
            },
            _ => (ctx, SVal::Unit),
        },
        _ => (ctx, SVal::Unit),
    }
}

fn first_char_is(s: &String, c: char) -> (r: bool)
    ensures
        r == (s@.len() > 0 && s@[0] == c),
{
    let n = s.unicode_len();
    n > 0 && s.get_char(0) == c
}

fn rest(s: &String) -> (r: String)
    requires
        s@.len() > 0,
    ensures
        r@ == rest_of(s@),
{
    let n = s.unicode_len();
    String::from_str(s.as_str().substring_char(1, n))
}

fn name_of(s: &String) -> (r: String)
    ensures
        r@ == pattern_name(s@),
{
    if first_char_is(s, '#') {
        rest(s)
    } else {
        s.clone()
    }
}

fn list_matches(ps: &Vec<Val>, vs: &Vec<Val>) -> (r: bool)
    ensures
        r == list_match(view_list(ps@), view_list(vs@)),
    decreases *ps, 0nat,
{
    let ghost s = view_list(ps@);
    proof {
        lemma_view_list(ps@);
        lemma_view_list(vs@);
    }
    let unit = Val::Unit;
    let mut r = true;
    let mut i: usize = 0;
    assert(s.take(0) =~= Seq::<SVal>::empty());
    while i < ps.len()
        invariant
            i <= ps@.len(),
            s == view_list(ps@),
            s.len() == ps@.len(),
            unit@ == SVal::Unit,
            view_list(vs@).len() == vs@.len(),
            forall|j: int| 0 <= j < ps@.len() ==> #[trigger] s[j] == view_val(ps@[j]),
            forall|j: int| 0 <= j < vs@.len() ==> #[trigger] view_list(vs@)[j] == view_val(vs@[j]),
            r == list_match(s.take(i as int), view_list(vs@)),
        decreases ps.len() - i,
    {
        proof {
            assert(decreases_to!(*ps => ps@));
            assert(decreases_to!(ps@ => ps@[i as int]));
            assert(s.take(i + 1).drop_last() =~= s.take(i as int));
        }
        let item = if i < vs.len() { &vs[i] } else { &unit };
        let m = pattern_match(&ps[i], item);
        r = r && m;
        i = i + 1;
    }
    assert(s.take(ps.len() as int) =~= s);
    r
}

fn map_matches(es: &Vec<PairVal>, ves: &ValMap) -> (r: bool)
    ensures
        r == map_match(view_entries(es@), ves.view()),
    decreases *es, 0nat,
{
    let ghost s = view_entries(es@);
    proof {
        lemma_view_entries(es@);
    }
    let mut r = true;
    let mut i: usize = 0;
    assert(s.take(0) =~= Seq::<(SVal, SVal)>::empty());
    while i < es.len()
        invariant
            i <= es@.len(),
            s == view_entries(es@),
            s.len() == es@.len(),
            forall|j: int|
                0 <= j < es@.len() ==> #[trigger] s[j] == (view_val(es@[j].first), view_val(es@[j].second)),
            r == map_match(s.take(i as int), ves.view()),
        decreases es.len() - i,
    {
        proof {
            assert(decreases_to!(*es => es@));
            assert(decreases_to!(es@ => es@[i as int]));
            assert(s.take(i + 1).drop_last() =~= s.take(i as int));
        }
        let item = match ves.get(&es[i].first) {
            Some(x) => x,
            None => Val::Unit,
        };
        let m = pattern_match(&es[i].second, &item);
        r = r && m;
        i = i + 1;
    }
    assert(s.take(es.len() as int) =~= s);
    r
}

/// Whether the value has the shape of the pattern.
pub fn pattern_match(p: &Val, v: &Val) -> (r: bool)
    ensures
        r == pat_match(p@, v@),
    decreases *p, 1nat,
{
    match p {
        Val::Symbol(s) => {
            if first_char_is(s, '*') {
                let lit = Val::Symbol(rest(s));
                val_eq(&lit, v)
            } else {
                true
            }
        },
        Val::Pair(a) => match v {
            Val::Pair(x) => pattern_match(&a.first, &x.first) && pattern_match(&a.second, &x.second),
            _ => false,
        },
        Val::Call(a) => match v {
            Val::Call(x) => pattern_match(&a.func, &x.func) && pattern_match(&a.ctx, &x.ctx)
                && pattern_match(&a.input, &x.input),
            _ => false,
        },
        Val::List(ps) => match v {
            Val::List(vs) => list_matches(ps, vs),
            _ => false,
        },
        Val::Dict(es) => match v {
            Val::Dict(ves) => map_matches(&es.entries, ves),
            _ => false,
        },
        _ => val_eq(p, v),
    }
}

/// Binds a name in the context; see `ctx_put`.
pub fn put_in_ctx(ctx: &mut Val, name: String, v: Val) -> (r: Val)
    ensures
        (final(ctx)@, r@) == ctx_put(old(ctx)@, name@, v@),
{
    match ctx {
        Val::Ctx(c) => match c.put(name, v, Contract::Open) {
            Ok(Some(x)) => x,
            Ok(None) => Val::Unit,
            Err(_) => Val::Unit,
        },
        Val::Dict(m) => {
            let key = Val::Symbol(name);
            if m.contains(&key) {
                match m.insert(key, v) {
                    Some(old) => old,
                    None => Val::Unit,
                }
            } else {
                Val::Unit
            }
        },
        _ => Val::Unit,
    }
}

fn list_assigns(ps: &Vec<Val>, ctx: &mut Val, vs: Vec<Val>) -> (r: Vec<Val>)
    ensures
        (final(ctx)@, view_list(r@)) == list_assign(view_list(ps@), old(ctx)@, view_list(vs@)),
    decreases *ps, 0nat,
{
    let ghost s = view_list(ps@);
    let ghost c0 = ctx@;
    proof {
        lemma_view_list(ps@);
        lemma_view_list(vs@);
    }
    let mut out: Vec<Val> = Vec::new();
    let mut i: usize = 0;
    assert(s.take(0) =~= Seq::<SVal>::empty());
    assert(view_list(out@) =~= Seq::<SVal>::empty());
    while i < ps.len()
        invariant
            i <= ps@.len(),
            s == view_list(ps@),
            s.len() == ps@.len(),
            view_list(vs@).len() == vs@.len(),
            forall|j: int| 0 <= j < ps@.len() ==> #[trigger] s[j] == view_val(ps@[j]),
            forall|j: int| 0 <= j < vs@.len() ==> #[trigger] view_list(vs@)[j] == view_val(vs@[j]),
            (ctx@, view_list(out@)) == list_assign(s.take(i as int), c0, view_list(vs@)),
        decreases ps.len() - i,
    {
        proof {
            assert(decreases_to!(*ps => ps@));
            assert(decreases_to!(ps@ => ps@[i as int]));
            assert(s.take(i + 1).drop_last() =~= s.take(i as int));
        }
        let item = if i < vs.len() { copy_val(&vs[i]) } else { Val::Unit };
        let r = pattern_assign(&ps[i], ctx, item);
        proof {
            assert(out@.push(r).drop_last() =~= out@);
        }
        out.push(r);
        i = i + 1;
    }
    assert(s.take(ps.len() as int) =~= s);
    out
}

fn map_assigns(es: &Vec<PairVal>, ctx: &mut Val, ves: ValMap) -> (r: Vec<PairVal>)
    ensures
        final(ctx)@ == map_assign(view_entries(es@), old(ctx)@, ves.view()).0,
        view_entries(r@) == map_assign(view_entries(es@), old(ctx)@, ves.view()).1,
    decreases *es, 0nat,
{
    let ghost s = view_entries(es@);
    let ghost c0 = ctx@;
    let ghost v0 = ves.view();
    proof {
        lemma_view_entries(es@);
    }
    let mut rem = ves;
    let mut out: Vec<PairVal> = Vec::new();
    let mut i: usize = 0;
    assert(s.take(0) =~= Seq::<(SVal, SVal)>::empty());
    assert(view_entries(out@) =~= Seq::<(SVal, SVal)>::empty());
    while i < es.len()
        invariant
            i <= es@.len(),
            s == view_entries(es@),
            s.len() == es@.len(),
            forall|j: int|
                0 <= j < es@.len() ==> #[trigger] s[j] == (view_val(es@[j].first), view_val(es@[j].second)),
            (ctx@, view_entries(out@), rem.view()) == map_assign(s.take(i as int), c0, v0),
        decreases es.len() - i,
    {
        proof {
            assert(decreases_to!(*es => es@));
            assert(decreases_to!(es@ => es@[i as int]));
            assert(s.take(i + 1).drop_last() =~= s.take(i as int));
        }
        let item = match rem.remove(&es[i].first) {
            Some(x) => x,
            None => Val::Unit,
        };
        let r = pattern_assign(&es[i].second, ctx, item);
        let e = PairVal { first: copy_val(&es[i].first), second: r };
        proof {
            assert(out@.push(e).drop_last() =~= out@);
        }
        out.push(e);
        i = i + 1;
    }
    assert(s.take(es.len() as int) =~= s);
    out
}

/// Binds the names of the pattern to the parts of the value; see `pat_assign`.
pub fn pattern_assign(p: &Val, ctx: &mut Val, v: Val) -> (r: Val)
    ensures
        (final(ctx)@, r@) == pat_assign(p@, old(ctx)@, v@),
    decreases *p, 1nat,
{
    proof {
        reveal_with_fuel(view_val, 2);
    }
    match p {
        Val::Symbol(s) => {
            if first_char_is(s, '*') {
                Val::Unit
            } else {
                put_in_ctx(ctx, name_of(s), v)
            }
        },
        Val::Pair(a) => match v {
            Val::Pair(x) => {
                let x = *x;
                let r1 = pattern_assign(&a.first, ctx, x.first);
                let r2 = pattern_assign(&a.second, ctx, x.second);
                Val::Pair(Box::new(PairVal { first: r1, second: r2 }))
            },
            _ => Val::Unit,
        },
        Val::Call(a) => match v {
            Val::Call(x) => {
                let x = *x;
                if a.reverse != x.reverse {
                    return Val::Unit;
                }
                let r1 = pattern_assign(&a.func, ctx, x.func);
                let r2 = pattern_assign(&a.ctx, ctx, x.ctx);
                let r3 = pattern_assign(&a.input, ctx, x.input);
                Val::Call(Box::new(CallVal { reverse: x.reverse, func: r1, ctx: r2, input: r3 }))
            },
            _ => Val::Unit,
        },
        Val::List(ps) => match v {
            Val::List(vs) => Val::List(list_assigns(ps, ctx, vs)),
            _ => Val::Unit,
        },
        Val::Dict(es) => match v {
            Val::Dict(ves) => {
                let rs = map_assigns(&es.entries, ctx, ves);
                Val::Dict(ValMap { entries: rs })
            },
            _ => Val::Unit,
        },
        _ => Val::Unit,
    }
}

} // verus!
