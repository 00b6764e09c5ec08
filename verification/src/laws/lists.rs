//! What the list functions do, stated over the items of the list.
use crate::prelude::list::{
    list_get_many, list_insert_many, list_pop, list_pop_many, list_push_many, list_remove_many,
    list_set_many,
};
use crate::types::val::{sval_pair, SVal};
use vstd::prelude::*;

verus! {

/// `list.pop_many` of `n` takes the last `n` items: what is left, followed by
/// what was taken, is the list. A count below zero or above the length takes
/// nothing and gives unit.
pub proof fn lemma_pop_many_takes_the_last(l: Seq<SVal>, n: int)
    ensures
        0 <= n <= l.len() ==> (list_pop_many(SVal::List(l), SVal::Int(n)) matches (
            SVal::List(rest),
            SVal::List(taken),
        ) && rest + taken == l && taken.len() == n),
        !(0 <= n <= l.len()) ==> list_pop_many(SVal::List(l), SVal::Int(n)) == (SVal::List(l), SVal::Unit),
{
    if 0 <= n <= l.len() {
        assert(l.subrange(0, l.len() - n) + l.subrange(l.len() - n, l.len() as int) =~= l);
    }
}

/// Popping `n + 1` items is popping one item and then `n` more: the same list is
/// left, and the items taken are those `n` followed by the one popped first.
pub proof fn lemma_pop_many_is_pops(l: Seq<SVal>, n: int)
    requires
        0 <= n < l.len(),
    ensures
        ({
            let (l1, last) = list_pop(SVal::List(l), SVal::Unit);
            let (rest, taken) = list_pop_many(l1, SVal::Int(n));
            taken matches SVal::List(t) && list_pop_many(SVal::List(l), SVal::Int(n + 1)) == (
                rest,
                SVal::List(t.push(last)),
            )
        }),
{
    let l1 = l.drop_last();
    assert(l1.subrange(0, l1.len() - n) =~= l.subrange(0, l.len() - (n + 1)));
    assert(l1.subrange(l1.len() - n, l1.len() as int).push(l.last()) =~= l.subrange(
        l.len() - (n + 1),
        l.len() as int,
    ));
}

/// `list.push_many` then `list.pop_many` of as many items gives them back and
/// restores the list.
pub proof fn lemma_push_many_pop_many(l: Seq<SVal>, vs: Seq<SVal>)
    ensures
        ({
            let (l1, _) = list_push_many(SVal::List(l), SVal::List(vs));
            list_pop_many(l1, SVal::Int(vs.len() as int)) == (SVal::List(l), SVal::List(vs))
        }),
{
    assert((l + vs).subrange(0, (l + vs).len() - vs.len()) =~= l);
    assert((l + vs).subrange((l + vs).len() - vs.len(), (l + vs).len() as int) =~= vs);
}

/// `list.remove_many` over `[f, t)` takes out exactly what `list.get_many` reads
/// there, leaves the items before `f` followed by those from `t`, and putting the
/// taken items back at `f` with `list.insert_many` restores the list.
pub proof fn lemma_remove_many_get_many(l: Seq<SVal>, f: int, t: int)
    requires
        0 <= f <= t <= l.len(),
        l.len() <= usize::MAX,
    ensures
        ({
            let range = sval_pair(SVal::Int(f), SVal::Int(t));
            let (rest, taken) = list_remove_many(SVal::List(l), range);
            &&& taken == list_get_many(SVal::List(l), range)
            &&& taken matches SVal::List(x) && x.len() == t - f
                && (forall|j: int| 0 <= j < t - f ==> #[trigger] x[j] == l[f + j])
            &&& rest matches SVal::List(r) && r.len() == l.len() - (t - f)
                && (forall|j: int| 0 <= j < f ==> #[trigger] r[j] == l[j])
                && (forall|j: int| f <= j < r.len() ==> #[trigger] r[j] == l[j + (t - f)])
            &&& list_insert_many(rest, sval_pair(SVal::Int(f), taken)).0 == SVal::List(l)
        }),
{
    let r = l.subrange(0, f) + l.subrange(t, l.len() as int);
    let x = l.subrange(f, t);
    assert(r.subrange(0, f) + x + r.subrange(f, r.len() as int) =~= l);
}

/// `list.insert_many` of `vs` at `i` puts them there, and `list.remove_many`
/// over the same place takes them out again and restores the list.
pub proof fn lemma_insert_many_remove_many(l: Seq<SVal>, i: int, vs: Seq<SVal>)
    requires
        0 <= i <= l.len(),
        l.len() + vs.len() <= usize::MAX,
    ensures
        ({
            let (l1, _) = list_insert_many(SVal::List(l), sval_pair(SVal::Int(i), SVal::List(vs)));
            &&& l1 matches SVal::List(m) && m.len() == l.len() + vs.len()
                && (forall|j: int| 0 <= j < vs.len() ==> #[trigger] m[i + j] == vs[j])
            &&& list_remove_many(l1, sval_pair(SVal::Int(i), SVal::Int(i + vs.len()))) == (
                SVal::List(l),
                SVal::List(vs),
            )
        }),
{
    let m = l.subrange(0, i) + vs + l.subrange(i, l.len() as int);
    assert(m.subrange(0, i) + m.subrange(i + vs.len(), m.len() as int) =~= l);
    assert(m.subrange(i, i + vs.len()) =~= vs);
}

/// `list.set_many` of `vs` at `i` keeps the length, puts `vs` there (read back by
/// `list.get_many`), leaves the other items, and gives back what was there.
pub proof fn lemma_set_many_get_many(l: Seq<SVal>, i: int, vs: Seq<SVal>)
    requires
        0 <= i,
        i + vs.len() <= l.len(),
        l.len() <= usize::MAX,
    ensures
        ({
            let range = sval_pair(SVal::Int(i), SVal::Int(i + vs.len()));
            let (l1, old) = list_set_many(SVal::List(l), sval_pair(SVal::Int(i), SVal::List(vs)));
            &&& old == list_get_many(SVal::List(l), range)
            &&& list_get_many(l1, range) == SVal::List(vs)
            &&& l1 matches SVal::List(m) && m.len() == l.len()
                && (forall|j: int| 0 <= j < l.len() && !(i <= j < i + vs.len()) ==> #[trigger] m[j] == l[j])
        }),
{
    let m = l.subrange(0, i) + vs + l.subrange(i + vs.len(), l.len() as int);
    assert(m.subrange(i, i + vs.len()) =~= vs);
    assert forall|j: int| 0 <= j < l.len() && !(i <= j < i + vs.len()) implies #[trigger] m[j] == l[j] by {
        if j < i {
        } else {
        }
    }
}

} // verus!
