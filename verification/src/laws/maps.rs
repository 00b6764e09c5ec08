//! What the map functions that take many keys do, stated key by key.
use crate::laws::lemma_remove_many_distinct;
use crate::prelude::map::{get_many_spec, map_get_many, map_remove_many, map_set_many, remove_many_spec, set_many_spec};
use crate::types::dict::{
    dict_get, dict_index, dict_remove, keys_distinct, lemma_dict_index, lemma_dict_index_unique,
    lemma_dict_insert_get, lemma_dict_insert_other, lemma_dict_remove_distinct, lemma_dict_remove_get,
    Entries,
};
use crate::types::val::SVal;
use vstd::prelude::*;

verus! {

proof fn lemma_get_last(u: Entries, k: SVal)
    requires
        u.len() > 0,
    ensures
        dict_get(u, k) == if u.last().0 == k { Some(u.last().1) } else { dict_get(u.drop_last(), k) },
{
    lemma_dict_index(u.drop_last(), k);
    let i = dict_index(u.drop_last(), k);
    if u.last().0 != k && i >= 0 {
        assert(u.drop_last()[i] == u[i]);
    }
}

proof fn lemma_get_absent(s: Entries, k: SVal)
    requires
        forall|j: int| 0 <= j < s.len() ==> #[trigger] s[j].0 != k,
    ensures
        dict_get(s, k) is None,
{
    lemma_dict_index(s, k);
}

/// Taking out one key leaves the values under the other keys, when no key occurs twice.
pub proof fn lemma_dict_remove_other(m: Entries, k: SVal, other: SVal)
    requires
        keys_distinct(m),
        other != k,
    ensures
        dict_get(dict_remove(m, k), other) == dict_get(m, other),
{
    lemma_dict_index(m, k);
    lemma_dict_index(m, other);
    let i = dict_index(m, k);
    if i >= 0 {
        let t = m.remove(i);
        lemma_dict_remove_distinct(m, k);
        let j = dict_index(m, other);
        if j >= 0 {
            assert(j != i);
            let j2 = if j < i { j } else { j - 1 };
            assert(t[j2] == m[j]);
            lemma_dict_index_unique(t, other, j2);
        } else {
            assert forall|x: int| 0 <= x < t.len() implies #[trigger] t[x].0 != other by {
                if x < i {
                    assert(t[x] == m[x]);
                } else {
                    assert(t[x] == m[x + 1]);
                }
            }
            lemma_get_absent(t, other);
        }
    }
}

proof fn lemma_contains_last(ks: Seq<SVal>, k: SVal)
    requires
        ks.len() > 0,
    ensures
        ks.contains(k) == (ks.drop_last().contains(k) || ks.last() == k),
{
    if ks.contains(k) {
        let j = choose|j: int| 0 <= j < ks.len() && ks[j] == k;
        if j < ks.len() - 1 {
            assert(ks.drop_last()[j] == k);
        }
    }
    if ks.drop_last().contains(k) {
        let j = choose|j: int| 0 <= j < ks.drop_last().len() && ks.drop_last()[j] == k;
        assert(ks[j] == k);
    }
    if ks.last() == k {
        assert(ks[ks.len() - 1] == k);
    }
}

/// After `map.set_many` with the entries `u`, each key of `u` has the value `u`
/// gives it (the last one, should it occur twice) and every other key keeps its value.
pub proof fn lemma_set_many_get(s: Entries, u: Entries, k: SVal)
    ensures
        dict_get(set_many_spec(s, u).0, k) == if dict_get(u, k) is Some { dict_get(u, k) } else { dict_get(s, k) },
        map_set_many(SVal::Dict(s), SVal::Dict(u)).0 == SVal::Dict(set_many_spec(s, u).0),
    decreases u.len(),
{
    if u.len() > 0 {
        lemma_set_many_get(s, u.drop_last(), k);
        lemma_get_last(u, k);
        let (m, _) = set_many_spec(s, u.drop_last());
        let (kl, vl) = u.last();
        if k == kl {
            lemma_dict_insert_get(m, kl, vl);
        } else {
            lemma_dict_insert_other(m, kl, vl, k);
        }
    }
}

/// What `map.set_many` gives back: for each key of `u` that the map held, the
/// value it held; nothing for the others (the keys of `u` taken to be distinct).
pub proof fn lemma_set_many_replaced(s: Entries, u: Entries, k: SVal)
    requires
        keys_distinct(u),
    ensures
        dict_get(set_many_spec(s, u).1, k) == if dict_get(u, k) is Some { dict_get(s, k) } else { None },
    decreases u.len(),
{
    if u.len() > 0 {
        let u0 = u.drop_last();
        assert(keys_distinct(u0));
        lemma_set_many_replaced(s, u0, k);
        lemma_get_last(u, k);
        let (m, out) = set_many_spec(s, u0);
        let (kl, vl) = u.last();
        assert forall|j: int| 0 <= j < u0.len() implies #[trigger] u0[j].0 != kl by {
            assert(u0[j] == u[j]);
        }
        lemma_get_absent(u0, kl);
        lemma_set_many_get(s, u0, kl);
        if k == kl {
            match dict_get(m, kl) {
                Some(old) => lemma_dict_insert_get(out, kl, old),
                None => {},
            }
        } else {
            match dict_get(m, kl) {
                Some(old) => lemma_dict_insert_other(out, kl, old, k),
                None => {},
            }
        }
    }
}

/// `map.get_many` gives, for each listed key the map holds, its value, and
/// nothing for any other key.
pub proof fn lemma_get_many_get(s: Entries, ks: Seq<SVal>, k: SVal)
    ensures
        dict_get(get_many_spec(s, ks), k) == if ks.contains(k) { dict_get(s, k) } else { None },
        map_get_many(SVal::Dict(s), SVal::List(ks)) == SVal::Dict(get_many_spec(s, ks)),
    decreases ks.len(),
{
    if ks.len() == 0 {
        assert(!ks.contains(k));
    } else {
        lemma_get_many_get(s, ks.drop_last(), k);
        lemma_contains_last(ks, k);
        let acc = get_many_spec(s, ks.drop_last());
        let kl = ks.last();
        match dict_get(s, kl) {
            Some(v) => if k == kl {
                lemma_dict_insert_get(acc, kl, v);
            } else {
                lemma_dict_insert_other(acc, kl, v, k);
            },
            None => {},
        }
    }
}

/// `map.remove_many` takes the listed keys out and leaves the other keys as they
/// were; what it gives back holds, for each listed key the map held, its value
/// (the map's keys taken to be distinct, as every map operation keeps them).
pub proof fn lemma_remove_many_get(s: Entries, ks: Seq<SVal>, k: SVal)
    requires
        keys_distinct(s),
    ensures
        dict_get(remove_many_spec(s, ks).0, k) == if ks.contains(k) { None } else { dict_get(s, k) },
        dict_get(remove_many_spec(s, ks).1, k) == if ks.contains(k) { dict_get(s, k) } else { None },
        map_remove_many(SVal::Dict(s), SVal::List(ks)) == (
            SVal::Dict(remove_many_spec(s, ks).0),
            SVal::Dict(remove_many_spec(s, ks).1),
        ),
    decreases ks.len(),
{
    if ks.len() == 0 {
        assert(!ks.contains(k));
    } else {
        let k0 = ks.drop_last();
        lemma_remove_many_get(s, k0, k);
        lemma_remove_many_get(s, k0, ks.last());
        lemma_contains_last(ks, k);
        lemma_remove_many_distinct(s, k0);
        let (m, out) = remove_many_spec(s, k0);
        let kl = ks.last();
        match dict_get(m, kl) {
            Some(v) => if k == kl {
                lemma_dict_remove_get(m, kl);
                lemma_dict_insert_get(out, kl, v);
            } else {
                lemma_dict_remove_other(m, kl, k);
                lemma_dict_insert_other(out, kl, v, k);
            },
            None => {},
        }
    }
}

} // verus!
