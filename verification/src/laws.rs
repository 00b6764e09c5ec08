//! Properties that relate the built-in functions to one another.
pub mod lists;
pub mod maps;
pub mod words;
pub mod iteration;
pub mod patterns;
pub mod values;
pub mod numbers;
pub mod contexts;
pub mod records;
pub mod equality;
pub mod structures;
use crate::prelude::list::{list_get, list_insert, list_length, list_pop, list_push, list_remove, list_set};
use crate::prelude::map::{
    get_many_spec, map_get, map_remove, map_set, multiset_spec, new_map_spec, new_set_spec,
    remove_many_spec, set_many_spec,
};
use crate::prelude::pair::{pair_first, pair_second, pair_set_first, pair_set_second};
use crate::prelude::text::{text_from_utf8, text_into_utf8};
use crate::prelude::{func_sval, put_func};
use crate::types::bigint::{trunc_div, trunc_rem};
use crate::types::dict::{
    dict_get, dict_insert, keys_distinct, lemma_dict_insert_distinct, lemma_dict_insert_get,
    lemma_dict_insert_other, lemma_dict_remove_distinct, lemma_dict_remove_get, Entries,
};
use crate::types::record::{call_get, call_set, CallField};
use crate::types::val::{sval_pair, SVal};
use vstd::prelude::*;

verus! {

/// `list.set` then `list.get` at the same index gives the value set.
pub proof fn lemma_list_set_get(l: Seq<SVal>, i: int, v: SVal)
    requires
        0 <= i < l.len(),
        i <= usize::MAX,
    ensures
        list_get(list_set(SVal::List(l), sval_pair(SVal::Int(i), v)).0, SVal::Int(i)) == v,
{
}

/// `list.set` gives back the item it replaced, and setting it back restores the list.
pub proof fn lemma_list_set_restore(l: Seq<SVal>, i: int, v: SVal)
    requires
        0 <= i < l.len(),
        i <= usize::MAX,
    ensures
        ({
            let (l2, old) = list_set(SVal::List(l), sval_pair(SVal::Int(i), v));
            list_set(l2, sval_pair(SVal::Int(i), old)).0 == SVal::List(l)
        }),
{
    assert(l.update(i, v).update(i, l[i]) =~= l);
}

/// `list.push` then `list.pop` gives back the list and the value pushed.
pub proof fn lemma_list_push_pop(l: Seq<SVal>, v: SVal)
    ensures
        list_pop(list_push(SVal::List(l), v).0, SVal::Unit) == (SVal::List(l), v),
{
    assert(l.push(v).drop_last() =~= l);
}

/// `list.push` makes a list one item longer.
pub proof fn lemma_list_push_length(l: Seq<SVal>, v: SVal)
    ensures
        list_length(list_push(SVal::List(l), v).0) == SVal::Int((l.len() + 1) as int),
{
}

/// `list.insert` then `list.remove` at the same index gives back the list and the value.
pub proof fn lemma_list_insert_remove(l: Seq<SVal>, i: int, v: SVal)
    requires
        0 <= i <= l.len(),
        i <= usize::MAX,
    ensures
        list_remove(list_insert(SVal::List(l), sval_pair(SVal::Int(i), v)).0, SVal::Int(i)) == (
            SVal::List(l),
            v,
        ),
{
    assert(l.insert(i, v).remove(i) =~= l);
}

/// `map.set` then `map.get` under the same key gives the value set.
pub proof fn lemma_map_set_get(s: Entries, k: SVal, v: SVal)
    ensures
        map_get(map_set(SVal::Dict(s), sval_pair(k, v)).0, k) == v,
{
    lemma_dict_insert_get(s, k, v);
}

/// `map.set` leaves the values under other keys as they were.
pub proof fn lemma_map_set_other(s: Entries, k: SVal, v: SVal, other: SVal)
    requires
        other != k,
    ensures
        map_get(map_set(SVal::Dict(s), sval_pair(k, v)).0, other) == map_get(SVal::Dict(s), other),
{
    lemma_dict_insert_other(s, k, v, other);
}

/// After `map.remove`, the key has no value (unit), when no key occurred twice.
pub proof fn lemma_map_remove_get(s: Entries, k: SVal)
    requires
        keys_distinct(s),
    ensures
        map_get(map_remove(SVal::Dict(s), k).0, k) == SVal::Unit,
{
    lemma_dict_remove_get(s, k);
}

/// `map.set` and `map.remove` keep the keys of a map distinct.
pub proof fn lemma_map_keys_stay_distinct(s: Entries, k: SVal, v: SVal)
    requires
        keys_distinct(s),
    ensures
        map_set(SVal::Dict(s), sval_pair(k, v)).0 matches SVal::Dict(t) && keys_distinct(t),
        map_remove(SVal::Dict(s), k).0 matches SVal::Dict(t) && keys_distinct(t),
{
    lemma_dict_insert_distinct(s, k, v);
    lemma_dict_remove_distinct(s, k);
}

/// Setting a part of a pair changes that part and keeps the other.
pub proof fn lemma_pair_set(a: SVal, b: SVal, v: SVal)
    ensures
        pair_first(pair_set_first(sval_pair(a, b), v).0) == v,
        pair_second(pair_set_first(sval_pair(a, b), v).0) == b,
        pair_second(pair_set_second(sval_pair(a, b), v).0) == v,
        pair_first(pair_set_second(sval_pair(a, b), v).0) == a,
        pair_set_first(sval_pair(a, b), v).1 == a,
        pair_set_second(sval_pair(a, b), v).1 == b,
{
}

/// Setting a part of a call and reading it back gives the value set.
pub proof fn lemma_call_set_get(field: CallField, rev: bool, f: SVal, c: SVal, i: SVal, v: SVal)
    ensures
        call_get(field, call_set(field, SVal::Call(rev, Box::new(f), Box::new(c), Box::new(i)), v).0) == v,
{
}

/// A text encoded as UTF-8 and decoded again is the same text.
pub proof fn lemma_text_utf8_roundtrip(t: Seq<char>)
    ensures
        text_from_utf8(text_into_utf8(SVal::Text(t))) == SVal::Text(t),
{
    vstd::utf8::encode_utf8_valid_utf8(t);
    vstd::utf8::encode_utf8_decode_utf8(t);
}

/// Truncating division and remainder put the dividend back together.
pub proof fn lemma_divide_remainder(a: int, b: int)
    requires
        b != 0,
    ensures
        trunc_div(a, b) * b + trunc_rem(a, b) == a,
{
    let x = crate::types::bigint::abs(a);
    let y = crate::types::bigint::abs(b);
    let q = x / y;
    let r = x % y;
    assert(q * y + r == x) by (nonlinear_arith)
        requires
            y > 0,
            q == x / y,
            r == x % y,
    ;
    if b < 0 {
        assert(q * b == -(q * y)) by (nonlinear_arith)
            requires
                y == -b,
        ;
        assert((-q) * b == q * y) by (nonlinear_arith)
            requires
                y == -b,
        ;
    } else {
        assert((-q) * b == -(q * y)) by (nonlinear_arith)
            requires
                y == b,
        ;
    }
}

/// After a prelude binds a function, its name maps to that function.
pub proof fn lemma_put_binds(ctx: Entries, name: Seq<char>, f: SVal)
    ensures
        dict_get(dict_insert(ctx, SVal::Symbol(name), f), SVal::Symbol(name)) == Some(f),
{
    lemma_dict_insert_get(ctx, SVal::Symbol(name), f);
}


/// `map.set_many` keeps the keys of a map distinct, and the entries it gives back
/// have distinct keys too.
pub proof fn lemma_set_many_distinct(s: Entries, u: Entries)
    requires
        keys_distinct(s),
    ensures
        keys_distinct(set_many_spec(s, u).0),
        keys_distinct(set_many_spec(s, u).1),
    decreases u.len(),
{
    if u.len() == 0 {
        assert(keys_distinct(Seq::<(SVal, SVal)>::empty()));
    } else {
        lemma_set_many_distinct(s, u.drop_last());
        let (m, out) = set_many_spec(s, u.drop_last());
        let (k, v) = u.last();
        lemma_dict_insert_distinct(m, k, v);
        match dict_get(m, k) {
            Some(old) => lemma_dict_insert_distinct(out, k, old),
            None => {},
        }
    }
}

/// `map.remove_many` keeps the keys of a map distinct, and so do the entries it takes out.
pub proof fn lemma_remove_many_distinct(s: Entries, ks: Seq<SVal>)
    requires
        keys_distinct(s),
    ensures
        keys_distinct(remove_many_spec(s, ks).0),
        keys_distinct(remove_many_spec(s, ks).1),
    decreases ks.len(),
{
    if ks.len() == 0 {
        assert(keys_distinct(Seq::<(SVal, SVal)>::empty()));
    } else {
        lemma_remove_many_distinct(s, ks.drop_last());
        let (m, out) = remove_many_spec(s, ks.drop_last());
        let k = ks.last();
        match dict_get(m, k) {
            Some(v) => {
                lemma_dict_remove_distinct(m, k);
                lemma_dict_insert_distinct(out, k, v);
            },
            None => {},
        }
    }
}

/// `map.get_many` gives entries with distinct keys.
pub proof fn lemma_get_many_distinct(s: Entries, ks: Seq<SVal>)
    ensures
        keys_distinct(get_many_spec(s, ks)),
    decreases ks.len(),
{
    if ks.len() == 0 {
        assert(keys_distinct(Seq::<(SVal, SVal)>::empty()));
    } else {
        lemma_get_many_distinct(s, ks.drop_last());
        match dict_get(s, ks.last()) {
            Some(v) => lemma_dict_insert_distinct(get_many_spec(s, ks.drop_last()), ks.last(), v),
            None => {},
        }
    }
}

/// The maps made from a list (`map`, `set`, `multiset`) have distinct keys.
pub proof fn lemma_new_maps_distinct(items: Seq<SVal>)
    ensures
        new_map_spec(items) matches Some(m) ==> keys_distinct(m),
        keys_distinct(new_set_spec(items)),
        keys_distinct(multiset_spec(items)),
    decreases items.len(),
{
    if items.len() == 0 {
        assert(keys_distinct(Seq::<(SVal, SVal)>::empty()));
    } else {
        lemma_new_maps_distinct(items.drop_last());
        match (new_map_spec(items.drop_last()), items.last()) {
            (Some(acc), SVal::Pair(k, v)) => lemma_dict_insert_distinct(acc, *k, *v),
            _ => {},
        }
        lemma_dict_insert_distinct(new_set_spec(items.drop_last()), items.last(), SVal::Unit);
        let acc = multiset_spec(items.drop_last());
        lemma_dict_insert_distinct(
            acc,
            items.last(),
            SVal::Int(crate::prelude::map::count_of(acc, items.last()) + 1),
        );
    }
}

} // verus!
