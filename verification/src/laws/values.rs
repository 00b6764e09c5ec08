//! What the functions on bits, texts, bytes and whole maps do, stated over their inputs.
use crate::prelude::bit::{run_spec as bit_run, BitFn};
use crate::prelude::bool::{run_spec as bool_run, BoolFn};
use crate::prelude::byte::{byte_length, byte_push};
use crate::prelude::map::{
    count_of, map_contains_all, map_contains_any, map_new, map_new_multiset, map_new_set, multiset_spec,
    new_map_spec, new_set_spec, run_spec as map_run, MapFn,
};
use crate::prelude::text::{text_into_utf8, text_length, text_push};
use crate::types::dict::{dict_get, lemma_dict_insert_get, lemma_dict_insert_other, Entries};
use crate::types::val::{sval_pair, SVal};
use vstd::prelude::*;
use vstd::utf8::encode_utf8;

verus! {

/// The bit operations follow the truth tables of not, and, or, exclusive or and
/// implication; anything but bits gives unit.
pub proof fn lemma_bit_truth_tables(ctx: SVal, a: bool, b: bool, other: SVal)
    ensures
        bit_run(BitFn::Not, ctx, SVal::Bit(a)) == (ctx, SVal::Bit(!a)),
        bit_run(BitFn::And, ctx, sval_pair(SVal::Bit(a), SVal::Bit(b))) == (ctx, SVal::Bit(a && b)),
        bit_run(BitFn::Or, ctx, sval_pair(SVal::Bit(a), SVal::Bit(b))) == (ctx, SVal::Bit(a || b)),
        bit_run(BitFn::Xor, ctx, sval_pair(SVal::Bit(a), SVal::Bit(b))) == (ctx, SVal::Bit(a != b)),
        bit_run(BitFn::Imply, ctx, sval_pair(SVal::Bit(a), SVal::Bit(b))) == (ctx, SVal::Bit(!a || b)),
        !(other is Bit) ==> bit_run(BitFn::Not, ctx, other).1 == SVal::Unit,
        !(other is Pair) ==> bit_run(BitFn::And, ctx, other).1 == SVal::Unit,
        bool_run(BoolFn::Not, ctx, SVal::Bit(a)) == (ctx, SVal::Bit(!a)),
        bool_run(BoolFn::And, ctx, sval_pair(SVal::Bit(a), SVal::Bit(b))) == (ctx, SVal::Bit(a && b)),
        bool_run(BoolFn::Or, ctx, sval_pair(SVal::Bit(a), SVal::Bit(b))) == (ctx, SVal::Bit(a || b)),
        bool_run(BoolFn::Xor, ctx, sval_pair(SVal::Bit(a), SVal::Bit(b))) == (ctx, SVal::Bit(a != b)),
        bool_run(BoolFn::Imply, ctx, sval_pair(SVal::Bit(a), SVal::Bit(b))) == (ctx, SVal::Bit(!a || b)),
        bool_run(BoolFn::IsTrue, ctx, other).1 == SVal::Bit(other == SVal::Bit(true)),
        bool_run(BoolFn::IsFalse, ctx, other).1 == SVal::Bit(other == SVal::Bit(false)),
{
}

/// The UTF-8 encoding of two texts one after the other is the encoding of the
/// first followed by that of the second.
pub proof fn lemma_encode_utf8_concat(a: Seq<char>, b: Seq<char>)
    ensures
        encode_utf8(a + b) == encode_utf8(a) + encode_utf8(b),
    decreases a.len(),
{
    if a.len() == 0 {
        assert(a + b =~= b);
        assert(encode_utf8(a) =~= Seq::<u8>::empty());
        assert(encode_utf8(a) + encode_utf8(b) =~= encode_utf8(b));
    } else {
        lemma_encode_utf8_concat(a.drop_first(), b);
        assert((a + b).drop_first() =~= a.drop_first() + b);
        assert((a + b)[0] == a[0]);
    }
}

/// `text.push` appends: the length (in UTF-8 bytes) of the result is the sum of
/// the lengths, and its encoding is the two encodings one after the other.
pub proof fn lemma_text_push(t: Seq<char>, x: Seq<char>)
    ensures
        text_push(SVal::Text(t), SVal::Text(x)).1 == SVal::Unit,
        text_push(SVal::Text(t), SVal::Text(x)).0 matches SVal::Text(r) && r.len() == t.len() + x.len()
            && r.subrange(0, t.len() as int) == t && r.subrange(t.len() as int, r.len() as int) == x,
        text_length(text_push(SVal::Text(t), SVal::Text(x)).0) matches SVal::Int(n) && text_length(SVal::Text(t))
            matches SVal::Int(a) && text_length(SVal::Text(x)) matches SVal::Int(b) && n == a + b,
        text_into_utf8(text_push(SVal::Text(t), SVal::Text(x)).0) matches SVal::Byte(e) && text_into_utf8(
            SVal::Text(t),
        ) matches SVal::Byte(e1) && text_into_utf8(SVal::Text(x)) matches SVal::Byte(e2) && e == e1 + e2,
{
    lemma_encode_utf8_concat(t, x);
    assert((t + x).subrange(0, t.len() as int) =~= t);
    assert((t + x).subrange(t.len() as int, (t + x).len() as int) =~= x);
}

/// `byte.push` appends: the bytes before stay in front, the pushed ones follow,
/// and the length is the sum of the lengths.
pub proof fn lemma_byte_push(t: Seq<u8>, x: Seq<u8>)
    ensures
        byte_push(SVal::Byte(t), SVal::Byte(x)).1 == SVal::Unit,
        byte_push(SVal::Byte(t), SVal::Byte(x)).0 matches SVal::Byte(r) && r.len() == t.len() + x.len()
            && r.subrange(0, t.len() as int) == t && r.subrange(t.len() as int, r.len() as int) == x,
        byte_length(byte_push(SVal::Byte(t), SVal::Byte(x)).0) == SVal::Int((t.len() + x.len()) as int),
{
    assert((t + x).subrange(0, t.len() as int) =~= t);
    assert((t + x).subrange(t.len() as int, (t + x).len() as int) =~= x);
}

/// `map.contains_all` says whether every listed key has a value, and
/// `map.contains_any` whether some listed key has one.
pub proof fn lemma_contains_all_any(s: Entries, ks: Seq<SVal>)
    ensures
        map_contains_all(SVal::Dict(s), SVal::List(ks)) == SVal::Bit(
            forall|i: int| 0 <= i < ks.len() ==> dict_get(s, #[trigger] ks[i]) is Some,
        ),
        map_contains_any(SVal::Dict(s), SVal::List(ks)) == SVal::Bit(
            exists|i: int| 0 <= i < ks.len() && dict_get(s, #[trigger] ks[i]) is Some,
        ),
{
}

/// `map.items`, `map.keys` and `map.values` list the entries in the same order:
/// item `i` is the pair of key `i` and value `i`, and each key's value in the
/// map is the value beside it (when no key occurs twice). The `into_` forms give
/// the same lists and leave the map empty.
pub proof fn lemma_items_keys_values(s: Entries, input: SVal)
    requires
        crate::types::dict::keys_distinct(s),
    ensures
        ({
            let items = map_run(MapFn::Items, SVal::Dict(s), input).1;
            let keys = map_run(MapFn::Keys, SVal::Dict(s), input).1;
            let values = map_run(MapFn::Values, SVal::Dict(s), input).1;
            &&& items matches SVal::List(it) && keys matches SVal::List(ks) && values matches SVal::List(vs)
                && it.len() == s.len() && ks.len() == s.len() && vs.len() == s.len()
                && (forall|i: int| 0 <= i < s.len() ==> #[trigger] it[i] == sval_pair(ks[i], vs[i]))
                && (forall|i: int| 0 <= i < s.len() ==> dict_get(s, #[trigger] ks[i]) == Some(vs[i]))
            &&& map_run(MapFn::IntoItems, SVal::Dict(s), input) == (SVal::Dict(Seq::empty()), items)
            &&& map_run(MapFn::IntoKeys, SVal::Dict(s), input) == (SVal::Dict(Seq::empty()), keys)
            &&& map_run(MapFn::IntoValues, SVal::Dict(s), input) == (SVal::Dict(Seq::empty()), values)
        }),
{
    assert forall|i: int| 0 <= i < s.len() implies dict_get(s, #[trigger] s[i].0) == Some(s[i].1) by {
        crate::types::dict::lemma_dict_index_unique(s, s[i].0, i);
    }
}

/// Building a map from pairs: one more pair at the end gives its key its value
/// and leaves the other keys as they were; an item that is no pair gives unit.
pub proof fn lemma_new_map_push(items: Seq<SVal>, k: SVal, v: SVal, other: SVal, bad: SVal)
    ensures
        new_map_spec(Seq::empty()) == Some(Seq::<(SVal, SVal)>::empty()),
        new_map_spec(items) matches Some(m) ==> (new_map_spec(items.push(sval_pair(k, v))) matches Some(m2)
            && dict_get(m2, k) == Some(v) && (other != k ==> dict_get(m2, other) == dict_get(m, other))),
        new_map_spec(items) is None ==> new_map_spec(items.push(sval_pair(k, v))) is None,
        !(bad is Pair) ==> map_new(SVal::List(items.push(bad))) == SVal::Unit,
{
    assert(items.push(sval_pair(k, v)).drop_last() =~= items);
    assert(items.push(bad).drop_last() =~= items);
    if let Some(m) = new_map_spec(items) {
        lemma_dict_insert_get(m, k, v);
        if other != k {
            lemma_dict_insert_other(m, k, v, other);
        }
    }
}

/// The set of a list: one more item at the end is in it (mapped to unit), and
/// the other items stay as they were; the set of no items is empty.
pub proof fn lemma_new_set_push(items: Seq<SVal>, k: SVal, other: SVal)
    ensures
        new_set_spec(Seq::empty()) == Seq::<(SVal, SVal)>::empty(),
        dict_get(new_set_spec(items.push(k)), k) == Some(SVal::Unit),
        other != k ==> dict_get(new_set_spec(items.push(k)), other) == dict_get(new_set_spec(items), other),
        map_new_set(SVal::List(items)) == SVal::Dict(new_set_spec(items)),
{
    assert(items.push(k).drop_last() =~= items);
    lemma_dict_insert_get(new_set_spec(items), k, SVal::Unit);
    if other != k {
        lemma_dict_insert_other(new_set_spec(items), k, SVal::Unit, other);
    }
}

/// The number of times `k` occurs in `items`.
pub open spec fn occurrences(items: Seq<SVal>, k: SVal) -> int
    decreases items.len(),
{
    if items.len() == 0 {
        0
    } else {
        occurrences(items.drop_last(), k) + if items.last() == k { 1int } else { 0int }
    }
}

proof fn lemma_occurrences_nonneg(items: Seq<SVal>, k: SVal)
    ensures
        occurrences(items, k) >= 0,
    decreases items.len(),
{
    if items.len() > 0 {
        lemma_occurrences_nonneg(items.drop_last(), k);
    }
}

/// The multiset of a list maps each item to the number of times it occurs, and
/// has no entry for anything else.
pub proof fn lemma_multiset_counts(items: Seq<SVal>, k: SVal)
    ensures
        dict_get(multiset_spec(items), k) == if occurrences(items, k) > 0 {
            Some(SVal::Int(occurrences(items, k)))
        } else {
            None
        },
        map_new_multiset(SVal::List(items)) == SVal::Dict(multiset_spec(items)),
    decreases items.len(),
{
    if items.len() > 0 {
        let i0 = items.drop_last();
        lemma_occurrences_nonneg(i0, k);
        lemma_occurrences_nonneg(i0, items.last());
        lemma_multiset_counts(i0, k);
        lemma_multiset_counts(i0, items.last());
        let acc = multiset_spec(i0);
        let kl = items.last();
        let c = SVal::Int(count_of(acc, kl) + 1);
        if k == kl {
            lemma_dict_insert_get(acc, kl, c);
        } else {
            lemma_dict_insert_other(acc, kl, c, k);
        }
    }
}

} // verus!
