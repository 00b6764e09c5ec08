//! What `for` binds, stated value by value.
use crate::laws::words::{lemma_byte_join_push, lemma_symbol_join_push, lemma_text_join_push};
use crate::prelude::byte::byte_join;
use crate::prelude::ctrl::for_values_spec;
use crate::prelude::symbol::symbol_join;
use crate::prelude::text::text_join;
use crate::types::val::{sval_pair, SVal};
use vstd::prelude::*;

verus! {

/// The one-character symbols of `s`, in order.
spec fn symbol_chars(s: Seq<char>) -> Seq<SVal> {
    Seq::new(s.len(), |i: int| SVal::Symbol(seq![s[i]]))
}

spec fn text_chars(s: Seq<char>) -> Seq<SVal> {
    Seq::new(s.len(), |i: int| SVal::Text(seq![s[i]]))
}

spec fn byte_units(s: Seq<u8>) -> Seq<SVal> {
    Seq::new(s.len(), |i: int| SVal::Byte(seq![s[i]]))
}

proof fn lemma_join_symbol_chars(s: Seq<char>)
    ensures
        symbol_join(sval_pair(SVal::Unit, SVal::List(symbol_chars(s)))) == SVal::Symbol(s),
    decreases s.len(),
{
    let e = Seq::<char>::empty();
    if s.len() == 0 {
        lemma_symbol_join_push(e, Seq::empty(), e);
        assert(symbol_chars(s) =~= Seq::<SVal>::empty());
        assert(s =~= e);
    } else {
        let s0 = s.drop_last();
        lemma_join_symbol_chars(s0);
        assert(symbol_chars(s) =~= symbol_chars(s0).push(SVal::Symbol(seq![s.last()])));
        lemma_symbol_join_push(e, symbol_chars(s0), seq![s.last()]);
        lemma_symbol_join_push(e, symbol_chars(s), seq![s.last()]);
        assert(s0 + e + seq![s.last()] =~= s);
        if s0.len() == 0 {
            assert(seq![s.last()] =~= s);
        }
        assert(symbol_join(sval_pair(SVal::Symbol(e), SVal::List(symbol_chars(s0)))) == SVal::Symbol(s0));
        assert(symbol_join(sval_pair(SVal::Symbol(e), SVal::List(symbol_chars(s)))) == SVal::Symbol(s));
    }
}

proof fn lemma_join_text_chars(s: Seq<char>)
    ensures
        text_join(sval_pair(SVal::Unit, SVal::List(text_chars(s)))) == SVal::Text(s),
    decreases s.len(),
{
    let e = Seq::<char>::empty();
    if s.len() == 0 {
        lemma_text_join_push(e, Seq::empty(), e);
        assert(text_chars(s) =~= Seq::<SVal>::empty());
        assert(s =~= e);
    } else {
        let s0 = s.drop_last();
        lemma_join_text_chars(s0);
        assert(text_chars(s) =~= text_chars(s0).push(SVal::Text(seq![s.last()])));
        lemma_text_join_push(e, text_chars(s0), seq![s.last()]);
        lemma_text_join_push(e, text_chars(s), seq![s.last()]);
        assert(s0 + e + seq![s.last()] =~= s);
        if s0.len() == 0 {
            assert(seq![s.last()] =~= s);
        }
        assert(text_join(sval_pair(SVal::Text(e), SVal::List(text_chars(s0)))) == SVal::Text(s0));
        assert(text_join(sval_pair(SVal::Text(e), SVal::List(text_chars(s)))) == SVal::Text(s));
    }
}

proof fn lemma_join_byte_units(s: Seq<u8>)
    ensures
        byte_join(sval_pair(SVal::Unit, SVal::List(byte_units(s)))) == SVal::Byte(s),
    decreases s.len(),
{
    let e = Seq::<u8>::empty();
    if s.len() == 0 {
        lemma_byte_join_push(e, Seq::empty(), e);
        assert(byte_units(s) =~= Seq::<SVal>::empty());
        assert(s =~= e);
    } else {
        let s0 = s.drop_last();
        lemma_join_byte_units(s0);
        assert(byte_units(s) =~= byte_units(s0).push(SVal::Byte(seq![s.last()])));
        lemma_byte_join_push(e, byte_units(s0), seq![s.last()]);
        lemma_byte_join_push(e, byte_units(s), seq![s.last()]);
        assert(s0 + e + seq![s.last()] =~= s);
        if s0.len() == 0 {
            assert(seq![s.last()] =~= s);
        }
        assert(byte_join(sval_pair(SVal::Byte(e), SVal::List(byte_units(s0)))) == SVal::Byte(s0));
        assert(byte_join(sval_pair(SVal::Byte(e), SVal::List(byte_units(s)))) == SVal::Byte(s));
    }
}

/// `for` over a symbol binds as many values as it has characters, the `i`-th
/// being the symbol of its `i`-th character alone; joined back they give the symbol.
pub proof fn lemma_for_symbol(s: Seq<char>)
    ensures
        for_values_spec(SVal::Symbol(s)) matches Some(vs) && vs.len() == s.len() && (forall|i: int|
            0 <= i < s.len() ==> (#[trigger] vs[i] matches SVal::Symbol(c) && c.len() == 1 && c[0] == s[i]))
            && symbol_join(sval_pair(SVal::Unit, SVal::List(vs))) == SVal::Symbol(s),
{
    lemma_join_symbol_chars(s);
    assert(for_values_spec(SVal::Symbol(s)) == Some(symbol_chars(s)));
}

/// `for` over a text binds its characters one by one, each as a text of one
/// character; joined back they give the text.
pub proof fn lemma_for_text(s: Seq<char>)
    ensures
        for_values_spec(SVal::Text(s)) matches Some(vs) && vs.len() == s.len() && (forall|i: int|
            0 <= i < s.len() ==> (#[trigger] vs[i] matches SVal::Text(c) && c.len() == 1 && c[0] == s[i]))
            && text_join(sval_pair(SVal::Unit, SVal::List(vs))) == SVal::Text(s),
{
    lemma_join_text_chars(s);
    assert(for_values_spec(SVal::Text(s)) == Some(text_chars(s)));
}

/// `for` over bytes binds them one by one, each as a byte string of one byte;
/// joined back they give the bytes.
pub proof fn lemma_for_bytes(s: Seq<u8>)
    ensures
        for_values_spec(SVal::Byte(s)) matches Some(vs) && vs.len() == s.len() && (forall|i: int|
            0 <= i < s.len() ==> (#[trigger] vs[i] matches SVal::Byte(c) && c.len() == 1 && c[0] == s[i]))
            && byte_join(sval_pair(SVal::Unit, SVal::List(vs))) == SVal::Byte(s),
{
    lemma_join_byte_units(s);
    assert(for_values_spec(SVal::Byte(s)) == Some(byte_units(s)));
}

/// `for` over a count `n` binds 0, 1, ..., n - 1 in order; over a list, its items
/// in order; over a map, its entries in order, each as a pair of key and value.
pub proof fn lemma_for_count_list_map(n: int, items: Seq<SVal>, es: Seq<(SVal, SVal)>)
    ensures
        0 <= n <= usize::MAX ==> (for_values_spec(SVal::Int(n)) matches Some(vs) && vs.len() == n
            && forall|i: int| 0 <= i < n ==> #[trigger] vs[i] == SVal::Int(i)),
        n < 0 ==> for_values_spec(SVal::Int(n)) is None,
        for_values_spec(SVal::List(items)) == Some(items),
        for_values_spec(SVal::Dict(es)) matches Some(vs) && vs.len() == es.len() && (forall|i: int|
            0 <= i < es.len() ==> #[trigger] vs[i] == sval_pair(es[i].0, es[i].1)),
{
}

} // verus!
