//! What joining symbols, texts and bytes gives, stated part by part.
use crate::prelude::byte::{byte_join, byte_parts};
use crate::prelude::symbol::{symbol_from_text, symbol_into_text, symbol_join, symbol_length, symbol_parts};
use crate::prelude::text::{text_from_utf8, text_into_utf8, text_join, text_length, text_parts};
use crate::types::seqs::lemma_join_push;
use crate::types::val::{sval_pair, SVal};
use vstd::prelude::*;

verus! {

/// Joining with one more symbol at the end: after the symbols before it (if
/// any) come the separator and the new symbol; joining no symbol gives the empty
/// symbol. A list holding anything but symbols joins to unit.
pub proof fn lemma_symbol_join_push(sep: Seq<char>, items: Seq<SVal>, t: Seq<char>)
    ensures
        symbol_join(sval_pair(SVal::Symbol(sep), SVal::List(Seq::empty()))) == SVal::Symbol(Seq::<char>::empty()),
        symbol_join(sval_pair(SVal::Symbol(sep), SVal::List(items.push(SVal::Symbol(t))))) == match symbol_join(
            sval_pair(SVal::Symbol(sep), SVal::List(items)),
        ) {
            SVal::Symbol(j) => if items.len() == 0 {
                SVal::Symbol(t)
            } else {
                SVal::Symbol(j + sep + t)
            },
            _ => SVal::Unit,
        },
        symbol_join(sval_pair(SVal::Unit, SVal::List(items))) == symbol_join(
            sval_pair(SVal::Symbol(Seq::empty()), SVal::List(items)),
        ),
{
    let xs = items.push(SVal::Symbol(t));
    assert(xs.drop_last() =~= items);
    match symbol_parts(items) {
        Some(ps) => lemma_join_push(ps, sep, t),
        None => {},
    }
}

/// Two symbols joined with a separator give the first, the separator, then the second.
pub proof fn lemma_symbol_join_two(sep: Seq<char>, a: Seq<char>, b: Seq<char>)
    ensures
        symbol_join(sval_pair(SVal::Symbol(sep), SVal::List(seq![SVal::Symbol(a), SVal::Symbol(b)])))
            == SVal::Symbol(a + sep + b),
{
    let e = Seq::<SVal>::empty();
    assert(e.push(SVal::Symbol(a)) =~= seq![SVal::Symbol(a)]);
    assert(seq![SVal::Symbol(a)].push(SVal::Symbol(b)) =~= seq![SVal::Symbol(a), SVal::Symbol(b)]);
    lemma_symbol_join_push(sep, e, a);
    lemma_symbol_join_push(sep, seq![SVal::Symbol(a)], b);
}

/// Joining with one more text at the end: after the texts before it (if any)
/// come the separator and the new text; joining no text gives the empty text.
pub proof fn lemma_text_join_push(sep: Seq<char>, items: Seq<SVal>, t: Seq<char>)
    ensures
        text_join(sval_pair(SVal::Text(sep), SVal::List(Seq::empty()))) == SVal::Text(Seq::<char>::empty()),
        text_join(sval_pair(SVal::Text(sep), SVal::List(items.push(SVal::Text(t))))) == match text_join(
            sval_pair(SVal::Text(sep), SVal::List(items)),
        ) {
            SVal::Text(j) => if items.len() == 0 {
                SVal::Text(t)
            } else {
                SVal::Text(j + sep + t)
            },
            _ => SVal::Unit,
        },
        text_join(sval_pair(SVal::Unit, SVal::List(items))) == text_join(
            sval_pair(SVal::Text(Seq::empty()), SVal::List(items)),
        ),
{
    let xs = items.push(SVal::Text(t));
    assert(xs.drop_last() =~= items);
    match text_parts(items) {
        Some(ps) => lemma_join_push(ps, sep, t),
        None => {},
    }
}

/// Two texts joined with a separator give the first, the separator, then the second.
pub proof fn lemma_text_join_two(sep: Seq<char>, a: Seq<char>, b: Seq<char>)
    ensures
        text_join(sval_pair(SVal::Text(sep), SVal::List(seq![SVal::Text(a), SVal::Text(b)])))
            == SVal::Text(a + sep + b),
{
    let e = Seq::<SVal>::empty();
    assert(e.push(SVal::Text(a)) =~= seq![SVal::Text(a)]);
    assert(seq![SVal::Text(a)].push(SVal::Text(b)) =~= seq![SVal::Text(a), SVal::Text(b)]);
    lemma_text_join_push(sep, e, a);
    lemma_text_join_push(sep, seq![SVal::Text(a)], b);
}

/// Joining with one more byte string at the end: after those before it (if any)
/// come the separator and the new one; joining none gives the empty byte string.
pub proof fn lemma_byte_join_push(sep: Seq<u8>, items: Seq<SVal>, t: Seq<u8>)
    ensures
        byte_join(sval_pair(SVal::Byte(sep), SVal::List(Seq::empty()))) == SVal::Byte(Seq::<u8>::empty()),
        byte_join(sval_pair(SVal::Byte(sep), SVal::List(items.push(SVal::Byte(t))))) == match byte_join(
            sval_pair(SVal::Byte(sep), SVal::List(items)),
        ) {
            SVal::Byte(j) => if items.len() == 0 {
                SVal::Byte(t)
            } else {
                SVal::Byte(j + sep + t)
            },
            _ => SVal::Unit,
        },
        byte_join(sval_pair(SVal::Unit, SVal::List(items))) == byte_join(
            sval_pair(SVal::Byte(Seq::empty()), SVal::List(items)),
        ),
{
    let xs = items.push(SVal::Byte(t));
    assert(xs.drop_last() =~= items);
    match byte_parts(items) {
        Some(ps) => lemma_join_push(ps, sep, t),
        None => {},
    }
}

/// Two byte strings joined with a separator give the first, the separator, then the second.
pub proof fn lemma_byte_join_two(sep: Seq<u8>, a: Seq<u8>, b: Seq<u8>)
    ensures
        byte_join(sval_pair(SVal::Byte(sep), SVal::List(seq![SVal::Byte(a), SVal::Byte(b)])))
            == SVal::Byte(a + sep + b),
{
    let e = Seq::<SVal>::empty();
    assert(e.push(SVal::Byte(a)) =~= seq![SVal::Byte(a)]);
    assert(seq![SVal::Byte(a)].push(SVal::Byte(b)) =~= seq![SVal::Byte(a), SVal::Byte(b)]);
    lemma_byte_join_push(sep, e, a);
    lemma_byte_join_push(sep, seq![SVal::Byte(a)], b);
}

/// A symbol turned into a text keeps its characters and its length; a text of
/// symbol characters turned into a symbol and back is the same text.
pub proof fn lemma_symbol_text(s: Seq<char>)
    ensures
        symbol_into_text(SVal::Symbol(s)) == SVal::Text(s),
        symbol_length(SVal::Symbol(s)) == text_length(symbol_into_text(SVal::Symbol(s))),
        symbol_from_text(SVal::Text(s)) is Symbol ==> symbol_into_text(symbol_from_text(SVal::Text(s))) == SVal::Text(s),
{
}

/// Bytes that are valid UTF-8 are read as the text whose encoding they are;
/// other bytes give unit.
pub proof fn lemma_text_from_utf8(b: Seq<u8>)
    ensures
        vstd::utf8::valid_utf8(b) ==> (text_from_utf8(SVal::Byte(b)) matches SVal::Text(t) && text_into_utf8(
            SVal::Text(t),
        ) == SVal::Byte(b)),
        !vstd::utf8::valid_utf8(b) ==> text_from_utf8(SVal::Byte(b)) == SVal::Unit,
{
    if vstd::utf8::valid_utf8(b) {
        vstd::utf8::decode_utf8_encode_utf8(b);
    }
}

} // verus!
