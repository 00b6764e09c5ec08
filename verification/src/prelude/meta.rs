//! The version of the language, read from its decimal parts.
use crate::types::bigint::{big_add, big_from_i64, big_mul, int_value};
use crate::types::val::{view_list, SVal, Val};
use num_bigint::BigInt;
use vstd::prelude::*;

verus! {

pub open spec fn is_digit(c: char) -> bool {
    '0' <= c && c <= '9'
}

/// A non-empty run of decimal digits.
pub open spec fn is_decimal(s: Seq<char>) -> bool {
    s.len() > 0 && forall|i: int| 0 <= i < s.len() ==> is_digit(#[trigger] s[i])
}

pub open spec fn decimal_value(s: Seq<char>) -> int
    decreases s.len(),
{
    if s.len() == 0 {
        0
    } else {
        decimal_value(s.drop_last()) * 10 + ((s.last() as int) - ('0' as int))
    }
}

/// The number a run of decimal digits writes.
pub fn parse_decimal(s: &str) -> (r: Option<BigInt>)
    ensures
        r is Some <==> is_decimal(s@),
        r matches Some(n) ==> int_value(n) == decimal_value(s@),
{
    let len = s.unicode_len();
    if len == 0 {
        return None;
    }
    let ten = big_from_i64(10);
    let mut n = big_from_i64(0);
    let mut i: usize = 0;
    while i < len
        invariant
            len == s@.len(),
            i <= len,
            int_value(ten) == 10,
            int_value(n) == decimal_value(s@.take(i as int)),
            forall|j: int| 0 <= j < i ==> is_digit(#[trigger] s@[j]),
        decreases len - i,
    {
        let c = s.get_char(i);
        if !('0' <= c && c <= '9') {
            assert(!is_digit(s@[i as int]));
            return None;
        }
        let d = big_from_i64((c as u32 - '0' as u32) as i64);
        let m = big_mul(&n, &ten);
        n = big_add(&m, &d);
        assert(s@.take(i + 1).drop_last() =~= s@.take(i as int));
        i = i + 1;
    }
    assert(s@.take(len as int) =~= s@);
    Some(n)
}

/// The model of a version: its three parts as integers.
pub open spec fn version_spec(major: Seq<char>, minor: Seq<char>, patch: Seq<char>) -> Option<SVal> {
    if is_decimal(major) && is_decimal(minor) && is_decimal(patch) {
        Some(SVal::List(seq![SVal::Int(decimal_value(major)), SVal::Int(decimal_value(minor)), SVal::Int(decimal_value(patch))]))
    } else {
        None
    }
}

/// `air.version`: the list of the three parts of a version, when each is decimal.
pub fn version(major: &str, minor: &str, patch: &str) -> (r: Option<Val>)
    ensures
        match version_spec(major@, minor@, patch@) {
            Some(v) => r matches Some(x) && x@ == v,
            None => r is None,
        },
{
    let Some(a) = parse_decimal(major) else {
        return None;
    };
    let Some(b) = parse_decimal(minor) else {
        return None;
    };
    let Some(c) = parse_decimal(patch) else {
        return None;
    };
    let mut parts: Vec<Val> = Vec::new();
    parts.push(Val::Int(a));
    parts.push(Val::Int(b));
    parts.push(Val::Int(c));
    proof {
        crate::types::copy::lemma_view_list(parts@);
        assert(view_list(parts@) =~= seq![SVal::Int(decimal_value(major@)), SVal::Int(decimal_value(minor@)), SVal::Int(decimal_value(patch@))]);
    }
    Some(Val::List(parts))
}

} // verus!
