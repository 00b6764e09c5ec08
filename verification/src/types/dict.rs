//! Maps of the language: entries with pairwise distinct keys.
use crate::types::copy::{copy_val, lemma_view_entries, val_eq};
use crate::types::val::{view_entries, view_val, PairVal, SVal, Val, ValMap};
use vstd::prelude::*;

verus! {

pub type Entries = Seq<(SVal, SVal)>;

/// No key occurs twice.
pub open spec fn keys_distinct(s: Entries) -> bool {
    forall|i: int, j: int| 0 <= i < j < s.len() ==> s[i].0 != s[j].0
}

/// The index of the last entry whose key is `k`, or -1.
pub open spec fn dict_index(s: Entries, k: SVal) -> int
    decreases s.len(),
{
    if s.len() == 0 {
        -1
    } else if s.last().0 == k {
        s.len() - 1
    } else {
        dict_index(s.drop_last(), k)
    }
}

pub open spec fn dict_contains(s: Entries, k: SVal) -> bool {
    dict_index(s, k) >= 0
}

/// The value stored under `k`.
pub open spec fn dict_get(s: Entries, k: SVal) -> Option<SVal> {
    let i = dict_index(s, k);
    if i >= 0 {
        Some(s[i].1)
    } else {
        None
    }
}

/// The entries after `k` is mapped to `v`: a present key keeps its place.
pub open spec fn dict_insert(s: Entries, k: SVal, v: SVal) -> Entries {
    let i = dict_index(s, k);
    if i >= 0 {
        s.update(i, (k, v))
    } else {
        s.push((k, v))
    }
}

/// The entries after `k` is taken out.
pub open spec fn dict_remove(s: Entries, k: SVal) -> Entries {
    let i = dict_index(s, k);
    if i >= 0 {
        s.remove(i)
    } else {
        s
    }
}

pub proof fn lemma_dict_index(s: Entries, k: SVal)
    ensures
        -1 <= dict_index(s, k) < s.len(),
        dict_index(s, k) >= 0 ==> s[dict_index(s, k)].0 == k,
        forall|j: int| dict_index(s, k) < j < s.len() ==> #[trigger] s[j].0 != k,
    decreases s.len(),
{
    if s.len() > 0 {
        lemma_dict_index(s.drop_last(), k);
        assert forall|j: int| dict_index(s, k) < j < s.len() implies #[trigger] s[j].0 != k by {
            if j < s.len() - 1 {
                assert(s[j] == s.drop_last()[j]);
            }
        }
    }
}

/// With distinct keys, the entry found is the only one with that key.
pub proof fn lemma_dict_index_unique(s: Entries, k: SVal, i: int)
    requires
        keys_distinct(s),
        0 <= i < s.len(),
        s[i].0 == k,
    ensures
        dict_index(s, k) == i,
{
    lemma_dict_index(s, k);
}

/// After `k` is mapped to `v`, the value under `k` is `v`.
pub proof fn lemma_dict_insert_get(s: Entries, k: SVal, v: SVal)
    ensures
        dict_get(dict_insert(s, k, v), k) == Some(v),
{
    lemma_dict_index(s, k);
    let t = dict_insert(s, k, v);
    lemma_dict_index(t, k);
    let i = dict_index(s, k);
    if i < 0 {
        assert(t.last().0 == k);
    } else {
        assert(t[i].0 == k);
        if dict_index(t, k) > i {
            assert(t[dict_index(t, k)] == s[dict_index(t, k)]);
        }
    }
}

/// Mapping `k` leaves the value under any other key as it was.
pub proof fn lemma_dict_insert_other(s: Entries, k: SVal, v: SVal, other: SVal)
    requires
        other != k,
    ensures
        dict_get(dict_insert(s, k, v), other) == dict_get(s, other),
{
    lemma_dict_index(s, k);
    lemma_dict_index(s, other);
    let t = dict_insert(s, k, v);
    lemma_dict_index(t, other);
    let i = dict_index(s, k);
    let j = dict_index(s, other);
    let jt = dict_index(t, other);
    if i < 0 {
        assert(t.drop_last() =~= s);
    } else {
        if jt >= 0 {
            assert(t[jt] == s[jt]);
        }
        if j >= 0 {
            assert(t[j] == s[j]);
        }
    }
}

/// After `k` is taken out of entries with distinct keys, nothing is stored under `k`.
pub proof fn lemma_dict_remove_get(s: Entries, k: SVal)
    requires
        keys_distinct(s),
    ensures
        dict_get(dict_remove(s, k), k) is None,
{
    lemma_dict_index(s, k);
    let t = dict_remove(s, k);
    lemma_dict_index(t, k);
    let i = dict_index(s, k);
    let jt = dict_index(t, k);
    if i >= 0 && jt >= 0 {
        let j2 = if jt < i { jt } else { jt + 1 };
        assert(t[jt] == s[j2]);
    }
}

pub proof fn lemma_dict_insert_distinct(s: Entries, k: SVal, v: SVal)
    requires
        keys_distinct(s),
    ensures
        keys_distinct(dict_insert(s, k, v)),
{
    lemma_dict_index(s, k);
    let t = dict_insert(s, k, v);
    assert forall|i: int, j: int| 0 <= i < j < t.len() implies t[i].0 != t[j].0 by {
        if dict_index(s, k) < 0 {
            if j == s.len() {
                assert(s[i].0 != k);
            }
        }
    }
}

pub proof fn lemma_dict_remove_distinct(s: Entries, k: SVal)
    requires
        keys_distinct(s),
    ensures
        keys_distinct(dict_remove(s, k)),
{
    lemma_dict_index(s, k);
    let idx = dict_index(s, k);
    let t = dict_remove(s, k);
    if idx >= 0 {
        assert forall|i: int, j: int| 0 <= i < j < t.len() implies t[i].0 != t[j].0 by {
            let i2 = if i < idx { i } else { i + 1 };
            let j2 = if j < idx { j } else { j + 1 };
            assert(t[i] == s[i2]);
            assert(t[j] == s[j2]);
        }
    }
}

impl ValMap {
    pub open spec fn view(&self) -> Entries {
        view_entries(self.entries@)
    }

    pub fn new() -> (m: ValMap)
        ensures
            m.view() == Seq::<(SVal, SVal)>::empty(),
    {
        ValMap { entries: Vec::new() }
    }

    pub fn len(&self) -> (n: usize)
        ensures
            n == self.view().len(),
    {
        proof {
            lemma_view_entries(self.entries@);
        }
        self.entries.len()
    }

    /// The position of the entry whose key is `k`.
    pub fn find(&self, k: &Val) -> (r: Option<usize>)
        ensures
            r matches Some(i) ==> dict_index(self.view(), k@) == i && i < self.entries@.len(),
            r is None ==> dict_index(self.view(), k@) == -1,
    {
        proof {
            lemma_view_entries(self.entries@);
            lemma_dict_index(self.view(), k@);
        }
        let mut i: usize = self.entries.len();
        while i > 0
            invariant
                i <= self.entries@.len(),
                view_entries(self.entries@).len() == self.entries@.len(),
                forall|j: int|
                    0 <= j < self.entries@.len() ==> #[trigger] view_entries(self.entries@)[j] == (
                        view_val(self.entries@[j].first),
                        view_val(self.entries@[j].second),
                    ),
                forall|j: int| i <= j < self.entries@.len() ==> #[trigger] self.view()[j].0 != k@,
                -1 <= dict_index(self.view(), k@) < self.view().len(),
                dict_index(self.view(), k@) >= 0 ==> self.view()[dict_index(self.view(), k@)].0
                    == k@,
                forall|j: int|
                    dict_index(self.view(), k@) < j < self.view().len() ==> #[trigger] self.view()[j].0
                        != k@,
            decreases i,
        {
            i = i - 1;
            if val_eq(&self.entries[i].first, k) {
                assert(self.view()[i as int].0 == k@);
                return Some(i);
            }
        }
        None
    }

    pub fn contains(&self, k: &Val) -> (r: bool)
        ensures
            r == dict_contains(self.view(), k@),
    {
        self.find(k).is_some()
    }

    /// A copy of the value stored under `k`.
    pub fn get(&self, k: &Val) -> (r: Option<Val>)
        ensures
            r matches Some(v) ==> dict_get(self.view(), k@) == Some(v@),
            r is None ==> dict_get(self.view(), k@) is None,
    {
        proof {
            lemma_view_entries(self.entries@);
        }
        match self.find(k) {
            Some(i) => Some(copy_val(&self.entries[i].second)),
            None => None,
        }
    }

    /// Maps `k` to `v`; gives back the value it replaced.
    pub fn insert(&mut self, k: Val, v: Val) -> (r: Option<Val>)
        ensures
            final(self).view() == dict_insert(old(self).view(), k@, v@),
            r matches Some(x) ==> dict_get(old(self).view(), k@) == Some(x@),
            r is None ==> dict_get(old(self).view(), k@) is None,
    {
        proof {
            lemma_view_entries(self.entries@);
        }
        let ghost kv = k@;
        let ghost vv = v@;
        let ghost old_view = self.view();
        let ghost old_entries = self.entries@;
        match self.find(&k) {
            Some(i) => {
                let mut e = PairVal { first: k, second: v };
                std::mem::swap(&mut self.entries[i], &mut e);
                let old_entry = e;
                proof {
                    lemma_view_entries(self.entries@);
                    assert(self.entries@ == old_entries.update(i as int, PairVal { first: k, second: v }));
                    assert(self.view() =~= dict_insert(old_view, kv, vv));
                }
                Some(old_entry.second)
            },
            None => {
                self.entries.push(PairVal { first: k, second: v });
                proof {
                    lemma_view_entries(self.entries@);
                    assert(self.view() =~= dict_insert(old_view, kv, vv));
                }
                None
            },
        }
    }

    /// Takes the entry of `k` out; gives back its value.
    pub fn remove(&mut self, k: &Val) -> (r: Option<Val>)
        ensures
            final(self).view() == dict_remove(old(self).view(), k@),
            r matches Some(x) ==> dict_get(old(self).view(), k@) == Some(x@),
            r is None ==> dict_get(old(self).view(), k@) is None,
    {
        proof {
            lemma_view_entries(self.entries@);
        }
        let ghost old_view = self.view();
        let ghost old_entries = self.entries@;
        match self.find(k) {
            Some(i) => {
                let e = self.entries.remove(i);
                proof {
                    lemma_view_entries(self.entries@);
                    assert(self.view() =~= dict_remove(old_view, k@));
                }
                Some(e.second)
            },
            None => None,
        }
    }
}

} // verus!
