//! Operations on maps; most act on the map held by the context.
use crate::prelude::setup::{default_dyn_mode, default_free_mode};
use crate::prelude::{func_sval, prim_func, prim_model, put_func, spec_default_mode, Prelude};
use crate::types::dict::dict_insert;
use crate::types::val::{CtxAccess, FuncVal, SVal, Val, ValMap};
use crate::types::bigint::{big_add, big_from_i64, big_from_usize};
use crate::types::copy::{copy_pair, copy_val, lemma_view_entries, lemma_view_list, lemma_view_list_push};
use crate::types::dict::{dict_contains, dict_get, dict_remove, Entries};
use crate::types::val::{sval_pair, view_entries, view_list, view_val};
use crate::prelude::apply::Prim;
use vstd::prelude::*;

verus! {

pub struct MapPrelude {
    pub length: FuncVal,
    pub items: FuncVal,
    pub into_items: FuncVal,
    pub keys: FuncVal,
    pub into_keys: FuncVal,
    pub values: FuncVal,
    pub into_values: FuncVal,
    pub contains: FuncVal,
    pub contains_all: FuncVal,
    pub contains_any: FuncVal,
    pub set: FuncVal,
    pub set_many: FuncVal,
    pub get: FuncVal,
    pub get_many: FuncVal,
    pub remove: FuncVal,
    pub remove_many: FuncVal,
    pub clear: FuncVal,
    pub new_map: FuncVal,
    pub new_set: FuncVal,
    pub new_multiset: FuncVal,
}

impl Default for MapPrelude {
    fn default() -> (r: Self)
        ensures
            func_sval(r.length) == prim_model("map.length"@, CtxAccess::Const, spec_default_mode(), spec_default_mode(), Some(Prim::Dict(crate::prelude::map::MapFn::Length))),
            func_sval(r.items) == prim_model("map.items"@, CtxAccess::Const, spec_default_mode(), spec_default_mode(), Some(Prim::Dict(crate::prelude::map::MapFn::Items))),
            func_sval(r.into_items) == prim_model("map.into_items"@, CtxAccess::Mut, spec_default_mode(), spec_default_mode(), Some(Prim::Dict(crate::prelude::map::MapFn::IntoItems))),
            func_sval(r.keys) == prim_model("map.keys"@, CtxAccess::Const, spec_default_mode(), spec_default_mode(), Some(Prim::Dict(crate::prelude::map::MapFn::Keys))),
            func_sval(r.into_keys) == prim_model("map.into_keys"@, CtxAccess::Mut, spec_default_mode(), spec_default_mode(), Some(Prim::Dict(crate::prelude::map::MapFn::IntoKeys))),
            func_sval(r.values) == prim_model("map.values"@, CtxAccess::Const, spec_default_mode(), spec_default_mode(), Some(Prim::Dict(crate::prelude::map::MapFn::Values))),
            func_sval(r.into_values) == prim_model("map.into_values"@, CtxAccess::Mut, spec_default_mode(), spec_default_mode(), Some(Prim::Dict(crate::prelude::map::MapFn::IntoValues))),
            func_sval(r.contains) == prim_model("map.contains"@, CtxAccess::Const, spec_default_mode(), spec_default_mode(), Some(Prim::Dict(crate::prelude::map::MapFn::Contains))),
            func_sval(r.contains_all) == prim_model("map.contains_all"@, CtxAccess::Const, spec_default_mode(), spec_default_mode(), Some(Prim::Dict(crate::prelude::map::MapFn::ContainsAll))),
            func_sval(r.contains_any) == prim_model("map.contains_any"@, CtxAccess::Const, spec_default_mode(), spec_default_mode(), Some(Prim::Dict(crate::prelude::map::MapFn::ContainsAny))),
            func_sval(r.set) == prim_model("map.set"@, CtxAccess::Mut, spec_default_mode(), spec_default_mode(), Some(Prim::Dict(crate::prelude::map::MapFn::Replace))),
            func_sval(r.set_many) == prim_model("map.set_many"@, CtxAccess::Mut, spec_default_mode(), spec_default_mode(), Some(Prim::Dict(crate::prelude::map::MapFn::SetMany))),
            func_sval(r.get) == prim_model("map.get"@, CtxAccess::Const, spec_default_mode(), spec_default_mode(), Some(Prim::Dict(crate::prelude::map::MapFn::Get))),
            func_sval(r.get_many) == prim_model("map.get_many"@, CtxAccess::Const, spec_default_mode(), spec_default_mode(), Some(Prim::Dict(crate::prelude::map::MapFn::GetMany))),
            func_sval(r.remove) == prim_model("map.remove"@, CtxAccess::Mut, spec_default_mode(), spec_default_mode(), Some(Prim::Dict(crate::prelude::map::MapFn::Remove))),
            func_sval(r.remove_many) == prim_model("map.remove_many"@, CtxAccess::Mut, spec_default_mode(), spec_default_mode(), Some(Prim::Dict(crate::prelude::map::MapFn::RemoveMany))),
            func_sval(r.clear) == prim_model("map.clear"@, CtxAccess::Mut, spec_default_mode(), spec_default_mode(), Some(Prim::Dict(crate::prelude::map::MapFn::Clear))),
            func_sval(r.new_map) == prim_model("map"@, CtxAccess::Free, spec_default_mode(), spec_default_mode(), Some(Prim::Dict(crate::prelude::map::MapFn::NewMap))),
            func_sval(r.new_set) == prim_model("set"@, CtxAccess::Free, spec_default_mode(), spec_default_mode(), Some(Prim::Dict(crate::prelude::map::MapFn::NewSet))),
            func_sval(r.new_multiset) == prim_model("multiset"@, CtxAccess::Free, spec_default_mode(), spec_default_mode(), Some(Prim::Dict(crate::prelude::map::MapFn::NewMultiset))),
    {
        MapPrelude {
            length: self::length(),
            items: self::items(),
            into_items: self::into_items(),
            keys: self::keys(),
            into_keys: self::into_keys(),
            values: self::values(),
            into_values: self::into_values(),
            contains: self::contains(),
            contains_all: self::contains_all(),
            contains_any: self::contains_any(),
            set: self::set(),
            set_many: self::set_many(),
            get: self::get(),
            get_many: self::get_many(),
            remove: self::remove(),
            remove_many: self::remove_many(),
            clear: self::clear(),
            new_map: self::new_map(),
            new_set: self::new_set(),
            new_multiset: self::new_multiset(),
        }
    }
}

impl Prelude for MapPrelude {
    fn put(&self, ctx: &mut ValMap)
        ensures
            final(ctx).view() == dict_insert(dict_insert(dict_insert(dict_insert(dict_insert(dict_insert(dict_insert(dict_insert(dict_insert(dict_insert(dict_insert(dict_insert(dict_insert(dict_insert(dict_insert(dict_insert(dict_insert(dict_insert(dict_insert(dict_insert(old(ctx).view(), SVal::Symbol(self.length.id@), func_sval(self.length)), SVal::Symbol(self.items.id@), func_sval(self.items)), SVal::Symbol(self.into_items.id@), func_sval(self.into_items)), SVal::Symbol(self.keys.id@), func_sval(self.keys)), SVal::Symbol(self.into_keys.id@), func_sval(self.into_keys)), SVal::Symbol(self.values.id@), func_sval(self.values)), SVal::Symbol(self.into_values.id@), func_sval(self.into_values)), SVal::Symbol(self.contains.id@), func_sval(self.contains)), SVal::Symbol(self.contains_all.id@), func_sval(self.contains_all)), SVal::Symbol(self.contains_any.id@), func_sval(self.contains_any)), SVal::Symbol(self.set.id@), func_sval(self.set)), SVal::Symbol(self.set_many.id@), func_sval(self.set_many)), SVal::Symbol(self.get.id@), func_sval(self.get)), SVal::Symbol(self.get_many.id@), func_sval(self.get_many)), SVal::Symbol(self.remove.id@), func_sval(self.remove)), SVal::Symbol(self.remove_many.id@), func_sval(self.remove_many)), SVal::Symbol(self.clear.id@), func_sval(self.clear)), SVal::Symbol(self.new_map.id@), func_sval(self.new_map)), SVal::Symbol(self.new_set.id@), func_sval(self.new_set)), SVal::Symbol(self.new_multiset.id@), func_sval(self.new_multiset)),
    {
        put_func(ctx, &self.length);
        put_func(ctx, &self.items);
        put_func(ctx, &self.into_items);
        put_func(ctx, &self.keys);
        put_func(ctx, &self.into_keys);
        put_func(ctx, &self.values);
        put_func(ctx, &self.into_values);
        put_func(ctx, &self.contains);
        put_func(ctx, &self.contains_all);
        put_func(ctx, &self.contains_any);
        put_func(ctx, &self.set);
        put_func(ctx, &self.set_many);
        put_func(ctx, &self.get);
        put_func(ctx, &self.get_many);
        put_func(ctx, &self.remove);
        put_func(ctx, &self.remove_many);
        put_func(ctx, &self.clear);
        put_func(ctx, &self.new_map);
        put_func(ctx, &self.new_set);
        put_func(ctx, &self.new_multiset);
    }
}

/// `map.length`: the number of entries.
pub fn length() -> (f: FuncVal)
    ensures
        func_sval(f) == prim_model("map.length"@, CtxAccess::Const, spec_default_mode(), spec_default_mode(), Some(Prim::Dict(crate::prelude::map::MapFn::Length))),
{
    prim_func("map.length", CtxAccess::Const, default_dyn_mode(), Some(Prim::Dict(crate::prelude::map::MapFn::Length)))
}

/// `map.items`: the entries as a list of pairs.
pub fn items() -> (f: FuncVal)
    ensures
        func_sval(f) == prim_model("map.items"@, CtxAccess::Const, spec_default_mode(), spec_default_mode(), Some(Prim::Dict(crate::prelude::map::MapFn::Items))),
{
    prim_func("map.items", CtxAccess::Const, default_dyn_mode(), Some(Prim::Dict(crate::prelude::map::MapFn::Items)))
}

/// `map.into_items`: takes all entries out as a list of pairs.
pub fn into_items() -> (f: FuncVal)
    ensures
        func_sval(f) == prim_model("map.into_items"@, CtxAccess::Mut, spec_default_mode(), spec_default_mode(), Some(Prim::Dict(crate::prelude::map::MapFn::IntoItems))),
{
    prim_func("map.into_items", CtxAccess::Mut, default_dyn_mode(), Some(Prim::Dict(crate::prelude::map::MapFn::IntoItems)))
}

/// `map.keys`: the keys as a list.
pub fn keys() -> (f: FuncVal)
    ensures
        func_sval(f) == prim_model("map.keys"@, CtxAccess::Const, spec_default_mode(), spec_default_mode(), Some(Prim::Dict(crate::prelude::map::MapFn::Keys))),
{
    prim_func("map.keys", CtxAccess::Const, default_dyn_mode(), Some(Prim::Dict(crate::prelude::map::MapFn::Keys)))
}

/// `map.into_keys`: takes all entries out; gives the keys.
pub fn into_keys() -> (f: FuncVal)
    ensures
        func_sval(f) == prim_model("map.into_keys"@, CtxAccess::Mut, spec_default_mode(), spec_default_mode(), Some(Prim::Dict(crate::prelude::map::MapFn::IntoKeys))),
{
    prim_func("map.into_keys", CtxAccess::Mut, default_dyn_mode(), Some(Prim::Dict(crate::prelude::map::MapFn::IntoKeys)))
}

/// `map.values`: the values as a list.
pub fn values() -> (f: FuncVal)
    ensures
        func_sval(f) == prim_model("map.values"@, CtxAccess::Const, spec_default_mode(), spec_default_mode(), Some(Prim::Dict(crate::prelude::map::MapFn::Values))),
{
    prim_func("map.values", CtxAccess::Const, default_dyn_mode(), Some(Prim::Dict(crate::prelude::map::MapFn::Values)))
}

/// `map.into_values`: takes all entries out; gives the values.
pub fn into_values() -> (f: FuncVal)
    ensures
        func_sval(f) == prim_model("map.into_values"@, CtxAccess::Mut, spec_default_mode(), spec_default_mode(), Some(Prim::Dict(crate::prelude::map::MapFn::IntoValues))),
{
    prim_func("map.into_values", CtxAccess::Mut, default_dyn_mode(), Some(Prim::Dict(crate::prelude::map::MapFn::IntoValues)))
}

/// `map.contains`: whether a key is present.
pub fn contains() -> (f: FuncVal)
    ensures
        func_sval(f) == prim_model("map.contains"@, CtxAccess::Const, spec_default_mode(), spec_default_mode(), Some(Prim::Dict(crate::prelude::map::MapFn::Contains))),
{
    prim_func("map.contains", CtxAccess::Const, default_dyn_mode(), Some(Prim::Dict(crate::prelude::map::MapFn::Contains)))
}

/// `map.contains_all`: whether every key of a list is present.
pub fn contains_all() -> (f: FuncVal)
    ensures
        func_sval(f) == prim_model("map.contains_all"@, CtxAccess::Const, spec_default_mode(), spec_default_mode(), Some(Prim::Dict(crate::prelude::map::MapFn::ContainsAll))),
{
    prim_func("map.contains_all", CtxAccess::Const, default_dyn_mode(), Some(Prim::Dict(crate::prelude::map::MapFn::ContainsAll)))
}

/// `map.contains_any`: whether some key of a list is present.
pub fn contains_any() -> (f: FuncVal)
    ensures
        func_sval(f) == prim_model("map.contains_any"@, CtxAccess::Const, spec_default_mode(), spec_default_mode(), Some(Prim::Dict(crate::prelude::map::MapFn::ContainsAny))),
{
    prim_func("map.contains_any", CtxAccess::Const, default_dyn_mode(), Some(Prim::Dict(crate::prelude::map::MapFn::ContainsAny)))
}

/// `map.set`: maps a key to a value; gives back the value replaced.
pub fn set() -> (f: FuncVal)
    ensures
        func_sval(f) == prim_model("map.set"@, CtxAccess::Mut, spec_default_mode(), spec_default_mode(), Some(Prim::Dict(crate::prelude::map::MapFn::Replace))),
{
    prim_func("map.set", CtxAccess::Mut, default_dyn_mode(), Some(Prim::Dict(crate::prelude::map::MapFn::Replace)))
}

/// `map.set_many`: puts in every entry of a map; gives back the entries replaced.
pub fn set_many() -> (f: FuncVal)
    ensures
        func_sval(f) == prim_model("map.set_many"@, CtxAccess::Mut, spec_default_mode(), spec_default_mode(), Some(Prim::Dict(crate::prelude::map::MapFn::SetMany))),
{
    prim_func("map.set_many", CtxAccess::Mut, default_dyn_mode(), Some(Prim::Dict(crate::prelude::map::MapFn::SetMany)))
}

/// `map.get`: a copy of the value of a key.
pub fn get() -> (f: FuncVal)
    ensures
        func_sval(f) == prim_model("map.get"@, CtxAccess::Const, spec_default_mode(), spec_default_mode(), Some(Prim::Dict(crate::prelude::map::MapFn::Get))),
{
    prim_func("map.get", CtxAccess::Const, default_dyn_mode(), Some(Prim::Dict(crate::prelude::map::MapFn::Get)))
}

/// `map.get_many`: the entries of a list of keys.
pub fn get_many() -> (f: FuncVal)
    ensures
        func_sval(f) == prim_model("map.get_many"@, CtxAccess::Const, spec_default_mode(), spec_default_mode(), Some(Prim::Dict(crate::prelude::map::MapFn::GetMany))),
{
    prim_func("map.get_many", CtxAccess::Const, default_dyn_mode(), Some(Prim::Dict(crate::prelude::map::MapFn::GetMany)))
}

/// `map.remove`: takes out the entry of a key; gives back its value.
pub fn remove() -> (f: FuncVal)
    ensures
        func_sval(f) == prim_model("map.remove"@, CtxAccess::Mut, spec_default_mode(), spec_default_mode(), Some(Prim::Dict(crate::prelude::map::MapFn::Remove))),
{
    prim_func("map.remove", CtxAccess::Mut, default_dyn_mode(), Some(Prim::Dict(crate::prelude::map::MapFn::Remove)))
}

/// `map.remove_many`: takes out the entries of a list of keys.
pub fn remove_many() -> (f: FuncVal)
    ensures
        func_sval(f) == prim_model("map.remove_many"@, CtxAccess::Mut, spec_default_mode(), spec_default_mode(), Some(Prim::Dict(crate::prelude::map::MapFn::RemoveMany))),
{
    prim_func("map.remove_many", CtxAccess::Mut, default_dyn_mode(), Some(Prim::Dict(crate::prelude::map::MapFn::RemoveMany)))
}

/// `map.clear`: removes every entry.
pub fn clear() -> (f: FuncVal)
    ensures
        func_sval(f) == prim_model("map.clear"@, CtxAccess::Mut, spec_default_mode(), spec_default_mode(), Some(Prim::Dict(crate::prelude::map::MapFn::Clear))),
{
    prim_func("map.clear", CtxAccess::Mut, default_dyn_mode(), Some(Prim::Dict(crate::prelude::map::MapFn::Clear)))
}

/// `map`: the map of a list of key-value pairs.
pub fn new_map() -> (f: FuncVal)
    ensures
        func_sval(f) == prim_model("map"@, CtxAccess::Free, spec_default_mode(), spec_default_mode(), Some(Prim::Dict(crate::prelude::map::MapFn::NewMap))),
{
    prim_func("map", CtxAccess::Free, default_free_mode(), Some(Prim::Dict(crate::prelude::map::MapFn::NewMap)))
}

/// `set`: the items of a list, each mapped to unit.
pub fn new_set() -> (f: FuncVal)
    ensures
        func_sval(f) == prim_model("set"@, CtxAccess::Free, spec_default_mode(), spec_default_mode(), Some(Prim::Dict(crate::prelude::map::MapFn::NewSet))),
{
    prim_func("set", CtxAccess::Free, default_free_mode(), Some(Prim::Dict(crate::prelude::map::MapFn::NewSet)))
}

/// `multiset`: the items of a list, each mapped to its count.
pub fn new_multiset() -> (f: FuncVal)
    ensures
        func_sval(f) == prim_model("multiset"@, CtxAccess::Free, spec_default_mode(), spec_default_mode(), Some(Prim::Dict(crate::prelude::map::MapFn::NewMultiset))),
{
    prim_func("multiset", CtxAccess::Free, default_free_mode(), Some(Prim::Dict(crate::prelude::map::MapFn::NewMultiset)))
}

/// Each entry as a pair, in entry order.
pub open spec fn entries_items(s: Entries) -> Seq<SVal> {
    Seq::new(s.len(), |i: int| sval_pair(s[i].0, s[i].1))
}

pub open spec fn entries_keys(s: Entries) -> Seq<SVal> {
    Seq::new(s.len(), |i: int| s[i].0)
}

pub open spec fn entries_values(s: Entries) -> Seq<SVal> {
    Seq::new(s.len(), |i: int| s[i].1)
}

/// The map read from a context value; `None` for other values.
pub open spec fn dict_of(v: SVal) -> Option<Entries> {
    match v {
        SVal::Dict(s) => Some(s),
        _ => None,
    }
}

/// The items of a list value; `None` for other values.
pub open spec fn list_of(v: SVal) -> Option<Seq<SVal>> {
    match v {
        SVal::List(l) => Some(l),
        _ => None,
    }
}

/// The entries found for the keys `ks`, in the order the keys come.
pub open spec fn get_many_spec(s: Entries, ks: Seq<SVal>) -> Entries
    decreases ks.len(),
{
    if ks.len() == 0 {
        Seq::empty()
    } else {
        let acc = get_many_spec(s, ks.drop_last());
        match dict_get(s, ks.last()) {
            Some(v) => dict_insert(acc, ks.last(), v),
            None => acc,
        }
    }
}

/// The map left after taking out the keys `ks`, and the entries taken out.
pub open spec fn remove_many_spec(s: Entries, ks: Seq<SVal>) -> (Entries, Entries)
    decreases ks.len(),
{
    if ks.len() == 0 {
        (s, Seq::empty())
    } else {
        let (m, out) = remove_many_spec(s, ks.drop_last());
        let k = ks.last();
        match dict_get(m, k) {
            Some(v) => (dict_remove(m, k), dict_insert(out, k, v)),
            None => (m, out),
        }
    }
}

/// The map after putting in the entries `u` one by one, and the entries they replaced.
pub open spec fn set_many_spec(s: Entries, u: Entries) -> (Entries, Entries)
    decreases u.len(),
{
    if u.len() == 0 {
        (s, Seq::empty())
    } else {
        let (m, out) = set_many_spec(s, u.drop_last());
        let (k, v) = u.last();
        match dict_get(m, k) {
            Some(old) => (dict_insert(m, k, v), dict_insert(out, k, old)),
            None => (dict_insert(m, k, v), out),
        }
    }
}

/// The map whose entries are the pairs of a list, later pairs winning; `None` when an
/// item is not a pair.
pub open spec fn new_map_spec(items: Seq<SVal>) -> Option<Entries>
    decreases items.len(),
{
    if items.len() == 0 {
        Some(Seq::empty())
    } else {
        match (new_map_spec(items.drop_last()), items.last()) {
            (Some(acc), SVal::Pair(k, v)) => Some(dict_insert(acc, *k, *v)),
            _ => None,
        }
    }
}

/// The set of the items of a list: each item mapped to unit.
pub open spec fn new_set_spec(items: Seq<SVal>) -> Entries
    decreases items.len(),
{
    if items.len() == 0 {
        Seq::empty()
    } else {
        dict_insert(new_set_spec(items.drop_last()), items.last(), SVal::Unit)
    }
}

pub open spec fn count_of(s: Entries, k: SVal) -> int {
    match dict_get(s, k) {
        Some(SVal::Int(n)) => n,
        _ => 0,
    }
}

/// Each item of a list mapped to the number of times it occurs.
pub open spec fn multiset_spec(items: Seq<SVal>) -> Entries
    decreases items.len(),
{
    if items.len() == 0 {
        Seq::empty()
    } else {
        let acc = multiset_spec(items.drop_last());
        dict_insert(acc, items.last(), SVal::Int(count_of(acc, items.last()) + 1))
    }
}

pub open spec fn map_length(ctx: SVal) -> SVal {
    match dict_of(ctx) {
        Some(s) => SVal::Int(s.len() as int),
        None => SVal::Unit,
    }
}

pub open spec fn map_seq(ctx: SVal, f: spec_fn(Entries) -> Seq<SVal>) -> SVal {
    match dict_of(ctx) {
        Some(s) => SVal::List(f(s)),
        None => SVal::Unit,
    }
}

pub open spec fn map_take_seq(ctx: SVal, f: spec_fn(Entries) -> Seq<SVal>) -> (SVal, SVal) {
    match dict_of(ctx) {
        Some(s) => (SVal::Dict(Seq::empty()), SVal::List(f(s))),
        None => (ctx, SVal::Unit),
    }
}

pub open spec fn all_keys_in(s: Entries, ks: Seq<SVal>) -> bool {
    forall|i: int| 0 <= i < ks.len() ==> dict_contains(s, #[trigger] ks[i])
}

pub open spec fn any_key_in(s: Entries, ks: Seq<SVal>) -> bool {
    exists|i: int| 0 <= i < ks.len() && dict_contains(s, #[trigger] ks[i])
}

pub open spec fn map_contains_all(ctx: SVal, input: SVal) -> SVal {
    match (dict_of(ctx), list_of(input)) {
        (Some(s), Some(ks)) => SVal::Bit(all_keys_in(s, ks)),
        _ => SVal::Unit,
    }
}

pub open spec fn map_contains_any(ctx: SVal, input: SVal) -> SVal {
    match (dict_of(ctx), list_of(input)) {
        (Some(s), Some(ks)) => SVal::Bit(any_key_in(s, ks)),
        _ => SVal::Unit,
    }
}

pub open spec fn or_unit(v: Option<SVal>) -> SVal {
    match v {
        Some(x) => x,
        None => SVal::Unit,
    }
}

pub open spec fn map_set(ctx: SVal, input: SVal) -> (SVal, SVal) {
    match (ctx, input) {
        (SVal::Dict(s), SVal::Pair(k, v)) => (SVal::Dict(dict_insert(s, *k, *v)), or_unit(dict_get(s, *k))),
        _ => (ctx, SVal::Unit),
    }
}

pub open spec fn map_set_many(ctx: SVal, input: SVal) -> (SVal, SVal) {
    match (ctx, input) {
        (SVal::Dict(s), SVal::Dict(u)) => (SVal::Dict(set_many_spec(s, u).0), SVal::Dict(set_many_spec(s, u).1)),
        _ => (ctx, SVal::Unit),
    }
}

pub open spec fn map_get(ctx: SVal, input: SVal) -> SVal {
    match ctx {
        SVal::Dict(s) => or_unit(dict_get(s, input)),
        _ => SVal::Unit,
    }
}

pub open spec fn map_get_many(ctx: SVal, input: SVal) -> SVal {
    match (ctx, input) {
        (SVal::Dict(s), SVal::List(ks)) => SVal::Dict(get_many_spec(s, ks)),
        _ => SVal::Unit,
    }
}

pub open spec fn map_remove(ctx: SVal, input: SVal) -> (SVal, SVal) {
    match ctx {
        SVal::Dict(s) => (SVal::Dict(dict_remove(s, input)), or_unit(dict_get(s, input))),
        _ => (ctx, SVal::Unit),
    }
}

pub open spec fn map_remove_many(ctx: SVal, input: SVal) -> (SVal, SVal) {
    match (ctx, input) {
        (SVal::Dict(s), SVal::List(ks)) => (SVal::Dict(remove_many_spec(s, ks).0), SVal::Dict(remove_many_spec(s, ks).1)),
        _ => (ctx, SVal::Unit),
    }
}

pub open spec fn map_clear(ctx: SVal) -> (SVal, SVal) {
    match ctx {
        SVal::Dict(s) => (SVal::Dict(Seq::empty()), SVal::Unit),
        _ => (ctx, SVal::Unit),
    }
}

pub open spec fn map_new(input: SVal) -> SVal {
    match input {
        SVal::List(items) => match new_map_spec(items) {
            Some(s) => SVal::Dict(s),
            None => SVal::Unit,
        },
        _ => SVal::Unit,
    }
}

pub open spec fn map_new_set(input: SVal) -> SVal {
    match input {
        SVal::List(items) => SVal::Dict(new_set_spec(items)),
        _ => SVal::Unit,
    }
}

pub open spec fn map_new_multiset(input: SVal) -> SVal {
    match input {
        SVal::List(items) => SVal::Dict(multiset_spec(items)),
        _ => SVal::Unit,
    }
}

/// Each entry as a pair value, copied.
pub fn copy_items(m: &ValMap) -> (r: Vec<Val>)
    ensures
        view_list(r@) == entries_items(m.view()),
{
    proof {
        lemma_view_entries(m.entries@);
    }
    let mut out: Vec<Val> = Vec::new();
    let mut i: usize = 0;
    while i < m.entries.len()
        invariant
            i <= m.entries@.len(),
            view_entries(m.entries@).len() == m.entries@.len(),
            forall|j: int| 0 <= j < m.entries@.len() ==> #[trigger] view_entries(m.entries@)[j] == (view_val(m.entries@[j].first), view_val(m.entries@[j].second)),
            view_list(out@) == entries_items(m.view()).take(i as int),
        decreases m.entries@.len() - i,
    {
        let p = copy_pair(&m.entries[i]);
        let ghost old_out = out@;
        let item = Val::Pair(Box::new(p));
        out.push(item);
        proof {
            lemma_view_list_push(old_out, item);
            assert(view_list(out@) =~= entries_items(m.view()).take(i + 1));
        }
        i = i + 1;
    }
    proof {
        assert(entries_items(m.view()).take(i as int) =~= entries_items(m.view()));
    }
    out
}

/// The keys, copied, or the values, copied.
pub fn copy_column(m: &ValMap, keys: bool) -> (r: Vec<Val>)
    ensures
        view_list(r@) == (if keys { entries_keys(m.view()) } else { entries_values(m.view()) }),
{
    proof {
        lemma_view_entries(m.entries@);
    }
    let ghost want = if keys { entries_keys(m.view()) } else { entries_values(m.view()) };
    let mut out: Vec<Val> = Vec::new();
    let mut i: usize = 0;
    while i < m.entries.len()
        invariant
            i <= m.entries@.len(),
            want == (if keys { entries_keys(m.view()) } else { entries_values(m.view()) }),
            view_entries(m.entries@).len() == m.entries@.len(),
            forall|j: int| 0 <= j < m.entries@.len() ==> #[trigger] view_entries(m.entries@)[j] == (view_val(m.entries@[j].first), view_val(m.entries@[j].second)),
            view_list(out@) == want.take(i as int),
        decreases m.entries@.len() - i,
    {
        let item = if keys { copy_val(&m.entries[i].first) } else { copy_val(&m.entries[i].second) };
        let ghost old_out = out@;
        out.push(item);
        proof {
            lemma_view_list_push(old_out, item);
            assert(view_list(out@) =~= want.take(i + 1));
        }
        i = i + 1;
    }
    proof {
        assert(want.take(i as int) =~= want);
    }
    out
}

pub fn fn_length(ctx: &Val, _input: Val) -> (r: Val)
    ensures
        r@ == map_length(ctx@),
{
    let Val::Dict(map) = ctx else {
        return Val::Unit;
    };
    Val::Int(big_from_usize(map.len()))
}

pub fn fn_items(ctx: &Val, _input: Val) -> (r: Val)
    ensures
        r@ == map_seq(ctx@, |s: Entries| entries_items(s)),
{
    let Val::Dict(map) = ctx else {
        return Val::Unit;
    };
    Val::List(copy_items(map))
}

pub fn fn_into_items(ctx: &mut Val, _input: Val) -> (r: Val)
    ensures
        (final(ctx)@, r@) == map_take_seq(old(ctx)@, |s: Entries| entries_items(s)),
{
    let Val::Dict(map) = ctx else {
        return Val::Unit;
    };
    let items = copy_items(map);
    *map = ValMap::new();
    Val::List(items)
}

pub fn fn_keys(ctx: &Val, _input: Val) -> (r: Val)
    ensures
        r@ == map_seq(ctx@, |s: Entries| entries_keys(s)),
{
    let Val::Dict(map) = ctx else {
        return Val::Unit;
    };
    Val::List(copy_column(map, true))
}

pub fn fn_into_keys(ctx: &mut Val, _input: Val) -> (r: Val)
    ensures
        (final(ctx)@, r@) == map_take_seq(old(ctx)@, |s: Entries| entries_keys(s)),
{
    let Val::Dict(map) = ctx else {
        return Val::Unit;
    };
    let keys = copy_column(map, true);
    *map = ValMap::new();
    Val::List(keys)
}

pub fn fn_values(ctx: &Val, _input: Val) -> (r: Val)
    ensures
        r@ == map_seq(ctx@, |s: Entries| entries_values(s)),
{
    let Val::Dict(map) = ctx else {
        return Val::Unit;
    };
    Val::List(copy_column(map, false))
}

pub fn fn_into_values(ctx: &mut Val, _input: Val) -> (r: Val)
    ensures
        (final(ctx)@, r@) == map_take_seq(old(ctx)@, |s: Entries| entries_values(s)),
{
    let Val::Dict(map) = ctx else {
        return Val::Unit;
    };
    let values = copy_column(map, false);
    *map = ValMap::new();
    Val::List(values)
}

pub fn fn_contains(ctx: &Val, input: Val) -> (r: Val)
    ensures
        r@ == (match ctx@ {
            SVal::Dict(s) => SVal::Bit(dict_contains(s, input@)),
            _ => SVal::Unit,
        }),
{
    let Val::Dict(map) = ctx else {
        return Val::Unit;
    };
    Val::Bit(map.contains(&input))
}

pub fn fn_contains_all(ctx: &Val, input: Val) -> (r: Val)
    ensures
        r@ == map_contains_all(ctx@, input@),
{
    let ghost input_v = input@;
    let Val::Dict(map) = ctx else {
        return Val::Unit;
    };
    let Val::List(keys) = input else {
        return Val::Unit;
    };
    proof {
        lemma_view_list(keys@);
    }
    let mut i: usize = 0;
    while i < keys.len()
        invariant
            input_v == SVal::List(view_list(keys@)),
            input_v == input@,
            ctx@ == SVal::Dict(map.view()),
            i <= keys@.len(),
            view_list(keys@).len() == keys@.len(),
            forall|j: int| 0 <= j < keys@.len() ==> #[trigger] view_list(keys@)[j] == view_val(keys@[j]),
            forall|j: int| 0 <= j < i ==> dict_contains(map.view(), #[trigger] view_list(keys@)[j]),
        decreases keys@.len() - i,
    {
        if !map.contains(&keys[i]) {
            assert(!dict_contains(map.view(), view_list(keys@)[i as int]));
            assert(!all_keys_in(map.view(), view_list(keys@)));
            return Val::Bit(false);
        }
        i = i + 1;
    }
    Val::Bit(true)
}

pub fn fn_contains_many(ctx: &Val, input: Val) -> (r: Val)
    ensures
        r@ == map_contains_any(ctx@, input@),
{
    let ghost input_v = input@;
    let Val::Dict(map) = ctx else {
        return Val::Unit;
    };
    let Val::List(keys) = input else {
        return Val::Unit;
    };
    proof {
        lemma_view_list(keys@);
    }
    let mut i: usize = 0;
    while i < keys.len()
        invariant
            input_v == SVal::List(view_list(keys@)),
            input_v == input@,
            ctx@ == SVal::Dict(map.view()),
            i <= keys@.len(),
            view_list(keys@).len() == keys@.len(),
            forall|j: int| 0 <= j < keys@.len() ==> #[trigger] view_list(keys@)[j] == view_val(keys@[j]),
            forall|j: int| 0 <= j < i ==> !dict_contains(map.view(), #[trigger] view_list(keys@)[j]),
        decreases keys@.len() - i,
    {
        if map.contains(&keys[i]) {
            assert(dict_contains(map.view(), view_list(keys@)[i as int]));
            assert(any_key_in(map.view(), view_list(keys@)));
            return Val::Bit(true);
        }
        i = i + 1;
    }
    Val::Bit(false)
}

pub fn fn_set(ctx: &mut Val, input: Val) -> (r: Val)
    ensures
        (final(ctx)@, r@) == map_set(old(ctx)@, input@),
{
    let Val::Dict(map) = ctx else {
        return Val::Unit;
    };
    let Val::Pair(key_value) = input else {
        return Val::Unit;
    };
    let key_value = *key_value;
    match map.insert(key_value.first, key_value.second) {
        Some(v) => v,
        None => Val::Unit,
    }
}

pub fn fn_set_many(ctx: &mut Val, input: Val) -> (r: Val)
    ensures
        (final(ctx)@, r@) == map_set_many(old(ctx)@, input@),
{
    let Val::Dict(map) = ctx else {
        return Val::Unit;
    };
    let Val::Dict(update) = input else {
        return Val::Unit;
    };
    let ghost s0 = map.view();
    let ghost u = update.view();
    proof {
        lemma_view_entries(update.entries@);
    }
    let mut out = ValMap::new();
    let mut i: usize = 0;
    while i < update.entries.len()
        invariant
            i <= update.entries@.len(),
            u == update.view(),
            view_entries(update.entries@).len() == update.entries@.len(),
            forall|j: int| 0 <= j < update.entries@.len() ==> #[trigger] view_entries(update.entries@)[j] == (view_val(update.entries@[j].first), view_val(update.entries@[j].second)),
            (map.view(), out.view()) == set_many_spec(s0, u.take(i as int)),
        decreases update.entries@.len() - i,
    {
        proof {
            assert(u.take(i + 1).drop_last() =~= u.take(i as int));
        }
        let k = copy_val(&update.entries[i].first);
        let v = copy_val(&update.entries[i].second);
        let k2 = copy_val(&k);
        match map.insert(k, v) {
            Some(old) => {
                let _ = out.insert(k2, old);
            },
            None => {},
        }
        i = i + 1;
    }
    proof {
        assert(u.take(i as int) =~= u);
    }
    Val::Dict(out)
}

pub fn fn_get(ctx: &Val, input: Val) -> (r: Val)
    ensures
        r@ == map_get(ctx@, input@),
{
    let Val::Dict(map) = ctx else {
        return Val::Unit;
    };
    match map.get(&input) {
        Some(v) => v,
        None => Val::Unit,
    }
}

pub fn fn_get_many(ctx: &Val, input: Val) -> (r: Val)
    ensures
        r@ == map_get_many(ctx@, input@),
{
    let Val::Dict(map) = ctx else {
        return Val::Unit;
    };
    let Val::List(keys) = input else {
        return Val::Unit;
    };
    let ghost ks = view_list(keys@);
    proof {
        lemma_view_list(keys@);
    }
    let mut out = ValMap::new();
    let mut i: usize = 0;
    while i < keys.len()
        invariant
            i <= keys@.len(),
            ks == view_list(keys@),
            ks.len() == keys@.len(),
            forall|j: int| 0 <= j < keys@.len() ==> #[trigger] ks[j] == view_val(keys@[j]),
            out.view() == get_many_spec(map.view(), ks.take(i as int)),
        decreases keys@.len() - i,
    {
        proof {
            assert(ks.take(i + 1).drop_last() =~= ks.take(i as int));
        }
        match map.get(&keys[i]) {
            Some(v) => {
                let k = copy_val(&keys[i]);
                let _ = out.insert(k, v);
            },
            None => {},
        }
        i = i + 1;
    }
    proof {
        assert(ks.take(i as int) =~= ks);
    }
    Val::Dict(out)
}

pub fn fn_remove(ctx: &mut Val, input: Val) -> (r: Val)
    ensures
        (final(ctx)@, r@) == map_remove(old(ctx)@, input@),
{
    let Val::Dict(map) = ctx else {
        return Val::Unit;
    };
    match map.remove(&input) {
        Some(v) => v,
        None => Val::Unit,
    }
}

pub fn fn_remove_many(ctx: &mut Val, input: Val) -> (r: Val)
    ensures
        (final(ctx)@, r@) == map_remove_many(old(ctx)@, input@),
{
    let Val::Dict(map) = ctx else {
        return Val::Unit;
    };
    let Val::List(keys) = input else {
        return Val::Unit;
    };
    let ghost s0 = map.view();
    let ghost ks = view_list(keys@);
    proof {
        lemma_view_list(keys@);
    }
    let mut out = ValMap::new();
    let mut i: usize = 0;
    while i < keys.len()
        invariant
            i <= keys@.len(),
            ks == view_list(keys@),
            ks.len() == keys@.len(),
            forall|j: int| 0 <= j < keys@.len() ==> #[trigger] ks[j] == view_val(keys@[j]),
            (map.view(), out.view()) == remove_many_spec(s0, ks.take(i as int)),
        decreases keys@.len() - i,
    {
        proof {
            assert(ks.take(i + 1).drop_last() =~= ks.take(i as int));
        }
        match map.remove(&keys[i]) {
            Some(v) => {
                let k = copy_val(&keys[i]);
                let _ = out.insert(k, v);
            },
            None => {},
        }
        i = i + 1;
    }
    proof {
        assert(ks.take(i as int) =~= ks);
    }
    Val::Dict(out)
}

pub fn fn_clear(ctx: &mut Val, _input: Val) -> (r: Val)
    ensures
        (final(ctx)@, r@) == map_clear(old(ctx)@),
{
    let Val::Dict(map) = ctx else {
        return Val::Unit;
    };
    *map = ValMap::new();
    Val::Unit
}

pub fn fn_new_map(input: Val) -> (r: Val)
    ensures
        r@ == map_new(input@),
{
    let ghost input_v = input@;
    let Val::List(list) = input else {
        return Val::Unit;
    };
    let ghost items = view_list(list@);
    proof {
        lemma_view_list(list@);
    }
    let mut out = ValMap::new();
    let mut i: usize = 0;
    while i < list.len()
        invariant
            input_v == SVal::List(view_list(list@)),
            input_v == input@,
            i <= list@.len(),
            items == view_list(list@),
            items.len() == list@.len(),
            forall|j: int| 0 <= j < list@.len() ==> #[trigger] items[j] == view_val(list@[j]),
            new_map_spec(items.take(i as int)) == Some(out.view()),
        decreases list@.len() - i,
    {
        proof {
            assert(items.take(i + 1).drop_last() =~= items.take(i as int));
        }
        match &list[i] {
            Val::Pair(p) => {
                let k = copy_val(&p.first);
                let v = copy_val(&p.second);
                let _ = out.insert(k, v);
            },
            _ => {
                assert(new_map_spec(items.take(i + 1)) is None);
                proof {
                    lemma_new_map_none(items, i as int + 1);
                    assert(input_v == SVal::List(items));
                }
                return Val::Unit;
            },
        }
        i = i + 1;
    }
    proof {
        assert(items.take(i as int) =~= items);
    }
    Val::Dict(out)
}

/// Once a prefix holds an item that is not a pair, every longer prefix does.
pub proof fn lemma_new_map_none(items: Seq<SVal>, n: int)
    requires
        0 <= n <= items.len(),
        new_map_spec(items.take(n)) is None,
    ensures
        new_map_spec(items) is None,
    decreases items.len() - n,
{
    if n < items.len() {
        assert(items.take(n + 1).drop_last() =~= items.take(n));
        lemma_new_map_none(items, n + 1);
    } else {
        assert(items.take(n) =~= items);
    }
}

pub fn fn_new_set(input: Val) -> (r: Val)
    ensures
        r@ == map_new_set(input@),
{
    let Val::List(list) = input else {
        return Val::Unit;
    };
    let ghost items = view_list(list@);
    proof {
        lemma_view_list(list@);
    }
    let mut out = ValMap::new();
    let mut i: usize = 0;
    while i < list.len()
        invariant
            i <= list@.len(),
            items == view_list(list@),
            items.len() == list@.len(),
            forall|j: int| 0 <= j < list@.len() ==> #[trigger] items[j] == view_val(list@[j]),
            new_set_spec(items.take(i as int)) == out.view(),
        decreases list@.len() - i,
    {
        proof {
            assert(items.take(i + 1).drop_last() =~= items.take(i as int));
        }
        let k = copy_val(&list[i]);
        let _ = out.insert(k, Val::Unit);
        i = i + 1;
    }
    proof {
        assert(items.take(i as int) =~= items);
    }
    Val::Dict(out)
}

pub fn fn_new_multiset(input: Val) -> (r: Val)
    ensures
        r@ == map_new_multiset(input@),
{
    let Val::List(list) = input else {
        return Val::Unit;
    };
    let ghost items = view_list(list@);
    proof {
        lemma_view_list(list@);
    }
    let mut out = ValMap::new();
    let mut i: usize = 0;
    while i < list.len()
        invariant
            i <= list@.len(),
            items == view_list(list@),
            items.len() == list@.len(),
            forall|j: int| 0 <= j < list@.len() ==> #[trigger] items[j] == view_val(list@[j]),
            multiset_spec(items.take(i as int)) == out.view(),
        decreases list@.len() - i,
    {
        proof {
            assert(items.take(i + 1).drop_last() =~= items.take(i as int));
        }
        let count = match out.get(&list[i]) {
            Some(Val::Int(n)) => n,
            _ => big_from_i64(0),
        };
        let one = big_from_i64(1);
        let k = copy_val(&list[i]);
        let _ = out.insert(k, Val::Int(big_add(&count, &one)));
        i = i + 1;
    }
    proof {
        assert(items.take(i as int) =~= items);
    }
    Val::Dict(out)
}


/// The built-in functions of this module, by what they compute.
#[derive(Clone, Copy, PartialEq, Eq, Structural)]
pub enum MapFn {
    Length,
    Items,
    IntoItems,
    Keys,
    IntoKeys,
    Values,
    IntoValues,
    Contains,
    ContainsAll,
    ContainsAny,
    Replace,
    SetMany,
    Get,
    GetMany,
    Remove,
    RemoveMany,
    Clear,
    NewMap,
    NewSet,
    NewMultiset,
}

/// What calling one of these functions does: the context after the call, and the result.
pub open spec fn run_spec(f: MapFn, ctx: SVal, input: SVal) -> (SVal, SVal) {
    match f {
        MapFn::Length => (ctx, map_length(ctx)),
        MapFn::Items => (ctx, map_seq(ctx, |s: Entries| entries_items(s))),
        MapFn::IntoItems => map_take_seq(ctx, |s: Entries| entries_items(s)),
        MapFn::Keys => (ctx, map_seq(ctx, |s: Entries| entries_keys(s))),
        MapFn::IntoKeys => map_take_seq(ctx, |s: Entries| entries_keys(s)),
        MapFn::Values => (ctx, map_seq(ctx, |s: Entries| entries_values(s))),
        MapFn::IntoValues => map_take_seq(ctx, |s: Entries| entries_values(s)),
        MapFn::Contains => (ctx, (match ctx { SVal::Dict(s) => SVal::Bit(dict_contains(s, input)), _ => SVal::Unit, })),
        MapFn::ContainsAll => (ctx, map_contains_all(ctx, input)),
        MapFn::ContainsAny => (ctx, map_contains_any(ctx, input)),
        MapFn::Replace => map_set(ctx, input),
        MapFn::SetMany => map_set_many(ctx, input),
        MapFn::Get => (ctx, map_get(ctx, input)),
        MapFn::GetMany => (ctx, map_get_many(ctx, input)),
        MapFn::Remove => map_remove(ctx, input),
        MapFn::RemoveMany => map_remove_many(ctx, input),
        MapFn::Clear => map_clear(ctx),
        MapFn::NewMap => (ctx, map_new(input)),
        MapFn::NewSet => (ctx, map_new_set(input)),
        MapFn::NewMultiset => (ctx, map_new_multiset(input)),
    }
}

/// Calls one of these functions on a context it may change.
pub fn run(f: MapFn, ctx: &mut Val, input: Val) -> (r: Val)
    ensures
        (final(ctx)@, r@) == run_spec(f, old(ctx)@, input@),
{
    match f {
        MapFn::Length => fn_length(&*ctx, input),
        MapFn::Items => fn_items(&*ctx, input),
        MapFn::IntoItems => fn_into_items(ctx, input),
        MapFn::Keys => fn_keys(&*ctx, input),
        MapFn::IntoKeys => fn_into_keys(ctx, input),
        MapFn::Values => fn_values(&*ctx, input),
        MapFn::IntoValues => fn_into_values(ctx, input),
        MapFn::Contains => fn_contains(&*ctx, input),
        MapFn::ContainsAll => fn_contains_all(&*ctx, input),
        MapFn::ContainsAny => fn_contains_many(&*ctx, input),
        MapFn::Replace => fn_set(ctx, input),
        MapFn::SetMany => fn_set_many(ctx, input),
        MapFn::Get => fn_get(&*ctx, input),
        MapFn::GetMany => fn_get_many(&*ctx, input),
        MapFn::Remove => fn_remove(ctx, input),
        MapFn::RemoveMany => fn_remove_many(ctx, input),
        MapFn::Clear => fn_clear(ctx, input),
        MapFn::NewMap => fn_new_map(input),
        MapFn::NewSet => fn_new_set(input),
        MapFn::NewMultiset => fn_new_multiset(input),
    }
}

} // verus!
