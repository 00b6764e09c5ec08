//! Operations on the list held by the context.
use crate::prelude::setup::{default_dyn_mode, default_free_mode};
use crate::prelude::{func_sval, prim_func, prim_model, put_func, spec_default_mode, Prelude};
use crate::types::dict::dict_insert;
use crate::types::val::{CtxAccess, FuncVal, SVal, Val, ValMap};
use crate::types::bigint::{big_from_usize, big_to_usize};
use crate::types::copy::{copy_val, lemma_view_list, lemma_view_list_update, lemma_view_list_insert, lemma_view_list_remove, lemma_view_list_subrange, lemma_view_list_add, lemma_view_list_push};
use crate::types::val::{view_list, view_val};
use crate::prelude::apply::Prim;
use vstd::prelude::*;

verus! {

pub struct ListPrelude {
    pub length: FuncVal,
    pub set: FuncVal,
    pub set_many: FuncVal,
    pub get: FuncVal,
    pub get_many: FuncVal,
    pub insert: FuncVal,
    pub insert_many: FuncVal,
    pub remove: FuncVal,
    pub remove_many: FuncVal,
    pub push: FuncVal,
    pub push_many: FuncVal,
    pub pop: FuncVal,
    pub pop_many: FuncVal,
    pub clear: FuncVal,
}

impl Default for ListPrelude {
    fn default() -> (r: Self)
        ensures
            func_sval(r.length) == prim_model("list.length"@, CtxAccess::Const, spec_default_mode(), spec_default_mode(), Some(Prim::List(crate::prelude::list::ListFn::Length))),
            func_sval(r.set) == prim_model("list.set"@, CtxAccess::Mut, spec_default_mode(), spec_default_mode(), Some(Prim::List(crate::prelude::list::ListFn::Replace))),
            func_sval(r.set_many) == prim_model("list.set_many"@, CtxAccess::Mut, spec_default_mode(), spec_default_mode(), Some(Prim::List(crate::prelude::list::ListFn::SetMany))),
            func_sval(r.get) == prim_model("list.get"@, CtxAccess::Const, spec_default_mode(), spec_default_mode(), Some(Prim::List(crate::prelude::list::ListFn::Get))),
            func_sval(r.get_many) == prim_model("list.get_many"@, CtxAccess::Const, spec_default_mode(), spec_default_mode(), Some(Prim::List(crate::prelude::list::ListFn::GetMany))),
            func_sval(r.insert) == prim_model("list.insert"@, CtxAccess::Mut, spec_default_mode(), spec_default_mode(), Some(Prim::List(crate::prelude::list::ListFn::Insert))),
            func_sval(r.insert_many) == prim_model("list.insert_many"@, CtxAccess::Mut, spec_default_mode(), spec_default_mode(), Some(Prim::List(crate::prelude::list::ListFn::InsertMany))),
            func_sval(r.remove) == prim_model("list.remove"@, CtxAccess::Mut, spec_default_mode(), spec_default_mode(), Some(Prim::List(crate::prelude::list::ListFn::Remove))),
            func_sval(r.remove_many) == prim_model("list.remove_many"@, CtxAccess::Mut, spec_default_mode(), spec_default_mode(), Some(Prim::List(crate::prelude::list::ListFn::RemoveMany))),
            func_sval(r.push) == prim_model("list.push"@, CtxAccess::Mut, spec_default_mode(), spec_default_mode(), Some(Prim::List(crate::prelude::list::ListFn::Push))),
            func_sval(r.push_many) == prim_model("list.push_many"@, CtxAccess::Mut, spec_default_mode(), spec_default_mode(), Some(Prim::List(crate::prelude::list::ListFn::PushMany))),
            func_sval(r.pop) == prim_model("list.pop"@, CtxAccess::Mut, spec_default_mode(), spec_default_mode(), Some(Prim::List(crate::prelude::list::ListFn::Pop))),
            func_sval(r.pop_many) == prim_model("list.pop_many"@, CtxAccess::Mut, spec_default_mode(), spec_default_mode(), Some(Prim::List(crate::prelude::list::ListFn::PopMany))),
            func_sval(r.clear) == prim_model("list.clear"@, CtxAccess::Mut, spec_default_mode(), spec_default_mode(), Some(Prim::List(crate::prelude::list::ListFn::Clear))),
    {
        ListPrelude {
            length: self::length(),
            set: self::set(),
            set_many: self::set_many(),
            get: self::get(),
            get_many: self::get_many(),
            insert: self::insert(),
            insert_many: self::insert_many(),
            remove: self::remove(),
            remove_many: self::remove_many(),
            push: self::push(),
            push_many: self::push_many(),
            pop: self::pop(),
            pop_many: self::pop_many(),
            clear: self::clear(),
        }
    }
}

impl Prelude for ListPrelude {
    fn put(&self, ctx: &mut ValMap)
        ensures
            final(ctx).view() == dict_insert(dict_insert(dict_insert(dict_insert(dict_insert(dict_insert(dict_insert(dict_insert(dict_insert(dict_insert(dict_insert(dict_insert(dict_insert(dict_insert(old(ctx).view(), SVal::Symbol(self.length.id@), func_sval(self.length)), SVal::Symbol(self.set.id@), func_sval(self.set)), SVal::Symbol(self.set_many.id@), func_sval(self.set_many)), SVal::Symbol(self.get.id@), func_sval(self.get)), SVal::Symbol(self.get_many.id@), func_sval(self.get_many)), SVal::Symbol(self.insert.id@), func_sval(self.insert)), SVal::Symbol(self.insert_many.id@), func_sval(self.insert_many)), SVal::Symbol(self.remove.id@), func_sval(self.remove)), SVal::Symbol(self.remove_many.id@), func_sval(self.remove_many)), SVal::Symbol(self.push.id@), func_sval(self.push)), SVal::Symbol(self.push_many.id@), func_sval(self.push_many)), SVal::Symbol(self.pop.id@), func_sval(self.pop)), SVal::Symbol(self.pop_many.id@), func_sval(self.pop_many)), SVal::Symbol(self.clear.id@), func_sval(self.clear)),
    {
        put_func(ctx, &self.length);
        put_func(ctx, &self.set);
        put_func(ctx, &self.set_many);
        put_func(ctx, &self.get);
        put_func(ctx, &self.get_many);
        put_func(ctx, &self.insert);
        put_func(ctx, &self.insert_many);
        put_func(ctx, &self.remove);
        put_func(ctx, &self.remove_many);
        put_func(ctx, &self.push);
        put_func(ctx, &self.push_many);
        put_func(ctx, &self.pop);
        put_func(ctx, &self.pop_many);
        put_func(ctx, &self.clear);
    }
}

/// `list.length`: the number of items of the context list.
pub fn length() -> (f: FuncVal)
    ensures
        func_sval(f) == prim_model("list.length"@, CtxAccess::Const, spec_default_mode(), spec_default_mode(), Some(Prim::List(crate::prelude::list::ListFn::Length))),
{
    prim_func("list.length", CtxAccess::Const, default_dyn_mode(), Some(Prim::List(crate::prelude::list::ListFn::Length)))
}

/// `list.set`: replaces the item at an index and gives back the old one.
pub fn set() -> (f: FuncVal)
    ensures
        func_sval(f) == prim_model("list.set"@, CtxAccess::Mut, spec_default_mode(), spec_default_mode(), Some(Prim::List(crate::prelude::list::ListFn::Replace))),
{
    prim_func("list.set", CtxAccess::Mut, default_dyn_mode(), Some(Prim::List(crate::prelude::list::ListFn::Replace)))
}

/// `list.set_many`: replaces a run of items starting at an index and gives back the old run.
pub fn set_many() -> (f: FuncVal)
    ensures
        func_sval(f) == prim_model("list.set_many"@, CtxAccess::Mut, spec_default_mode(), spec_default_mode(), Some(Prim::List(crate::prelude::list::ListFn::SetMany))),
{
    prim_func("list.set_many", CtxAccess::Mut, default_dyn_mode(), Some(Prim::List(crate::prelude::list::ListFn::SetMany)))
}

/// `list.get`: a copy of the item at an index.
pub fn get() -> (f: FuncVal)
    ensures
        func_sval(f) == prim_model("list.get"@, CtxAccess::Const, spec_default_mode(), spec_default_mode(), Some(Prim::List(crate::prelude::list::ListFn::Get))),
{
    prim_func("list.get", CtxAccess::Const, default_dyn_mode(), Some(Prim::List(crate::prelude::list::ListFn::Get)))
}

/// `list.get_many`: a copy of the items in a range.
pub fn get_many() -> (f: FuncVal)
    ensures
        func_sval(f) == prim_model("list.get_many"@, CtxAccess::Const, spec_default_mode(), spec_default_mode(), Some(Prim::List(crate::prelude::list::ListFn::GetMany))),
{
    prim_func("list.get_many", CtxAccess::Const, default_dyn_mode(), Some(Prim::List(crate::prelude::list::ListFn::GetMany)))
}

/// `list.insert`: puts an item before the item at an index.
pub fn insert() -> (f: FuncVal)
    ensures
        func_sval(f) == prim_model("list.insert"@, CtxAccess::Mut, spec_default_mode(), spec_default_mode(), Some(Prim::List(crate::prelude::list::ListFn::Insert))),
{
    prim_func("list.insert", CtxAccess::Mut, default_dyn_mode(), Some(Prim::List(crate::prelude::list::ListFn::Insert)))
}

/// `list.insert_many`: puts a list of items before the item at an index.
pub fn insert_many() -> (f: FuncVal)
    ensures
        func_sval(f) == prim_model("list.insert_many"@, CtxAccess::Mut, spec_default_mode(), spec_default_mode(), Some(Prim::List(crate::prelude::list::ListFn::InsertMany))),
{
    prim_func("list.insert_many", CtxAccess::Mut, default_dyn_mode(), Some(Prim::List(crate::prelude::list::ListFn::InsertMany)))
}

/// `list.remove`: takes out the item at an index.
pub fn remove() -> (f: FuncVal)
    ensures
        func_sval(f) == prim_model("list.remove"@, CtxAccess::Mut, spec_default_mode(), spec_default_mode(), Some(Prim::List(crate::prelude::list::ListFn::Remove))),
{
    prim_func("list.remove", CtxAccess::Mut, default_dyn_mode(), Some(Prim::List(crate::prelude::list::ListFn::Remove)))
}

/// `list.remove_many`: takes out the items in a range.
pub fn remove_many() -> (f: FuncVal)
    ensures
        func_sval(f) == prim_model("list.remove_many"@, CtxAccess::Mut, spec_default_mode(), spec_default_mode(), Some(Prim::List(crate::prelude::list::ListFn::RemoveMany))),
{
    prim_func("list.remove_many", CtxAccess::Mut, default_dyn_mode(), Some(Prim::List(crate::prelude::list::ListFn::RemoveMany)))
}

/// `list.push`: appends an item.
pub fn push() -> (f: FuncVal)
    ensures
        func_sval(f) == prim_model("list.push"@, CtxAccess::Mut, spec_default_mode(), spec_default_mode(), Some(Prim::List(crate::prelude::list::ListFn::Push))),
{
    prim_func("list.push", CtxAccess::Mut, default_dyn_mode(), Some(Prim::List(crate::prelude::list::ListFn::Push)))
}

/// `list.push_many`: appends a list of items.
pub fn push_many() -> (f: FuncVal)
    ensures
        func_sval(f) == prim_model("list.push_many"@, CtxAccess::Mut, spec_default_mode(), spec_default_mode(), Some(Prim::List(crate::prelude::list::ListFn::PushMany))),
{
    prim_func("list.push_many", CtxAccess::Mut, default_dyn_mode(), Some(Prim::List(crate::prelude::list::ListFn::PushMany)))
}

/// `list.pop`: takes out the last item.
pub fn pop() -> (f: FuncVal)
    ensures
        func_sval(f) == prim_model("list.pop"@, CtxAccess::Mut, spec_default_mode(), spec_default_mode(), Some(Prim::List(crate::prelude::list::ListFn::Pop))),
{
    prim_func("list.pop", CtxAccess::Mut, default_dyn_mode(), Some(Prim::List(crate::prelude::list::ListFn::Pop)))
}

/// `list.pop_many`: takes out the last items.
pub fn pop_many() -> (f: FuncVal)
    ensures
        func_sval(f) == prim_model("list.pop_many"@, CtxAccess::Mut, spec_default_mode(), spec_default_mode(), Some(Prim::List(crate::prelude::list::ListFn::PopMany))),
{
    prim_func("list.pop_many", CtxAccess::Mut, default_dyn_mode(), Some(Prim::List(crate::prelude::list::ListFn::PopMany)))
}

/// `list.clear`: removes all items.
pub fn clear() -> (f: FuncVal)
    ensures
        func_sval(f) == prim_model("list.clear"@, CtxAccess::Mut, spec_default_mode(), spec_default_mode(), Some(Prim::List(crate::prelude::list::ListFn::Clear))),
{
    prim_func("list.clear", CtxAccess::Mut, default_dyn_mode(), Some(Prim::List(crate::prelude::list::ListFn::Clear)))
}

/// An index: an integer that fits in a `usize`.
pub open spec fn to_index(v: SVal) -> Option<int> {
    match v {
        SVal::Int(i) => if 0 <= i <= usize::MAX {
            Some(i)
        } else {
            None
        },
        _ => None,
    }
}

/// One end of a range: an index, or unit for an open end.
pub open spec fn range_end(v: SVal) -> Option<Option<int>> {
    match v {
        SVal::Int(i) => if 0 <= i <= usize::MAX {
            Some(Some(i))
        } else {
            None
        },
        SVal::Unit => Some(None),
        _ => None,
    }
}

/// The bounds `from` and `to` of a range written as a pair; open ends are filled with 0
/// and `len`.
pub open spec fn list_range(v: SVal, len: int) -> Option<(int, int)> {
    match v {
        SVal::Pair(a, b) => match (range_end(*a), range_end(*b)) {
            (Some(f), Some(t)) => Some(
                (
                    match f {
                        Some(x) => x,
                        None => 0,
                    },
                    match t {
                        Some(x) => x,
                        None => len,
                    },
                ),
            ),
            _ => None,
        },
        _ => None,
    }
}

pub open spec fn list_length(ctx: SVal) -> SVal {
    match ctx {
        SVal::List(l) => SVal::Int(l.len() as int),
        _ => SVal::Unit,
    }
}

pub open spec fn list_set(ctx: SVal, input: SVal) -> (SVal, SVal) {
    match (ctx, input) {
        (SVal::List(l), SVal::Pair(a, b)) => match to_index(*a) {
            Some(i) => if i < l.len() {
                (SVal::List(l.update(i, *b)), l[i])
            } else {
                (ctx, SVal::Unit)
            },
            None => (ctx, SVal::Unit),
        },
        _ => (ctx, SVal::Unit),
    }
}

pub open spec fn list_set_many(ctx: SVal, input: SVal) -> (SVal, SVal) {
    match (ctx, input) {
        (SVal::List(l), SVal::Pair(a, b)) => match (to_index(*a), *b) {
            (Some(i), SVal::List(vs)) => if i + vs.len() <= l.len() {
                (
                    SVal::List(l.subrange(0, i) + vs + l.subrange(i + vs.len(), l.len() as int)),
                    SVal::List(l.subrange(i, i + vs.len())),
                )
            } else {
                (ctx, SVal::Unit)
            },
            _ => (ctx, SVal::Unit),
        },
        _ => (ctx, SVal::Unit),
    }
}

pub open spec fn list_get(ctx: SVal, input: SVal) -> SVal {
    match ctx {
        SVal::List(l) => match to_index(input) {
            Some(i) => if i < l.len() {
                l[i]
            } else {
                SVal::Unit
            },
            None => SVal::Unit,
        },
        _ => SVal::Unit,
    }
}

pub open spec fn list_get_many(ctx: SVal, input: SVal) -> SVal {
    match ctx {
        SVal::List(l) => match list_range(input, l.len() as int) {
            Some((f, t)) => if f <= t <= l.len() {
                SVal::List(l.subrange(f, t))
            } else {
                SVal::Unit
            },
            None => SVal::Unit,
        },
        _ => SVal::Unit,
    }
}

pub open spec fn list_insert(ctx: SVal, input: SVal) -> (SVal, SVal) {
    match (ctx, input) {
        (SVal::List(l), SVal::Pair(a, b)) => match to_index(*a) {
            Some(i) => if i <= l.len() {
                (SVal::List(l.insert(i, *b)), SVal::Unit)
            } else {
                (ctx, SVal::Unit)
            },
            None => (ctx, SVal::Unit),
        },
        _ => (ctx, SVal::Unit),
    }
}

pub open spec fn list_insert_many(ctx: SVal, input: SVal) -> (SVal, SVal) {
    match (ctx, input) {
        (SVal::List(l), SVal::Pair(a, b)) => match (to_index(*a), *b) {
            (Some(i), SVal::List(vs)) => if i <= l.len() {
                (SVal::List(l.subrange(0, i) + vs + l.subrange(i, l.len() as int)), SVal::Unit)
            } else {
                (ctx, SVal::Unit)
            },
            _ => (ctx, SVal::Unit),
        },
        _ => (ctx, SVal::Unit),
    }
}

pub open spec fn list_remove(ctx: SVal, input: SVal) -> (SVal, SVal) {
    match ctx {
        SVal::List(l) => match to_index(input) {
            Some(i) => if i < l.len() {
                (SVal::List(l.remove(i)), l[i])
            } else {
                (ctx, SVal::Unit)
            },
            None => (ctx, SVal::Unit),
        },
        _ => (ctx, SVal::Unit),
    }
}

pub open spec fn list_remove_many(ctx: SVal, input: SVal) -> (SVal, SVal) {
    match ctx {
        SVal::List(l) => match list_range(input, l.len() as int) {
            Some((f, t)) => if f <= t <= l.len() {
                (
                    SVal::List(l.subrange(0, f) + l.subrange(t, l.len() as int)),
                    SVal::List(l.subrange(f, t)),
                )
            } else {
                (ctx, SVal::Unit)
            },
            None => (ctx, SVal::Unit),
        },
        _ => (ctx, SVal::Unit),
    }
}

pub open spec fn list_push(ctx: SVal, input: SVal) -> (SVal, SVal) {
    match ctx {
        SVal::List(l) => (SVal::List(l.push(input)), SVal::Unit),
        _ => (ctx, SVal::Unit),
    }
}

pub open spec fn list_push_many(ctx: SVal, input: SVal) -> (SVal, SVal) {
    match (ctx, input) {
        (SVal::List(l), SVal::List(vs)) => (SVal::List(l + vs), SVal::Unit),
        _ => (ctx, SVal::Unit),
    }
}

pub open spec fn list_pop(ctx: SVal, input: SVal) -> (SVal, SVal) {
    match (ctx, input) {
        (SVal::List(l), SVal::Unit) => if l.len() > 0 {
            (SVal::List(l.drop_last()), l.last())
        } else {
            (ctx, SVal::Unit)
        },
        _ => (ctx, SVal::Unit),
    }
}

pub open spec fn list_pop_many(ctx: SVal, input: SVal) -> (SVal, SVal) {
    match (ctx, input) {
        (SVal::List(l), SVal::Int(i)) => if 0 <= i <= l.len() {
            (SVal::List(l.subrange(0, l.len() - i)), SVal::List(l.subrange(l.len() - i, l.len() as int)))
        } else {
            (ctx, SVal::Unit)
        },
        _ => (ctx, SVal::Unit),
    }
}

pub open spec fn list_clear(ctx: SVal) -> (SVal, SVal) {
    match ctx {
        SVal::List(l) => (SVal::List(Seq::empty()), SVal::Unit),
        _ => (ctx, SVal::Unit),
    }
}

/// An index read from an integer value.
pub fn take_index(val: Val) -> (r: Option<usize>)
    ensures
        r matches Some(i) ==> to_index(val@) == Some(i as int),
        r is None ==> to_index(val@) is None,
{
    let Val::Int(i) = val else {
        return None;
    };
    big_to_usize(&i)
}

/// A range end read from an integer or a unit.
pub fn take_range_end(val: Val) -> (r: Option<Option<usize>>)
    ensures
        r matches Some(Some(i)) ==> range_end(val@) == Some(Some(i as int)),
        r matches Some(None) ==> range_end(val@) == Some(None::<int>),
        r is None ==> range_end(val@) is None,
{
    match val {
        Val::Int(i) => match big_to_usize(&i) {
            Some(u) => Some(Some(u)),
            None => None,
        },
        Val::Unit => Some(None),
        _ => None,
    }
}

/// The bounds of a range; open ends become 0 and `len`.
pub fn take_range(input: Val, len: usize) -> (r: Option<(usize, usize)>)
    ensures
        r matches Some((f, t)) ==> list_range(input@, len as int) == Some((f as int, t as int)),
        r is None ==> list_range(input@, len as int) is None,
{
    let Val::Pair(pair) = input else {
        return None;
    };
    let pair = *pair;
    let from = take_range_end(pair.first);
    let to = take_range_end(pair.second);
    match (from, to) {
        (Some(f), Some(t)) => {
            let f = match f {
                Some(x) => x,
                None => 0,
            };
            let t = match t {
                Some(x) => x,
                None => len,
            };
            Some((f, t))
        },
        _ => None,
    }
}

pub fn fn_length(ctx: &Val, _input: Val) -> (r: Val)
    ensures
        r@ == list_length(ctx@),
{
    proof {
        lemma_view_list_len(ctx);
    }
    let Val::List(list) = ctx else {
        return Val::Unit;
    };
    Val::Int(big_from_usize(list.len()))
}

proof fn lemma_view_list_len(v: &Val)
    ensures
        v matches Val::List(l) ==> view_list(l@).len() == l@.len(),
{
    if let Val::List(l) = v {
        lemma_view_list(l@);
    }
}

pub fn fn_set(ctx: &mut Val, input: Val) -> (r: Val)
    ensures
        (final(ctx)@, r@) == list_set(old(ctx)@, input@),
{
    let ghost old_ctx = *ctx;
    let Val::List(list) = ctx else {
        return Val::Unit;
    };
    let Val::Pair(index_value) = input else {
        return Val::Unit;
    };
    let index_value = *index_value;
    let Some(i) = take_index(index_value.first) else {
        return Val::Unit;
    };
    proof {
        lemma_view_list(list@);
    }
    if i >= list.len() {
        return Val::Unit;
    }
    let mut value = index_value.second;
    let ghost old_list = list@;
    let ghost vv = value;
    std::mem::swap(&mut list[i], &mut value);
    proof {
        assert(list@ == old_list.update(i as int, vv));
        lemma_view_list_update(old_list, i as int, vv);
    }
    value
}

#[verifier::rlimit(40)]
pub fn fn_set_many(ctx: &mut Val, input: Val) -> (r: Val)
    ensures
        (final(ctx)@, r@) == list_set_many(old(ctx)@, input@),
{
    reveal_with_fuel(crate::types::val::view_val, 2);
    let Val::List(list) = ctx else {
        return Val::Unit;
    };
    let Val::Pair(index_value) = input else {
        return Val::Unit;
    };
    let index_value = *index_value;
    let Some(i) = take_index(index_value.first) else {
        return Val::Unit;
    };
    let Val::List(mut values) = index_value.second else {
        return Val::Unit;
    };
    proof {
        lemma_view_list(list@);
        lemma_view_list(values@);
    }
    if values.len() > list.len() || i > list.len() - values.len() {
        return Val::Unit;
    }
    let end = i + values.len();
    let ghost l0 = list@;
    let ghost vs = values@;
    let mut tail = list.split_off(end);
    let mid = list.split_off(i);
    list.append(&mut values);
    list.append(&mut tail);
    proof {
        assert(list@ == l0.subrange(0, i as int) + vs + l0.subrange(end as int, l0.len() as int));
        lemma_view_list_add(l0.subrange(0, i as int) + vs, l0.subrange(end as int, l0.len() as int));
        lemma_view_list_add(l0.subrange(0, i as int), vs);
        lemma_view_list_subrange(l0, 0, i as int);
        lemma_view_list_subrange(l0, end as int, l0.len() as int);
        lemma_view_list_subrange(l0, i as int, end as int);
        assert(mid@ =~= l0.subrange(i as int, end as int));
    }
    Val::List(mid)
}

pub fn fn_get(ctx: &Val, input: Val) -> (r: Val)
    ensures
        r@ == list_get(ctx@, input@),
{
    let Val::List(list) = ctx else {
        return Val::Unit;
    };
    let Some(i) = take_index(input) else {
        return Val::Unit;
    };
    proof {
        lemma_view_list(list@);
    }
    if i >= list.len() {
        return Val::Unit;
    }
    copy_val(&list[i])
}

pub fn fn_get_many(ctx: &Val, input: Val) -> (r: Val)
    ensures
        r@ == list_get_many(ctx@, input@),
{
    let Val::List(list) = ctx else {
        return Val::Unit;
    };
    proof {
        lemma_view_list(list@);
    }
    let Some((from, to)) = take_range(input, list.len()) else {
        return Val::Unit;
    };
    if from > to || to > list.len() {
        return Val::Unit;
    }
    let mut out: Vec<Val> = Vec::new();
    let mut j = from;
    while j < to
        invariant
            from <= j <= to <= list@.len(),
            out@.len() == j - from,
            forall|k: int| 0 <= k < out@.len() ==> view_val(#[trigger] out@[k]) == view_val(list@[from + k]),
        decreases to - j,
    {
        out.push(copy_val(&list[j]));
        j = j + 1;
    }
    proof {
        crate::types::copy::lemma_view_list_ext(out@, list@.subrange(from as int, to as int));
        lemma_view_list_subrange(list@, from as int, to as int);
    }
    Val::List(out)
}

pub fn fn_insert(ctx: &mut Val, input: Val) -> (r: Val)
    ensures
        (final(ctx)@, r@) == list_insert(old(ctx)@, input@),
{
    let Val::List(list) = ctx else {
        return Val::Unit;
    };
    let Val::Pair(index_value) = input else {
        return Val::Unit;
    };
    let index_value = *index_value;
    let Some(i) = take_index(index_value.first) else {
        return Val::Unit;
    };
    proof {
        lemma_view_list(list@);
    }
    if i > list.len() {
        return Val::Unit;
    }
    let ghost l0 = list@;
    let value = index_value.second;
    let ghost v = value;
    list.insert(i, value);
    proof {
        lemma_view_list_insert(l0, i as int, v);
    }
    Val::Unit
}

pub fn fn_insert_many(ctx: &mut Val, input: Val) -> (r: Val)
    ensures
        (final(ctx)@, r@) == list_insert_many(old(ctx)@, input@),
{
    reveal_with_fuel(crate::types::val::view_val, 2);
    let Val::List(list) = ctx else {
        return Val::Unit;
    };
    let Val::Pair(index_value) = input else {
        return Val::Unit;
    };
    let index_value = *index_value;
    let Some(i) = take_index(index_value.first) else {
        return Val::Unit;
    };
    let Val::List(mut values) = index_value.second else {
        return Val::Unit;
    };
    proof {
        lemma_view_list(list@);
    }
    if i > list.len() {
        return Val::Unit;
    }
    let ghost l0 = list@;
    let ghost vs = values@;
    let mut tail = list.split_off(i);
    list.append(&mut values);
    list.append(&mut tail);
    proof {
        assert(list@ == l0.subrange(0, i as int) + vs + l0.subrange(i as int, l0.len() as int));
        lemma_view_list_add(l0.subrange(0, i as int) + vs, l0.subrange(i as int, l0.len() as int));
        lemma_view_list_add(l0.subrange(0, i as int), vs);
        lemma_view_list_subrange(l0, 0, i as int);
        lemma_view_list_subrange(l0, i as int, l0.len() as int);
    }
    Val::Unit
}

pub fn fn_remove(ctx: &mut Val, input: Val) -> (r: Val)
    ensures
        (final(ctx)@, r@) == list_remove(old(ctx)@, input@),
{
    let Val::List(list) = ctx else {
        return Val::Unit;
    };
    let Some(i) = take_index(input) else {
        return Val::Unit;
    };
    proof {
        lemma_view_list(list@);
    }
    if i >= list.len() {
        return Val::Unit;
    }
    let ghost l0 = list@;
    let v = list.remove(i);
    proof {
        lemma_view_list_remove(l0, i as int);
    }
    v
}

pub fn fn_remove_many(ctx: &mut Val, input: Val) -> (r: Val)
    ensures
        (final(ctx)@, r@) == list_remove_many(old(ctx)@, input@),
{
    let Val::List(list) = ctx else {
        return Val::Unit;
    };
    proof {
        lemma_view_list(list@);
    }
    let Some((from, to)) = take_range(input, list.len()) else {
        return Val::Unit;
    };
    if from > to || to > list.len() {
        return Val::Unit;
    }
    let ghost l0 = list@;
    let mut tail = list.split_off(to);
    let mid = list.split_off(from);
    list.append(&mut tail);
    proof {
        assert(list@ == l0.subrange(0, from as int) + l0.subrange(to as int, l0.len() as int));
        lemma_view_list_add(l0.subrange(0, from as int), l0.subrange(to as int, l0.len() as int));
        lemma_view_list_subrange(l0, 0, from as int);
        lemma_view_list_subrange(l0, to as int, l0.len() as int);
        lemma_view_list_subrange(l0, from as int, to as int);
        assert(mid@ =~= l0.subrange(from as int, to as int));
    }
    Val::List(mid)
}

pub fn fn_push(ctx: &mut Val, input: Val) -> (r: Val)
    ensures
        (final(ctx)@, r@) == list_push(old(ctx)@, input@),
{
    let Val::List(list) = ctx else {
        return Val::Unit;
    };
    let ghost l0 = list@;
    let ghost v = input;
    list.push(input);
    proof {
        lemma_view_list_push(l0, v);
    }
    Val::Unit
}

pub fn fn_push_many(ctx: &mut Val, input: Val) -> (r: Val)
    ensures
        (final(ctx)@, r@) == list_push_many(old(ctx)@, input@),
{
    let Val::List(list) = ctx else {
        return Val::Unit;
    };
    let Val::List(mut values) = input else {
        return Val::Unit;
    };
    let ghost l0 = list@;
    let ghost vs = values@;
    list.append(&mut values);
    proof {
        lemma_view_list_add(l0, vs);
    }
    Val::Unit
}

pub fn fn_pop(ctx: &mut Val, input: Val) -> (r: Val)
    ensures
        (final(ctx)@, r@) == list_pop(old(ctx)@, input@),
{
    let Val::List(list) = ctx else {
        return Val::Unit;
    };
    let Val::Unit = input else {
        return Val::Unit;
    };
    proof {
        lemma_view_list(list@);
    }
    let ghost l0 = list@;
    match list.pop() {
        Some(v) => {
            proof {
                assert(l0.drop_last().push(v) =~= l0);
                lemma_view_list_push(l0.drop_last(), v);
                assert(view_list(l0).drop_last() =~= view_list(l0.drop_last()));
            }
            v
        },
        None => Val::Unit,
    }
}

pub fn fn_pop_many(ctx: &mut Val, input: Val) -> (r: Val)
    ensures
        (final(ctx)@, r@) == list_pop_many(old(ctx)@, input@),
{
    let Val::List(list) = ctx else {
        return Val::Unit;
    };
    proof {
        lemma_view_list(list@);
    }
    let n = list.len();
    let Val::Int(i) = input else {
        return Val::Unit;
    };
    let Some(i) = big_to_usize(&i) else {
        return Val::Unit;
    };
    if i > list.len() {
        return Val::Unit;
    }
    let ghost l0 = list@;
    let start = list.len() - i;
    let tail = list.split_off(start);
    proof {
        lemma_view_list_subrange(l0, 0, start as int);
        lemma_view_list_subrange(l0, start as int, l0.len() as int);
    }
    Val::List(tail)
}

pub fn fn_clear(ctx: &mut Val, _input: Val) -> (r: Val)
    ensures
        (final(ctx)@, r@) == list_clear(old(ctx)@),
{
    let Val::List(list) = ctx else {
        return Val::Unit;
    };
    list.clear();
    assert(view_list(list@) =~= Seq::<SVal>::empty());
    Val::Unit
}


/// The built-in functions of this module, by what they compute.
#[derive(Clone, Copy, PartialEq, Eq, Structural)]
pub enum ListFn {
    Length,
    Replace,
    SetMany,
    Get,
    GetMany,
    Insert,
    InsertMany,
    Remove,
    RemoveMany,
    Push,
    PushMany,
    Pop,
    PopMany,
    Clear,
}

/// What calling one of these functions does: the context after the call, and the result.
pub open spec fn run_spec(f: ListFn, ctx: SVal, input: SVal) -> (SVal, SVal) {
    match f {
        ListFn::Length => (ctx, list_length(ctx)),
        ListFn::Replace => list_set(ctx, input),
        ListFn::SetMany => list_set_many(ctx, input),
        ListFn::Get => (ctx, list_get(ctx, input)),
        ListFn::GetMany => (ctx, list_get_many(ctx, input)),
        ListFn::Insert => list_insert(ctx, input),
        ListFn::InsertMany => list_insert_many(ctx, input),
        ListFn::Remove => list_remove(ctx, input),
        ListFn::RemoveMany => list_remove_many(ctx, input),
        ListFn::Push => list_push(ctx, input),
        ListFn::PushMany => list_push_many(ctx, input),
        ListFn::Pop => list_pop(ctx, input),
        ListFn::PopMany => list_pop_many(ctx, input),
        ListFn::Clear => list_clear(ctx),
    }
}

/// Calls one of these functions on a context it may change.
pub fn run(f: ListFn, ctx: &mut Val, input: Val) -> (r: Val)
    ensures
        (final(ctx)@, r@) == run_spec(f, old(ctx)@, input@),
{
    match f {
        ListFn::Length => fn_length(&*ctx, input),
        ListFn::Replace => fn_set(ctx, input),
        ListFn::SetMany => fn_set_many(ctx, input),
        ListFn::Get => fn_get(&*ctx, input),
        ListFn::GetMany => fn_get_many(&*ctx, input),
        ListFn::Insert => fn_insert(ctx, input),
        ListFn::InsertMany => fn_insert_many(ctx, input),
        ListFn::Remove => fn_remove(ctx, input),
        ListFn::RemoveMany => fn_remove_many(ctx, input),
        ListFn::Push => fn_push(ctx, input),
        ListFn::PushMany => fn_push_many(ctx, input),
        ListFn::Pop => fn_pop(ctx, input),
        ListFn::PopMany => fn_pop_many(ctx, input),
        ListFn::Clear => fn_clear(ctx, input),
    }
}

} // verus!
