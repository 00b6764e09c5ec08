//! Deep copies and structural equality of values.
use crate::types::bigint::{big_clone, big_eq, int_value};
use crate::types::val::{
    view_entries, view_list, view_val, view_vars, CallVal, CompFunc, CtxVal, CtxVar, FuncVal,
    PairVal, SVal, Val, ValMap,
};
use vstd::prelude::*;

verus! {

pub proof fn lemma_view_list(s: Seq<Val>)
    ensures
        view_list(s).len() == s.len(),
        forall|i: int| 0 <= i < s.len() ==> #[trigger] view_list(s)[i] == view_val(s[i]),
    decreases s.len(),
{
    if s.len() > 0 {
        lemma_view_list(s.drop_last());
    }
}

pub proof fn lemma_view_entries(s: Seq<PairVal>)
    ensures
        view_entries(s).len() == s.len(),
        forall|i: int|
            0 <= i < s.len() ==> #[trigger] view_entries(s)[i] == (
                view_val(s[i].first),
                view_val(s[i].second),
            ),
    decreases s.len(),
{
    if s.len() > 0 {
        lemma_view_entries(s.drop_last());
    }
}

/// Two lists whose items have the same models have the same model.
pub proof fn lemma_view_list_ext(a: Seq<Val>, b: Seq<Val>)
    requires
        a.len() == b.len(),
        forall|i: int| 0 <= i < a.len() ==> view_val(#[trigger] a[i]) == view_val(b[i]),
    ensures
        view_list(a) == view_list(b),
{
    lemma_view_list(a);
    lemma_view_list(b);
    assert(view_list(a) =~= view_list(b));
}

pub proof fn lemma_view_entries_ext(a: Seq<PairVal>, b: Seq<PairVal>)
    requires
        a.len() == b.len(),
        forall|i: int|
            0 <= i < a.len() ==> view_val(#[trigger] a[i].first) == view_val(b[i].first)
                && view_val(a[i].second) == view_val(b[i].second),
    ensures
        view_entries(a) == view_entries(b),
{
    lemma_view_entries(a);
    lemma_view_entries(b);
    assert(view_entries(a) =~= view_entries(b));
}

/// The bytes, copied one by one.
pub fn copy_bytes(b: &Vec<u8>) -> (r: Vec<u8>)
    ensures
        r@ == b@,
{
    let mut r: Vec<u8> = Vec::new();
    let mut i: usize = 0;
    while i < b.len()
        invariant
            i <= b.len(),
            r@ == b@.take(i as int),
        decreases b.len() - i,
    {
        r.push(b[i]);
        i = i + 1;
        assert(r@ =~= b@.take(i as int));
    }
    assert(b@.take(b.len() as int) =~= b@);
    r
}

pub fn copy_pair(p: &PairVal) -> (r: PairVal)
    ensures
        r.first@ == p.first@,
        r.second@ == p.second@,
    decreases *p, 0nat,
{
    PairVal { first: copy_val(&p.first), second: copy_val(&p.second) }
}

pub fn copy_list(l: &Vec<Val>) -> (r: Vec<Val>)
    ensures
        view_list(r@) == view_list(l@),
    decreases *l, 0nat,
{
    let mut r: Vec<Val> = Vec::new();
    let mut i: usize = 0;
    while i < l.len()
        invariant
            i <= l.len(),
            r@.len() == i,
            forall|j: int| 0 <= j < i ==> view_val(#[trigger] r@[j]) == view_val(l@[j]),
        decreases l.len() - i,
    {
        proof {
            assert(decreases_to!(*l => l@));
            assert(decreases_to!(l@ => l@[i as int]));
        }
        let x = copy_val(&l[i]);
        r.push(x);
        i = i + 1;
    }
    proof {
        lemma_view_list_ext(r@, l@);
    }
    r
}

pub fn copy_entries(l: &Vec<PairVal>) -> (r: Vec<PairVal>)
    ensures
        view_entries(r@) == view_entries(l@),
    decreases *l, 0nat,
{
    let mut r: Vec<PairVal> = Vec::new();
    let mut i: usize = 0;
    while i < l.len()
        invariant
            i <= l.len(),
            r@.len() == i,
            forall|j: int|
                0 <= j < i ==> view_val(#[trigger] r@[j].first) == view_val(l@[j].first)
                    && view_val(r@[j].second) == view_val(l@[j].second),
        decreases l.len() - i,
    {
        proof {
            assert(decreases_to!(*l => l@));
            assert(decreases_to!(l@ => l@[i as int]));
        }
        let x = copy_pair(&l[i]);
        r.push(x);
        i = i + 1;
    }
    proof {
        lemma_view_entries_ext(r@, l@);
    }
    r
}

pub proof fn lemma_view_vars(s: Seq<CtxVar>)
    ensures
        view_vars(s).len() == s.len(),
        forall|i: int|
            0 <= i < s.len() ==> #[trigger] view_vars(s)[i] == (
                s[i].name@,
                s[i].contract,
                view_val(s[i].val),
            ),
    decreases s.len(),
{
    if s.len() > 0 {
        lemma_view_vars(s.drop_last());
    }
}

pub fn copy_vars(l: &Vec<CtxVar>) -> (r: Vec<CtxVar>)
    ensures
        view_vars(r@) == view_vars(l@),
    decreases *l, 0nat,
{
    let mut r: Vec<CtxVar> = Vec::new();
    let mut i: usize = 0;
    while i < l.len()
        invariant
            i <= l.len(),
            r@.len() == i,
            forall|j: int|
                0 <= j < i ==> (#[trigger] r@[j]).name@ == l@[j].name@ && r@[j].contract
                    == l@[j].contract && view_val(r@[j].val) == view_val(l@[j].val),
        decreases l.len() - i,
    {
        proof {
            assert(decreases_to!(*l => l@));
            assert(decreases_to!(l@ => l@[i as int]));
        }
        let x = CtxVar { name: l[i].name.clone(), contract: l[i].contract, val: copy_val(&l[i].val) };
        r.push(x);
        i = i + 1;
    }
    proof {
        lemma_view_vars(r@);
        lemma_view_vars(l@);
        assert(view_vars(r@) =~= view_vars(l@));
    }
    r
}

pub fn vars_eq(a: &Vec<CtxVar>, b: &Vec<CtxVar>) -> (r: bool)
    ensures
        r == (view_vars(a@) == view_vars(b@)),
    decreases *a, 0nat,
{
    proof {
        lemma_view_vars(a@);
        lemma_view_vars(b@);
    }
    if a.len() != b.len() {
        return false;
    }
    let mut i: usize = 0;
    while i < a.len()
        invariant
            i <= a.len(),
            a.len() == b.len(),
            view_vars(a@).len() == a@.len(),
            view_vars(b@).len() == b@.len(),
            forall|j: int|
                0 <= j < a@.len() ==> #[trigger] view_vars(a@)[j] == (
                    a@[j].name@,
                    a@[j].contract,
                    view_val(a@[j].val),
                ),
            forall|j: int|
                0 <= j < b@.len() ==> #[trigger] view_vars(b@)[j] == (
                    b@[j].name@,
                    b@[j].contract,
                    view_val(b@[j].val),
                ),
            forall|j: int|
                0 <= j < i ==> (#[trigger] a@[j]).name@ == b@[j].name@ && a@[j].contract
                    == b@[j].contract && view_val(a@[j].val) == view_val(b@[j].val),
        decreases a.len() - i,
    {
        proof {
            assert(decreases_to!(*a => a@));
            assert(decreases_to!(a@ => a@[i as int]));
        }
        let same_name = a[i].name == b[i].name;
        let same_contract = a[i].contract == b[i].contract;
        let same_val = val_eq(&a[i].val, &b[i].val);
        if !(same_name && same_contract && same_val) {
            proof {
                let x = view_vars(a@)[i as int];
                let y = view_vars(b@)[i as int];
                assert(x.0 != y.0 || x.1 != y.1 || x.2 != y.2);
            }
            return false;
        }
        i = i + 1;
    }
    proof {
        assert(view_vars(a@) =~= view_vars(b@));
    }
    true
}

fn copy_opt_string(s: &Option<String>) -> (r: Option<String>)
    ensures
        match s {
            Some(x) => r matches Some(y) && y@ == x@,
            None => r is None,
        },
{
    match s {
        Some(x) => Some(x.clone()),
        None => None,
    }
}

/// A function value with the same model.
pub fn copy_func(f: &FuncVal) -> (r: FuncVal)
    ensures
        Val::Func(Box::new(r))@ == Val::Func(Box::new(*f))@,
    decreases *f, 0nat,
{
    let comp = match &f.comp {
        Some(c) => Some(
            Box::new(
                CompFunc {
                    ctx_name: copy_opt_string(&c.ctx_name),
                    input_name: c.input_name.clone(),
                    body: copy_val(&c.body),
                    ctx: CtxVal { vars: copy_vars(&c.ctx.vars) },
                },
            ),
        ),
        None => None,
    };
    FuncVal {
        id: f.id.clone(),
        access: f.access,
        call: copy_val(&f.call),
        solve: copy_val(&f.solve),
        cell: f.cell,
        comp,
        prim: f.prim,
        data: copy_val(&f.data),
    }
}

fn opt_string_eq(a: &Option<String>, b: &Option<String>) -> (r: bool)
    ensures
        r == (match a {
            Some(x) => match b {
                Some(y) => x@ == y@,
                None => false,
            },
            None => b is None,
        }),
{
    match (a, b) {
        (Some(x), Some(y)) => *x == *y,
        (None, None) => true,
        _ => false,
    }
}

/// Equality of function values: true exactly when the models are equal.
pub fn func_eq(a: &FuncVal, b: &FuncVal) -> (r: bool)
    ensures
        r == (Val::Func(Box::new(*a))@ == Val::Func(Box::new(*b))@),
    decreases *a, 0nat,
{
    if !(a.id == b.id && a.access == b.access && a.cell == b.cell) {
        return false;
    }
    if !(val_eq(&a.call, &b.call) && val_eq(&a.solve, &b.solve) && val_eq(&a.data, &b.data)) {
        return false;
    }
    let same_prim = match (a.prim, b.prim) {
        (Some(x), Some(y)) => x == y,
        (None, None) => true,
        _ => false,
    };
    if !same_prim {
        return false;
    }
    match (&a.comp, &b.comp) {
        (None, None) => true,
        (Some(x), Some(y)) => opt_string_eq(&x.ctx_name, &y.ctx_name) && x.input_name == y.input_name
            && val_eq(&x.body, &y.body) && vars_eq(&x.ctx.vars, &y.ctx.vars),
        _ => false,
    }
}

/// A value with the same model: the language's copy of a value.
pub fn copy_val(v: &Val) -> (r: Val)
    ensures
        r@ == v@,
    decreases *v, 1nat,
{
    match v {
        Val::Unit => Val::Unit,
        Val::Bit(b) => Val::Bit(*b),
        Val::Symbol(s) => Val::Symbol(s.clone()),
        Val::Text(s) => Val::Text(s.clone()),
        Val::Int(i) => Val::Int(big_clone(i)),
        Val::Byte(b) => Val::Byte(copy_bytes(b)),
        Val::Pair(p) => Val::Pair(Box::new(copy_pair(p))),
        Val::Either(t, x) => Val::Either(*t, Box::new(copy_val(x))),
        Val::Node(k, p) => Val::Node(*k, Box::new(copy_pair(p))),
        Val::Wrap(k, x) => Val::Wrap(*k, Box::new(copy_val(x))),
        Val::Call(c) => Val::Call(
            Box::new(
                CallVal {
                    reverse: c.reverse,
                    func: copy_val(&c.func),
                    ctx: copy_val(&c.ctx),
                    input: copy_val(&c.input),
                },
            ),
        ),
        Val::List(l) => Val::List(copy_list(l)),
        Val::Dict(m) => Val::Dict(ValMap { entries: copy_entries(&m.entries) }),
        Val::Func(f) => Val::Func(Box::new(copy_func(f))),
        Val::Ctx(c) => Val::Ctx(CtxVal { vars: copy_vars(&c.vars) }),
    }
}

pub fn bytes_eq(a: &Vec<u8>, b: &Vec<u8>) -> (r: bool)
    ensures
        r == (a@ == b@),
{
    if a.len() != b.len() {
        return false;
    }
    let mut i: usize = 0;
    while i < a.len()
        invariant
            i <= a.len(),
            a.len() == b.len(),
            forall|j: int| 0 <= j < i ==> a@[j] == b@[j],
        decreases a.len() - i,
    {
        if a[i] != b[i] {
            return false;
        }
        i = i + 1;
    }
    assert(a@ =~= b@);
    true
}

pub fn list_eq(a: &Vec<Val>, b: &Vec<Val>) -> (r: bool)
    ensures
        r == (view_list(a@) == view_list(b@)),
    decreases *a, 0nat,
{
    proof {
        lemma_view_list(a@);
        lemma_view_list(b@);
    }
    if a.len() != b.len() {
        return false;
    }
    let mut i: usize = 0;
    while i < a.len()
        invariant
            i <= a.len(),
            a.len() == b.len(),
            view_list(a@).len() == a@.len(),
            view_list(b@).len() == b@.len(),
            forall|j: int| 0 <= j < a@.len() ==> #[trigger] view_list(a@)[j] == view_val(a@[j]),
            forall|j: int| 0 <= j < b@.len() ==> #[trigger] view_list(b@)[j] == view_val(b@[j]),
            forall|j: int| 0 <= j < i ==> view_val(#[trigger] a@[j]) == view_val(b@[j]),
        decreases a.len() - i,
    {
        proof {
            assert(decreases_to!(*a => a@));
            assert(decreases_to!(a@ => a@[i as int]));
        }
        if !val_eq(&a[i], &b[i]) {
            assert(view_list(a@)[i as int] != view_list(b@)[i as int]);
            return false;
        }
        i = i + 1;
    }
    proof {
        lemma_view_list_ext(a@, b@);
    }
    true
}

pub fn entries_eq(a: &Vec<PairVal>, b: &Vec<PairVal>) -> (r: bool)
    ensures
        r == (view_entries(a@) == view_entries(b@)),
    decreases *a, 0nat,
{
    proof {
        lemma_view_entries(a@);
        lemma_view_entries(b@);
    }
    if a.len() != b.len() {
        return false;
    }
    let mut i: usize = 0;
    while i < a.len()
        invariant
            i <= a.len(),
            a.len() == b.len(),
            view_entries(a@).len() == a@.len(),
            view_entries(b@).len() == b@.len(),
            forall|j: int|
                0 <= j < a@.len() ==> #[trigger] view_entries(a@)[j] == (
                    view_val(a@[j].first),
                    view_val(a@[j].second),
                ),
            forall|j: int|
                0 <= j < b@.len() ==> #[trigger] view_entries(b@)[j] == (
                    view_val(b@[j].first),
                    view_val(b@[j].second),
                ),
            forall|j: int|
                0 <= j < i ==> view_val(#[trigger] a@[j].first) == view_val(b@[j].first)
                    && view_val(a@[j].second) == view_val(b@[j].second),
        decreases a.len() - i,
    {
        proof {
            assert(decreases_to!(*a => a@));
            assert(decreases_to!(a@ => a@[i as int]));
        }
        let same = val_eq(&a[i].first, &b[i].first) && val_eq(&a[i].second, &b[i].second);
        if !same {
            assert(view_entries(a@)[i as int] != view_entries(b@)[i as int]);
            return false;
        }
        i = i + 1;
    }
    proof {
        lemma_view_entries_ext(a@, b@);
    }
    true
}

/// Structural equality of values: true exactly when the models are equal.
pub fn val_eq(a: &Val, b: &Val) -> (r: bool)
    ensures
        r == (a@ == b@),
    decreases *a, 1nat,
{
    match (a, b) {
        (Val::Unit, Val::Unit) => true,
        (Val::Bit(x), Val::Bit(y)) => *x == *y,
        (Val::Symbol(x), Val::Symbol(y)) => *x == *y,
        (Val::Text(x), Val::Text(y)) => *x == *y,
        (Val::Int(x), Val::Int(y)) => big_eq(x, y),
        (Val::Byte(x), Val::Byte(y)) => bytes_eq(x, y),
        (Val::Pair(x), Val::Pair(y)) => val_eq(&x.first, &y.first) && val_eq(&x.second, &y.second),
        (Val::Either(t1, x), Val::Either(t2, y)) => *t1 == *t2 && val_eq(x, y),
        (Val::Node(k1, x), Val::Node(k2, y)) => *k1 == *k2 && val_eq(&x.first, &y.first) && val_eq(
            &x.second,
            &y.second,
        ),
        (Val::Wrap(k1, x), Val::Wrap(k2, y)) => *k1 == *k2 && val_eq(x, y),
        (Val::Call(x), Val::Call(y)) => x.reverse == y.reverse && val_eq(&x.func, &y.func) && val_eq(
            &x.ctx,
            &y.ctx,
        ) && val_eq(&x.input, &y.input),
        (Val::List(x), Val::List(y)) => list_eq(x, y),
        (Val::Dict(x), Val::Dict(y)) => entries_eq(&x.entries, &y.entries),
        (Val::Func(x), Val::Func(y)) => func_eq(x, y),
        (Val::Ctx(x), Val::Ctx(y)) => vars_eq(&x.vars, &y.vars),
        _ => false,
    }
}

} // verus!

verus! {

pub proof fn lemma_view_list_push(s: Seq<Val>, v: Val)
    ensures
        view_list(s.push(v)) == view_list(s).push(view_val(v)),
{
    assert(s.push(v).drop_last() =~= s);
}

pub proof fn lemma_view_list_update(s: Seq<Val>, i: int, v: Val)
    requires
        0 <= i < s.len(),
    ensures
        view_list(s.update(i, v)) == view_list(s).update(i, view_val(v)),
{
    lemma_view_list(s);
    lemma_view_list(s.update(i, v));
    assert(view_list(s.update(i, v)) =~= view_list(s).update(i, view_val(v)));
}

pub proof fn lemma_view_list_insert(s: Seq<Val>, i: int, v: Val)
    requires
        0 <= i <= s.len(),
    ensures
        view_list(s.insert(i, v)) == view_list(s).insert(i, view_val(v)),
{
    lemma_view_list(s);
    lemma_view_list(s.insert(i, v));
    assert(view_list(s.insert(i, v)) =~= view_list(s).insert(i, view_val(v)));
}

pub proof fn lemma_view_list_remove(s: Seq<Val>, i: int)
    requires
        0 <= i < s.len(),
    ensures
        view_list(s.remove(i)) == view_list(s).remove(i),
{
    lemma_view_list(s);
    lemma_view_list(s.remove(i));
    assert(view_list(s.remove(i)) =~= view_list(s).remove(i));
}

pub proof fn lemma_view_list_subrange(s: Seq<Val>, a: int, b: int)
    requires
        0 <= a <= b <= s.len(),
    ensures
        view_list(s.subrange(a, b)) == view_list(s).subrange(a, b),
{
    lemma_view_list(s);
    lemma_view_list(s.subrange(a, b));
    assert(view_list(s.subrange(a, b)) =~= view_list(s).subrange(a, b));
}

pub proof fn lemma_view_list_add(s: Seq<Val>, t: Seq<Val>)
    ensures
        view_list(s + t) == view_list(s) + view_list(t),
{
    lemma_view_list(s);
    lemma_view_list(t);
    lemma_view_list(s + t);
    assert(view_list(s + t) =~= view_list(s) + view_list(t));
}

} // verus!
