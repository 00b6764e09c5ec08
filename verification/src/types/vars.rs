//! Contexts: named variables under contracts.
//!
//! A contract says what may be done to a variable: `Still` ones stay (they cannot
//! be moved out), `Final` ones keep their value (they cannot be assigned again),
//! `Static` ones do both, and `Const` ones are, besides, never changed in place.
//! A contract can only be made stricter.
use crate::types::copy::{copy_val, lemma_view_vars};
use crate::types::val::{view_val, view_vars, Contract, CtxVal, CtxVar, SVal, Val};
use vstd::prelude::*;

verus! {

pub type Vars = Seq<(Seq<char>, Contract, SVal)>;

pub open spec fn opt_view(x: Option<Val>) -> Option<SVal> {
    match x {
        Some(v) => Some(v@),
        None => None,
    }
}

/// A variable may be given another value.
pub open spec fn can_assign(c: Contract) -> bool {
    c == Contract::Open || c == Contract::Still
}

/// A variable may be moved out of its context.
pub open spec fn can_move(c: Contract) -> bool {
    c == Contract::Open || c == Contract::Final
}

/// A variable's value may be changed in place.
pub open spec fn can_mutate(c: Contract) -> bool {
    c != Contract::Const
}

/// `new` allows nothing that `old` forbids.
pub open spec fn stricter(new: Contract, old: Contract) -> bool {
    &&& can_assign(new) ==> can_assign(old)
    &&& can_move(new) ==> can_move(old)
    &&& can_mutate(new) ==> can_mutate(old)
}

/// The index of the last variable named `name`, or -1.
pub open spec fn var_index(s: Vars, name: Seq<char>) -> int
    decreases s.len(),
{
    if s.len() == 0 {
        -1
    } else if s.last().0 == name {
        s.len() - 1
    } else {
        var_index(s.drop_last(), name)
    }
}

pub open spec fn var_get(s: Vars, name: Seq<char>) -> Option<SVal> {
    let i = var_index(s, name);
    if i >= 0 {
        Some(s[i].2)
    } else {
        None
    }
}

pub open spec fn var_contract(s: Vars, name: Seq<char>) -> Option<Contract> {
    let i = var_index(s, name);
    if i >= 0 {
        Some(s[i].1)
    } else {
        None
    }
}

/// Putting a value under a name: a new variable gets the contract given; an
/// existing one keeps its contract and must allow assignment. Gives the new
/// variables and the value replaced, or `None` when the contract forbids it.
pub open spec fn var_put(s: Vars, name: Seq<char>, v: SVal, c: Contract) -> Option<(Vars, Option<SVal>)> {
    let i = var_index(s, name);
    if i < 0 {
        Some((s.push((name, c, v)), None))
    } else if can_assign(s[i].1) {
        Some((s.update(i, (name, s[i].1, v)), Some(s[i].2)))
    } else {
        None
    }
}

/// Moving a variable out: gives the new variables and the value, when the
/// variable exists and its contract allows it.
pub open spec fn var_move(s: Vars, name: Seq<char>) -> Option<(Vars, SVal)> {
    let i = var_index(s, name);
    if i >= 0 && can_move(s[i].1) {
        Some((s.remove(i), s[i].2))
    } else {
        None
    }
}

/// Making a variable's contract stricter; `None` when it does not exist or the
/// contract would be loosened.
pub open spec fn var_set_contract(s: Vars, name: Seq<char>, c: Contract) -> Option<Vars> {
    let i = var_index(s, name);
    if i >= 0 && stricter(c, s[i].1) {
        Some(s.update(i, (name, c, s[i].2)))
    } else {
        None
    }
}

pub proof fn lemma_var_index(s: Vars, name: Seq<char>)
    ensures
        -1 <= var_index(s, name) < s.len(),
        var_index(s, name) >= 0 ==> s[var_index(s, name)].0 == name,
        forall|j: int| var_index(s, name) < j < s.len() ==> #[trigger] s[j].0 != name,
    decreases s.len(),
{
    if s.len() > 0 {
        lemma_var_index(s.drop_last(), name);
        assert forall|j: int| var_index(s, name) < j < s.len() implies #[trigger] s[j].0 != name by {
            if j < s.len() - 1 {
                assert(s[j] == s.drop_last()[j]);
            }
        }
    }
}

/// After a value is put under a name, reading the name gives that value.
pub proof fn lemma_put_get(s: Vars, name: Seq<char>, v: SVal, c: Contract)
    requires
        var_put(s, name, v, c) is Some,
    ensures
        var_get(var_put(s, name, v, c).unwrap().0, name) == Some(v),
{
    lemma_var_index(s, name);
    let t = var_put(s, name, v, c).unwrap().0;
    lemma_var_index(t, name);
    let i = var_index(s, name);
    if i < 0 {
        assert(t.last().0 == name);
    } else {
        assert(t[i].0 == name);
        assert(var_index(t, name) == i) by {
            if var_index(t, name) > i {
                assert(t[var_index(t, name)] == s[var_index(t, name)]);
            }
        }
    }
}

/// No name is bound twice.
pub open spec fn names_distinct(s: Vars) -> bool {
    forall|i: int, j: int| 0 <= i < j < s.len() ==> s[i].0 != s[j].0
}

/// Putting, moving and making contracts stricter keep names bound once.
pub proof fn lemma_ops_keep_names_distinct(s: Vars, name: Seq<char>, v: SVal, c: Contract)
    requires
        names_distinct(s),
    ensures
        var_put(s, name, v, c) matches Some((t, _)) ==> names_distinct(t),
        var_move(s, name) matches Some((t, _)) ==> names_distinct(t),
        var_set_contract(s, name, c) matches Some(t) ==> names_distinct(t),
{
    lemma_var_index(s, name);
    let i = var_index(s, name);
    if let Some((t, _)) = var_put(s, name, v, c) {
        assert forall|a: int, b: int| 0 <= a < b < t.len() implies t[a].0 != t[b].0 by {
            if i < 0 && b == s.len() {
                assert(s[a].0 != name);
            }
        }
    }
    if let Some((t, _)) = var_move(s, name) {
        assert forall|a: int, b: int| 0 <= a < b < t.len() implies t[a].0 != t[b].0 by {
            let a2 = if a < i { a } else { a + 1 };
            let b2 = if b < i { b } else { b + 1 };
            assert(t[a] == s[a2]);
            assert(t[b] == s[b2]);
        }
    }
}

/// Once a variable is moved out of a context whose names are bound once, its name is unbound.
pub proof fn lemma_move_unbinds(s: Vars, name: Seq<char>)
    requires
        names_distinct(s),
        var_move(s, name) is Some,
    ensures
        var_index(var_move(s, name).unwrap().0, name) < 0,
{
    lemma_var_index(s, name);
    let i = var_index(s, name);
    let t = var_move(s, name).unwrap().0;
    lemma_var_index(t, name);
    let j = var_index(t, name);
    if j >= 0 {
        let j2 = if j < i { j } else { j + 1 };
        assert(t[j] == s[j2]);
    }
}

impl CtxVal {
    pub open spec fn view(&self) -> Vars {
        view_vars(self.vars@)
    }

    /// The position of the variable named `name`.
    pub fn find(&self, name: &String) -> (r: Option<usize>)
        ensures
            r matches Some(i) ==> var_index(self.view(), name@) == i && i < self.vars@.len(),
            r is None ==> var_index(self.view(), name@) == -1,
    {
        proof {
            lemma_view_vars(self.vars@);
            lemma_var_index(self.view(), name@);
        }
        let mut i: usize = self.vars.len();
        while i > 0
            invariant
                i <= self.vars@.len(),
                view_vars(self.vars@).len() == self.vars@.len(),
                forall|j: int|
                    0 <= j < self.vars@.len() ==> #[trigger] view_vars(self.vars@)[j] == (
                        self.vars@[j].name@,
                        self.vars@[j].contract,
                        view_val(self.vars@[j].val),
                    ),
                forall|j: int| i <= j < self.vars@.len() ==> #[trigger] self.view()[j].0 != name@,
                -1 <= var_index(self.view(), name@) < self.view().len(),
                var_index(self.view(), name@) >= 0 ==> self.view()[var_index(self.view(), name@)].0
                    == name@,
                forall|j: int|
                    var_index(self.view(), name@) < j < self.view().len() ==> #[trigger] self.view()[j].0
                        != name@,
            decreases i,
        {
            i = i - 1;
            if self.vars[i].name == *name {
                assert(self.view()[i as int].0 == name@);
                return Some(i);
            }
        }
        None
    }

    /// A copy of the value of the variable named `name`.
    pub fn get(&self, name: &String) -> (r: Option<Val>)
        ensures
            r matches Some(v) ==> var_get(self.view(), name@) == Some(v@),
            r is None ==> var_get(self.view(), name@) is None,
    {
        proof {
            lemma_view_vars(self.vars@);
        }
        match self.find(name) {
            Some(i) => Some(copy_val(&self.vars[i].val)),
            None => None,
        }
    }

    pub fn contract_of(&self, name: &String) -> (r: Option<Contract>)
        ensures
            r == var_contract(self.view(), name@),
    {
        proof {
            lemma_view_vars(self.vars@);
        }
        match self.find(name) {
            Some(i) => Some(self.vars[i].contract),
            None => None,
        }
    }

    /// Puts `v` under `name`; gives back what it replaced, or `Err` with `v` when
    /// the variable's contract forbids it (the context is then unchanged).
    pub fn put(&mut self, name: String, v: Val, c: Contract) -> (r: Result<Option<Val>, Val>)
        ensures
            var_put(old(self).view(), name@, v@, c) matches Some((t, _)) ==> final(self).view() == t,
            var_put(old(self).view(), name@, v@, c) matches Some((_, last)) ==> (r matches Ok(x)
                && opt_view(x) == last),
            var_put(old(self).view(), name@, v@, c) is None ==> final(self).view() == old(self).view(),
            var_put(old(self).view(), name@, v@, c) is None ==> (r matches Err(e) && e@ == v@),
    {
        proof {
            lemma_view_vars(self.vars@);
        }
        let ghost old_vars = self.vars@;
        let ghost nv = name@;
        let ghost vv = v@;
        match self.find(&name) {
            Some(i) => {
                let old_contract = self.vars[i].contract;
                if old_contract == Contract::Open || old_contract == Contract::Still {
                    let mut e = CtxVar { name, contract: old_contract, val: v };
                    std::mem::swap(&mut self.vars[i], &mut e);
                    proof {
                        lemma_view_vars(self.vars@);
                        assert(self.view() =~= view_vars(old_vars).update(
                            i as int,
                            (nv, old_contract, vv),
                        ));
                    }
                    Ok(Some(e.val))
                } else {
                    Err(v)
                }
            },
            None => {
                self.vars.push(CtxVar { name, contract: c, val: v });
                proof {
                    lemma_view_vars(self.vars@);
                    assert(self.view() =~= view_vars(old_vars).push((nv, c, vv)));
                }
                Ok(None)
            },
        }
    }

    /// Moves the variable named `name` out, when its contract allows it.
    pub fn take(&mut self, name: &String) -> (r: Option<Val>)
        ensures
            var_move(old(self).view(), name@) matches Some((t, _)) ==> final(self).view() == t,
            var_move(old(self).view(), name@) matches Some((_, x)) ==> (r matches Some(y) && y@ == x),
            var_move(old(self).view(), name@) is None ==> final(self).view() == old(self).view(),
            var_move(old(self).view(), name@) is None ==> r is None,
    {
        proof {
            lemma_view_vars(self.vars@);
        }
        let ghost old_vars = self.vars@;
        match self.find(name) {
            Some(i) => {
                let c = self.vars[i].contract;
                if c == Contract::Open || c == Contract::Final {
                    let e = self.vars.remove(i);
                    proof {
                        lemma_view_vars(self.vars@);
                        assert(self.view() =~= view_vars(old_vars).remove(i as int));
                    }
                    Some(e.val)
                } else {
                    None
                }
            },
            None => None,
        }
    }

    /// Makes the contract of `name` stricter; false when it does not exist or
    /// the contract would be loosened (the context is then unchanged).
    pub fn set_contract(&mut self, name: &String, c: Contract) -> (r: bool)
        ensures
            var_set_contract(old(self).view(), name@, c) matches Some(t) ==> final(self).view() == t && r,
            var_set_contract(old(self).view(), name@, c) is None ==> final(self).view() == old(self).view()
                && !r,
    {
        proof {
            lemma_view_vars(self.vars@);
        }
        let ghost old_vars = self.vars@;
        match self.find(name) {
            Some(i) => {
                let old_c = self.vars[i].contract;
                let assign_ok = !(c == Contract::Open || c == Contract::Still) || (old_c == Contract::Open
                    || old_c == Contract::Still);
                let move_ok = !(c == Contract::Open || c == Contract::Final) || (old_c == Contract::Open
                    || old_c == Contract::Final);
                let mutate_ok = c == Contract::Const || old_c != Contract::Const;
                if assign_ok && move_ok && mutate_ok {
                    let ghost cur = self.vars@[i as int];
                    let e = self.vars.remove(i);
                    self.vars.insert(i, CtxVar { name: e.name, contract: c, val: e.val });
                    proof {
                        lemma_view_vars(self.vars@);
                        assert(self.vars@ =~= old_vars.update(i as int, CtxVar { name: cur.name, contract: c, val: cur.val }));
                        lemma_var_index(view_vars(old_vars), name@);
                        assert(self.view() =~= view_vars(old_vars).update(
                            i as int,
                            (name@, c, view_val(cur.val)),
                        ));
                    }
                    true
                } else {
                    false
                }
            },
            None => false,
        }
    }
}

} // verus!
