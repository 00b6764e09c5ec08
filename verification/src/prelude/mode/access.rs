//! How much of the context a mode needs: a mode that may change it needs it mutably.
use crate::prelude::mode::{
    lemma_view_mode_entries, lemma_view_modes, view_mode, view_mode_entries, view_modes, Mode,
    ModeEntry, SymbolTaskMode, SMode, SymbolMode, TaskPrimMode,
};
use crate::types::val::{CtxAccess, SVal};
use vstd::prelude::*;

verus! {

/// The access that covers both: mutable if either is, else constant if either is.
pub open spec fn access_join(a: CtxAccess, b: CtxAccess) -> CtxAccess {
    if a == CtxAccess::Mut || b == CtxAccess::Mut {
        CtxAccess::Mut
    } else if a == CtxAccess::Const || b == CtxAccess::Const {
        CtxAccess::Const
    } else {
        CtxAccess::Free
    }
}

pub fn join(a: CtxAccess, b: CtxAccess) -> (r: CtxAccess)
    ensures
        r == access_join(a, b),
{
    if a == CtxAccess::Mut || b == CtxAccess::Mut {
        CtxAccess::Mut
    } else if a == CtxAccess::Const || b == CtxAccess::Const {
        CtxAccess::Const
    } else {
        CtxAccess::Free
    }
}

/// Looking symbols up and evaluating calls may touch the context; keeping them does not.
pub open spec fn prim_access(p: SymbolTaskMode) -> CtxAccess {
    access_join(
        if p.symbol == SymbolMode::Id { CtxAccess::Free } else { CtxAccess::Mut },
        if p.task == TaskPrimMode::Form { CtxAccess::Free } else { CtxAccess::Mut },
    )
}

pub open spec fn modes_access(s: Seq<SMode>) -> CtxAccess
    decreases s, 0nat,
{
    if s.len() == 0 {
        CtxAccess::Free
    } else {
        access_join(modes_access(s.drop_last()), mode_access(s.last()))
    }
}

pub open spec fn entries_access(s: Seq<(SVal, SMode)>) -> CtxAccess
    decreases s, 0nat,
{
    if s.len() == 0 {
        CtxAccess::Free
    } else {
        access_join(entries_access(s.drop_last()), mode_access(s.last().1))
    }
}

/// The access a mode needs: the join of what each of its parts needs; a function
/// used as a mode needs its own access.
pub open spec fn mode_access(m: SMode) -> CtxAccess
    decreases m, 1nat,
{
    match m {
        SMode::Func(f) => f.access,
        SMode::Comp(p, pa, t, l, mp) => {
            let a_pair = match pa {
                Some(x) => access_join(
                    entries_access(x.some),
                    access_join(mode_access(x.first), mode_access(x.second)),
                ),
                None => CtxAccess::Free,
            };
            let a_task = match t {
                Some(x) => access_join(
                    mode_access(x.func),
                    access_join(mode_access(x.ctx), mode_access(x.input)),
                ),
                None => CtxAccess::Free,
            };
            let a_list = match l {
                Some(x) => access_join(modes_access(x.head), mode_access(x.tail)),
                None => CtxAccess::Free,
            };
            let a_map = match mp {
                Some(x) => access_join(entries_access(x.some), mode_access(x.else_)),
                None => CtxAccess::Free,
            };
            access_join(
                prim_access(p),
                access_join(a_pair, access_join(a_task, access_join(a_list, a_map))),
            )
        },
    }
}

fn list_access(l: &Vec<Mode>) -> (r: CtxAccess)
    ensures
        r == modes_access(view_modes(l@)),
    decreases *l, 0nat,
{
    let ghost s = view_modes(l@);
    proof {
        lemma_view_modes(l@);
    }
    let mut r = CtxAccess::Free;
    let mut i: usize = 0;
    assert(s.take(0) =~= Seq::<SMode>::empty());
    while i < l.len()
        invariant
            i <= l.len(),
            s == view_modes(l@),
            s.len() == l@.len(),
            forall|j: int| 0 <= j < l@.len() ==> #[trigger] s[j] == view_mode(l@[j]),
            r == modes_access(s.take(i as int)),
        decreases l.len() - i,
    {
        proof {
            assert(decreases_to!(*l => l@));
            assert(decreases_to!(l@ => l@[i as int]));
            assert(s.take(i + 1).drop_last() =~= s.take(i as int));
        }
        let a = ctx_access(&l[i]);
        r = join(r, a);
        i = i + 1;
    }
    assert(s.take(l.len() as int) =~= s);
    r
}

fn entry_list_access(l: &Vec<ModeEntry>) -> (r: CtxAccess)
    ensures
        r == entries_access(view_mode_entries(l@)),
    decreases *l, 0nat,
{
    let ghost s = view_mode_entries(l@);
    proof {
        lemma_view_mode_entries(l@);
    }
    let mut r = CtxAccess::Free;
    let mut i: usize = 0;
    assert(s.take(0) =~= Seq::<(SVal, SMode)>::empty());
    while i < l.len()
        invariant
            i <= l.len(),
            s == view_mode_entries(l@),
            s.len() == l@.len(),
            forall|j: int| 0 <= j < l@.len() ==> #[trigger] s[j].1 == view_mode(l@[j].mode),
            r == entries_access(s.take(i as int)),
        decreases l.len() - i,
    {
        proof {
            assert(decreases_to!(*l => l@));
            assert(decreases_to!(l@ => l@[i as int]));
            assert(s.take(i + 1).drop_last() =~= s.take(i as int));
        }
        let a = ctx_access(&l[i].mode);
        r = join(r, a);
        i = i + 1;
    }
    assert(s.take(l.len() as int) =~= s);
    r
}

fn prim_ctx_access(p: SymbolTaskMode) -> (r: CtxAccess)
    ensures
        r == prim_access(p),
{
    let s = if p.symbol == SymbolMode::Id { CtxAccess::Free } else { CtxAccess::Mut };
    let t = if p.task == TaskPrimMode::Form { CtxAccess::Free } else { CtxAccess::Mut };
    join(s, t)
}

/// The access a mode needs.
pub fn ctx_access(m: &Mode) -> (r: CtxAccess)
    ensures
        r == mode_access(m@),
    decreases *m, 1nat,
{
    match m {
        Mode::Func(f) => f.access,
        Mode::Comp(c) => {
            let a_pair = match &c.pair {
                Some(x) => {
                    let a = entry_list_access(&x.some);
                    let b = ctx_access(&x.first);
                    let d = ctx_access(&x.second);
                    join(a, join(b, d))
                },
                None => CtxAccess::Free,
            };
            let a_task = match &c.task {
                Some(x) => {
                    let a = ctx_access(&x.func);
                    let b = ctx_access(&x.ctx);
                    let d = ctx_access(&x.input);
                    join(a, join(b, d))
                },
                None => CtxAccess::Free,
            };
            let a_list = match &c.list {
                Some(x) => {
                    let a = list_access(&x.head);
                    let b = ctx_access(&x.tail);
                    join(a, b)
                },
                None => CtxAccess::Free,
            };
            let a_map = match &c.map {
                Some(x) => {
                    let a = entry_list_access(&x.some);
                    let b = ctx_access(&x.else_);
                    join(a, b)
                },
                None => CtxAccess::Free,
            };
            let p = prim_ctx_access(c.default);
            join(p, join(a_pair, join(a_task, join(a_list, a_map))))
        },
    }
}

} // verus!
