//! The solver and the reverse functions: state kept for solving calls.
use crate::prelude::mode::repr::gen_mode;
use crate::prelude::mode::func::default_prim;
use crate::prelude::mode::{prim_smode, ModeEntry, SymbolTaskMode, SMode, SPairMode, SymbolMode, TaskPrimMode};
use crate::prelude::setup::{default_free_mode, free_mode};
use crate::prelude::{func_sval, prim_func, prim_model, put_func, spec_default_mode, FuncMode, Prelude};
use crate::prelude::ctx::pattern::value_or_unit;
use crate::types::copy::{copy_func, copy_val};
use crate::types::dict::{dict_get, dict_insert, lemma_dict_insert_get, Entries};
use crate::types::val::{view_func, CtxAccess, FuncVal, SVal, Val, ValMap};
use crate::prelude::apply::Prim;
use vstd::prelude::*;

verus! {

/// The function that solves calls, and the reverse function registered under each name.
pub struct SolveState {
    pub solver: FuncVal,
    pub reverse: ValMap,
}

impl SolveState {
    pub fn new(solver: FuncVal) -> (r: SolveState)
        ensures
            view_func(r.solver) == view_func(solver),
            r.reverse.view() == Seq::<(SVal, SVal)>::empty(),
    {
        SolveState { solver, reverse: ValMap::new() }
    }
}

pub struct SolvePrelude {
    pub solver: FuncVal,
    pub set_solver: FuncVal,
    pub reverse: FuncVal,
    pub set_reverse: FuncVal,
}

pub open spec fn literal_prim() -> SymbolTaskMode {
    SymbolTaskMode { symbol: SymbolMode::Literal, task: TaskPrimMode::Form }
}

/// The mode `set_reverse!` takes its input with: the name literally, the function evaluated.
pub open spec fn set_reverse_mode() -> SMode {
    SMode::Comp(
        default_prim(),
        Some(Box::new(SPairMode { some: Seq::empty(), first: prim_smode(literal_prim()), second: prim_smode(default_prim()) })),
        None,
        None,
        None,
    )
}

impl Default for SolvePrelude {
    fn default() -> (r: Self)
        ensures
            func_sval(r.solver) == prim_model("solver!"@, CtxAccess::Free, spec_default_mode(), spec_default_mode(), None),
            func_sval(r.set_solver) == prim_model("set_solver!"@, CtxAccess::Free, spec_default_mode(), spec_default_mode(), None),
            func_sval(r.reverse) == prim_model("reverse!"@, CtxAccess::Free, gen_mode(prim_smode(literal_prim())), spec_default_mode(), None),
            func_sval(r.set_reverse) == prim_model("set_reverse!"@, CtxAccess::Free, gen_mode(set_reverse_mode()), spec_default_mode(), None),
    {
        SolvePrelude {
            solver: self::solver(),
            set_solver: self::set_solver(),
            reverse: self::reverse(),
            set_reverse: self::set_reverse(),
        }
    }
}

impl Prelude for SolvePrelude {
    fn put(&self, ctx: &mut ValMap)
        ensures
            final(ctx).view() == dict_insert(dict_insert(dict_insert(dict_insert(old(ctx).view(),
                SVal::Symbol(self.solver.id@), func_sval(self.solver)),
                SVal::Symbol(self.set_solver.id@), func_sval(self.set_solver)),
                SVal::Symbol(self.reverse.id@), func_sval(self.reverse)),
                SVal::Symbol(self.set_reverse.id@), func_sval(self.set_reverse)),
    {
        put_func(ctx, &self.solver);
        put_func(ctx, &self.set_solver);
        put_func(ctx, &self.reverse);
        put_func(ctx, &self.set_reverse);
    }
}

/// `solver!`: the function that solves calls.
pub fn solver() -> (f: FuncVal)
    ensures
        func_sval(f) == prim_model("solver!"@, CtxAccess::Free, spec_default_mode(), spec_default_mode(), None),
{
    prim_func("solver!", CtxAccess::Free, default_free_mode(), None)
}

/// `set_solver!`: replaces the function that solves calls.
pub fn set_solver() -> (f: FuncVal)
    ensures
        func_sval(f) == prim_model("set_solver!"@, CtxAccess::Free, spec_default_mode(), spec_default_mode(), None),
{
    prim_func("set_solver!", CtxAccess::Free, default_free_mode(), None)
}

/// `reverse!`: the reverse function registered under a name.
pub fn reverse() -> (f: FuncVal)
    ensures
        func_sval(f) == prim_model("reverse!"@, CtxAccess::Free, gen_mode(prim_smode(literal_prim())), spec_default_mode(), None),
{
    let m = FuncMode::from_modes(
        &FuncMode::prim_mode(SymbolMode::Literal, TaskPrimMode::Form),
        &FuncMode::default_mode(),
    );
    prim_func("reverse!", CtxAccess::Free, free_mode(m.call), None)
}

/// `set_reverse!`: registers a reverse function under a name.
pub fn set_reverse() -> (f: FuncVal)
    ensures
        func_sval(f) == prim_model("set_reverse!"@, CtxAccess::Free, gen_mode(set_reverse_mode()), spec_default_mode(), None),
{
    let literal = FuncMode::prim_mode(SymbolMode::Literal, TaskPrimMode::Form);
    let call = FuncMode::pair_mode(Vec::new(), literal, FuncMode::default_mode());
    proof {
        assert(crate::prelude::mode::view_mode_entries(Seq::<ModeEntry>::empty()) =~= Seq::empty());
    }
    let m = FuncMode::from_modes(&call, &FuncMode::default_mode());
    prim_func("set_reverse!", CtxAccess::Free, free_mode(m.call), None)
}

pub fn fn_solver(state: &SolveState, _input: Val) -> (r: Val)
    ensures
        r@ == SVal::Func(Box::new(view_func(state.solver))),
{
    Val::Func(Box::new(copy_func(&state.solver)))
}

pub fn fn_set_solver(state: &mut SolveState, input: Val) -> (r: Val)
    ensures
        r@ == SVal::Unit,
        final(state).reverse == old(state).reverse,
        input@ matches SVal::Func(f) ==> view_func(final(state).solver) == *f,
        !(input@ is Func) ==> view_func(final(state).solver) == view_func(old(state).solver),
{
    if let Val::Func(f) = input {
        state.solver = *f;
    }
    Val::Unit
}

/// The reverse function registered under the symbol, or unit.
pub open spec fn reverse_of(reverse: Entries, input: SVal) -> SVal {
    match input {
        SVal::Symbol(_) => value_or_unit(dict_get(reverse, input)),
        _ => SVal::Unit,
    }
}

/// Registering `(name, function)`: a pair of a symbol and a function; any other
/// input changes nothing.
pub open spec fn set_reverse_of(reverse: Entries, input: SVal) -> Entries {
    match input {
        SVal::Pair(a, b) => match *a {
            SVal::Symbol(_) => match *b {
                SVal::Func(_) => dict_insert(reverse, *a, *b),
                _ => reverse,
            },
            _ => reverse,
        },
        _ => reverse,
    }
}

pub fn fn_reverse(state: &SolveState, input: Val) -> (r: Val)
    ensures
        r@ == reverse_of(state.reverse.view(), input@),
{
    let Val::Symbol(_) = &input else {
        return Val::Unit;
    };
    match state.reverse.get(&input) {
        Some(f) => f,
        None => Val::Unit,
    }
}

pub fn fn_set_reverse(state: &mut SolveState, input: Val) -> (r: Val)
    ensures
        r@ == SVal::Unit,
        final(state).reverse.view() == set_reverse_of(old(state).reverse.view(), input@),
        view_func(final(state).solver) == view_func(old(state).solver),
{
    proof {
        reveal_with_fuel(crate::types::val::view_val, 2);
    }
    let Val::Pair(p) = input else {
        return Val::Unit;
    };
    let p = *p;
    let Val::Symbol(_) = &p.first else {
        return Val::Unit;
    };
    let Val::Func(_) = &p.second else {
        return Val::Unit;
    };
    let _ = state.reverse.insert(p.first, p.second);
    Val::Unit
}

/// A function registered under a name is the reverse function of that name.
pub proof fn lemma_set_then_reverse(reverse: Entries, name: Seq<char>, f: SVal)
    requires
        f is Func,
    ensures
        reverse_of(
            set_reverse_of(reverse, crate::types::val::sval_pair(SVal::Symbol(name), f)),
            SVal::Symbol(name),
        ) == f,
{
    lemma_dict_insert_get(reverse, SVal::Symbol(name), f);
}

} // verus!
