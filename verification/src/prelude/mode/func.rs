//! Modes as function values, and the modes that built-in functions are made with.
use crate::prelude::mode::access::{ctx_access, mode_access};
use crate::prelude::mode::repr::{gen_mode, generate, lemma_parse_prim_word, parse_prim, prim_word};
use crate::prelude::mode::{
    id_prim, prim_smode, view_mode_entries, view_modes, CompMode, ListMode, MapMode, Mode,
    ModeEntry, PairMode, SymbolTaskMode, SListMode, SMapMode, SMode, SPairMode, STaskMode, SymbolMode,
    TaskMode, TaskPrimMode,
};
use crate::prelude::{func_sval, prim_model, spec_default_mode, FuncMode};
use crate::types::val::{CtxAccess, FuncVal, SFunc, SVal, Val};
use crate::prelude::apply::Prim;
use vstd::prelude::*;

verus! {

/// Symbols are looked up and calls are evaluated.
pub open spec fn default_prim() -> SymbolTaskMode {
    SymbolTaskMode { symbol: SymbolMode::Ref, task: TaskPrimMode::Eval }
}

/// A mode made into a function: it has no setup, and it holds the mode it applies.
pub open spec fn spec_mode_func(access: CtxAccess, m: SMode) -> SVal {
    SVal::Func(
        Box::new(
            SFunc {
                id: "mode.object"@,
                access,
                call: SVal::Unit,
                solve: SVal::Unit,
                cell: false,
                comp: None,
                prim: None,
                data: gen_mode(m),
            },
        ),
    )
}

/// The written form of the default mode is the symbol the language uses for it.
pub proof fn lemma_default_mode_written()
    ensures
        gen_mode(prim_smode(default_prim())) == spec_default_mode(),
        parse_prim(prim_word(default_prim())) == Some(default_prim()),
{
    lemma_parse_prim_word(default_prim());
}

fn mode_func(access: CtxAccess, mode: &Mode) -> (f: FuncVal)
    ensures
        func_sval(f) == spec_mode_func(access, mode@),
{
    let call = Val::Unit;
    let solve = Val::Unit;
    assert(call@ == SVal::Unit && solve@ == SVal::Unit);
    FuncVal {
        id: String::from_str("mode.object"),
        access,
        call,
        solve,
        cell: false,
        comp: None,
        prim: None,
        data: generate(mode),
    }
}

impl FuncMode {
    /// A function that applies the mode to its input; it takes as much of the
    /// context as the mode needs.
    pub fn mode_into_func(mode: Mode) -> (f: FuncVal)
        ensures
            func_sval(f) == spec_mode_func(mode_access(mode@), mode@),
    {
        let access = ctx_access(&mode);
        mode_func(access, &mode)
    }

    pub fn mode_into_free_func(mode: Mode) -> (f: FuncVal)
        ensures
            func_sval(f) == spec_mode_func(CtxAccess::Free, mode@),
    {
        mode_func(CtxAccess::Free, &mode)
    }

    pub fn mode_into_const_func(mode: Mode) -> (f: FuncVal)
        ensures
            func_sval(f) == spec_mode_func(CtxAccess::Const, mode@),
    {
        mode_func(CtxAccess::Const, &mode)
    }

    pub fn mode_into_mut_func(mode: Mode) -> (f: FuncVal)
        ensures
            func_sval(f) == spec_mode_func(CtxAccess::Mut, mode@),
    {
        mode_func(CtxAccess::Mut, &mode)
    }

    pub fn default_prim_mode() -> (p: SymbolTaskMode)
        ensures
            p == default_prim(),
    {
        SymbolTaskMode { symbol: SymbolMode::Ref, task: TaskPrimMode::Eval }
    }

    pub fn default_comp_mode() -> (c: CompMode)
        ensures
            Mode::Comp(c)@ == prim_smode(default_prim()),
    {
        CompMode::from_prim(FuncMode::default_prim_mode())
    }

    /// The mode functions take their input with unless they say otherwise.
    pub fn default_mode() -> (m: Mode)
        ensures
            m@ == prim_smode(default_prim()),
            gen_mode(m@) == spec_default_mode(),
    {
        proof {
            lemma_default_mode_written();
        }
        Mode::Comp(FuncMode::default_comp_mode())
    }

    pub fn id_mode() -> (m: Mode)
        ensures
            m@ == prim_smode(id_prim()),
    {
        Mode::id()
    }

    pub fn prim_mode(symbol: SymbolMode, task: TaskPrimMode) -> (m: Mode)
        ensures
            m@ == prim_smode(SymbolTaskMode { symbol, task }),
    {
        Mode::from_prim(SymbolTaskMode::new(symbol, task))
    }

    /// The default mode, except that pairs are prepared with the given modes.
    pub fn pair_mode(some: Vec<ModeEntry>, first: Mode, second: Mode) -> (m: Mode)
        ensures
            m@ == SMode::Comp(
                default_prim(),
                Some(Box::new(SPairMode { some: view_mode_entries(some@), first: first@, second: second@ })),
                None,
                None,
                None,
            ),
    {
        let c = CompMode {
            default: FuncMode::default_prim_mode(),
            pair: Some(Box::new(PairMode { some, first, second })),
            task: None,
            list: None,
            map: None,
        };
        Mode::Comp(c)
    }

    /// The default mode, except that calls are prepared with the given modes.
    pub fn task_mode(func: Mode, ctx: Mode, input: Mode) -> (m: Mode)
        ensures
            m@ == SMode::Comp(
                default_prim(),
                None,
                Some(Box::new(STaskMode { func: func@, ctx: ctx@, input: input@ })),
                None,
                None,
            ),
    {
        let c = CompMode {
            default: FuncMode::default_prim_mode(),
            pair: None,
            task: Some(Box::new(TaskMode { func, ctx, input })),
            list: None,
            map: None,
        };
        Mode::Comp(c)
    }

    /// The default mode, except that lists are prepared with the given modes.
    pub fn list_mode(head: Vec<Mode>, tail: Mode) -> (m: Mode)
        ensures
            m@ == SMode::Comp(
                default_prim(),
                None,
                None,
                Some(Box::new(SListMode { head: view_modes(head@), tail: tail@ })),
                None,
            ),
    {
        let c = CompMode {
            default: FuncMode::default_prim_mode(),
            pair: None,
            task: None,
            list: Some(Box::new(ListMode { head, tail })),
            map: None,
        };
        Mode::Comp(c)
    }

    /// The default mode, except that maps are prepared with the given modes.
    pub fn map_mode(some: Vec<ModeEntry>, else_: Mode) -> (m: Mode)
        ensures
            m@ == SMode::Comp(
                default_prim(),
                None,
                None,
                None,
                Some(Box::new(SMapMode { some: view_mode_entries(some@), else_: else_@ })),
            ),
    {
        let c = CompMode {
            default: FuncMode::default_prim_mode(),
            pair: None,
            task: None,
            list: None,
            map: Some(Box::new(MapMode { some, else_ })),
        };
        Mode::Comp(c)
    }

    /// The modes of a function, written down.
    pub fn from_modes(call: &Mode, solve: &Mode) -> (m: FuncMode)
        ensures
            m.call@ == gen_mode(call@),
            m.solve@ == gen_mode(solve@),
    {
        FuncMode { call: generate(call), solve: generate(solve) }
    }
}

} // verus!
