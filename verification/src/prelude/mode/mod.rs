//! Modes: how a function's input is prepared before the function sees it.
use crate::prelude::mode::access::mode_access;
use crate::prelude::mode::func::spec_mode_func;
use crate::prelude::mode::repr::{gen_mode, generate, lemma_roundtrip, parse, parse_mode};
use crate::prelude::setup::free_mode;
use crate::prelude::{func_sval, prim_func, prim_model, put_func, put_func_as, spec_default_mode, FuncMode, Prelude};
use crate::types::dict::dict_insert;
use crate::types::val::{view_func, view_val, CtxAccess, FuncVal, SFunc, SVal, Val, ValMap};
use crate::prelude::apply::Prim;
use vstd::prelude::*;

pub mod access;
pub mod func;
pub mod prim;
pub mod repr;

verus! {

/// What a mode does to a symbol: keep it, take it literally, look it up, or evaluate what it names.
#[derive(Clone, Copy, PartialEq, Eq, Structural)]
pub enum SymbolMode {
    Id,
    Literal,
    Ref,
    Eval,
}

/// What a mode does to a call: keep its form, or evaluate it.
#[derive(Clone, Copy, PartialEq, Eq, Structural)]
pub enum TaskPrimMode {
    Form,
    Eval,
}

/// A primitive mode with every part given: one choice for symbols and one for
/// calls, while pairs, lists and maps are prepared part by part with the same mode.
/// This is what one word writes; `prim::PrimMode` is the general form, whose parts
/// may each be left out (`prim::full_prim` relates the two).
#[derive(Clone, Copy, PartialEq, Eq, Structural)]
pub struct SymbolTaskMode {
    pub symbol: SymbolMode,
    pub task: TaskPrimMode,
}

/// A mode for the value stored under a key.
pub struct ModeEntry {
    pub key: Val,
    pub mode: Mode,
}

/// A mode for pairs: a mode for the second part chosen by the first part
/// (`some`), else a mode for each part.
pub struct PairMode {
    pub some: Vec<ModeEntry>,
    pub first: Mode,
    pub second: Mode,
}

/// A mode for calls: one for each of the function, the context and the input.
pub struct TaskMode {
    pub func: Mode,
    pub ctx: Mode,
    pub input: Mode,
}

/// A mode for lists: one for each leading item, one for the rest.
pub struct ListMode {
    pub head: Vec<Mode>,
    pub tail: Mode,
}

/// A mode for maps: one for the value under each listed key, one for the rest.
pub struct MapMode {
    pub some: Vec<ModeEntry>,
    pub else_: Mode,
}

/// A primitive mode with, for each kind of composite value, an optional mode of its own.
pub struct CompMode {
    pub default: SymbolTaskMode,
    pub pair: Option<Box<PairMode>>,
    pub task: Option<Box<TaskMode>>,
    pub list: Option<Box<ListMode>>,
    pub map: Option<Box<MapMode>>,
}

pub enum Mode {
    Comp(CompMode),
    Func(Box<FuncVal>),
}

/// The mathematical model of a mode.
pub enum SMode {
    Comp(
        SymbolTaskMode,
        Option<Box<SPairMode>>,
        Option<Box<STaskMode>>,
        Option<Box<SListMode>>,
        Option<Box<SMapMode>>,
    ),
    /// A function used as a mode.
    Func(SFunc),
}

pub struct SPairMode {
    pub some: Seq<(SVal, SMode)>,
    pub first: SMode,
    pub second: SMode,
}

pub struct STaskMode {
    pub func: SMode,
    pub ctx: SMode,
    pub input: SMode,
}

pub struct SListMode {
    pub head: Seq<SMode>,
    pub tail: SMode,
}

pub struct SMapMode {
    pub some: Seq<(SVal, SMode)>,
    pub else_: SMode,
}

/// The mode that is nothing but a primitive mode.
pub open spec fn prim_smode(p: SymbolTaskMode) -> SMode {
    SMode::Comp(p, None, None, None, None)
}

pub open spec fn id_prim() -> SymbolTaskMode {
    SymbolTaskMode { symbol: SymbolMode::Id, task: TaskPrimMode::Form }
}

pub open spec fn view_modes(s: Seq<Mode>) -> Seq<SMode>
    decreases s, 0nat,
{
    if s.len() == 0 {
        Seq::empty()
    } else {
        view_modes(s.drop_last()).push(view_mode(s.last()))
    }
}

pub open spec fn view_mode_entries(s: Seq<ModeEntry>) -> Seq<(SVal, SMode)>
    decreases s, 0nat,
{
    if s.len() == 0 {
        Seq::empty()
    } else {
        view_mode_entries(s.drop_last()).push((view_val(s.last().key), view_mode(s.last().mode)))
    }
}

pub open spec fn view_mode(m: Mode) -> SMode
    decreases m, 1nat,
{
    match m {
        Mode::Comp(c) => SMode::Comp(
            c.default,
            match c.pair {
                Some(p) => Some(
                    Box::new(
                        SPairMode {
                            some: view_mode_entries(p.some@),
                            first: view_mode(p.first),
                            second: view_mode(p.second),
                        },
                    ),
                ),
                None => None,
            },
            match c.task {
                Some(t) => Some(
                    Box::new(
                        STaskMode {
                            func: view_mode(t.func),
                            ctx: view_mode(t.ctx),
                            input: view_mode(t.input),
                        },
                    ),
                ),
                None => None,
            },
            match c.list {
                Some(l) => Some(
                    Box::new(SListMode { head: view_modes(l.head@), tail: view_mode(l.tail) }),
                ),
                None => None,
            },
            match c.map {
                Some(x) => Some(
                    Box::new(SMapMode { some: view_mode_entries(x.some@), else_: view_mode(x.else_) }),
                ),
                None => None,
            },
        ),
        Mode::Func(f) => SMode::Func(view_func(*f)),
    }
}

impl View for Mode {
    type V = SMode;

    open spec fn view(&self) -> SMode {
        view_mode(*self)
    }
}

pub proof fn lemma_view_modes(s: Seq<Mode>)
    ensures
        view_modes(s).len() == s.len(),
        forall|i: int| 0 <= i < s.len() ==> #[trigger] view_modes(s)[i] == view_mode(s[i]),
    decreases s.len(),
{
    if s.len() > 0 {
        lemma_view_modes(s.drop_last());
    }
}

pub proof fn lemma_view_mode_entries(s: Seq<ModeEntry>)
    ensures
        view_mode_entries(s).len() == s.len(),
        forall|i: int|
            0 <= i < s.len() ==> #[trigger] view_mode_entries(s)[i] == (
                view_val(s[i].key),
                view_mode(s[i].mode),
            ),
    decreases s.len(),
{
    if s.len() > 0 {
        lemma_view_mode_entries(s.drop_last());
    }
}

impl SymbolTaskMode {
    pub fn new(symbol: SymbolMode, task: TaskPrimMode) -> (r: SymbolTaskMode)
        ensures
            r == (SymbolTaskMode { symbol, task }),
    {
        SymbolTaskMode { symbol, task }
    }

    /// The primitive mode that leaves every value as it is.
    pub fn id() -> (r: SymbolTaskMode)
        ensures
            r == id_prim(),
    {
        SymbolTaskMode { symbol: SymbolMode::Id, task: TaskPrimMode::Form }
    }

    pub fn is_id(&self) -> (r: bool)
        ensures
            r == (*self == id_prim()),
    {
        self.symbol == SymbolMode::Id && self.task == TaskPrimMode::Form
    }
}

impl CompMode {
    /// The composite mode with nothing but the given primitive mode.
    pub fn from_prim(default: SymbolTaskMode) -> (r: CompMode)
        ensures
            view_mode(Mode::Comp(r)) == prim_smode(default),
    {
        CompMode { default, pair: None, task: None, list: None, map: None }
    }

    /// The composite mode that leaves every value as it is.
    pub fn id() -> (r: CompMode)
        ensures
            view_mode(Mode::Comp(r)) == prim_smode(id_prim()),
    {
        CompMode::from_prim(SymbolTaskMode::id())
    }

    pub fn is_id(&self) -> (r: bool)
        ensures
            r == (view_mode(Mode::Comp(*self)) == prim_smode(id_prim())),
    {
        self.default.is_id() && self.pair.is_none() && self.task.is_none() && self.list.is_none()
            && self.map.is_none()
    }
}

impl Mode {
    pub fn from_prim(p: SymbolTaskMode) -> (r: Mode)
        ensures
            r@ == prim_smode(p),
    {
        Mode::Comp(CompMode::from_prim(p))
    }

    /// The mode that leaves every value as it is.
    pub fn id() -> (r: Mode)
        ensures
            r@ == prim_smode(id_prim()),
    {
        Mode::Comp(CompMode::id())
    }

    pub fn is_id(&self) -> (r: bool)
        ensures
            r == (self@ == prim_smode(id_prim())),
    {
        match self {
            Mode::Comp(c) => c.is_id(),
            Mode::Func(_) => false,
        }
    }
}


/// The functions that make and apply modes.
pub struct ModePrelude {
    pub new: FuncVal,
    pub form_id: FuncVal,
    pub form_literal: FuncVal,
    pub form_ref: FuncVal,
    pub form_eval: FuncVal,
    pub eval_id: FuncVal,
    pub eval_literal: FuncVal,
    pub eval_ref: FuncVal,
    pub eval_eval: FuncVal,
}

pub open spec fn spec_mode_new_func() -> SVal {
    prim_model("mode"@, CtxAccess::Free, SVal::Symbol("form."@), spec_default_mode(), Some(Prim::Mode(crate::prelude::mode::ModeFn::New)))
}

pub open spec fn spec_prim_mode_func(access: CtxAccess, symbol: SymbolMode, task: TaskPrimMode) -> SVal {
    spec_mode_func(access, prim_smode(SymbolTaskMode { symbol, task }))
}

impl Default for ModePrelude {
    fn default() -> (r: Self)
        ensures
            func_sval(r.new) == spec_mode_new_func(),
            func_sval(r.form_id) == spec_prim_mode_func(CtxAccess::Free, SymbolMode::Id, TaskPrimMode::Form),
            func_sval(r.form_literal) == spec_prim_mode_func(CtxAccess::Mut, SymbolMode::Literal, TaskPrimMode::Form),
            func_sval(r.form_ref) == spec_prim_mode_func(CtxAccess::Mut, SymbolMode::Ref, TaskPrimMode::Form),
            func_sval(r.form_eval) == spec_prim_mode_func(CtxAccess::Mut, SymbolMode::Eval, TaskPrimMode::Form),
            func_sval(r.eval_id) == spec_prim_mode_func(CtxAccess::Mut, SymbolMode::Id, TaskPrimMode::Eval),
            func_sval(r.eval_literal) == spec_prim_mode_func(CtxAccess::Mut, SymbolMode::Literal, TaskPrimMode::Eval),
            func_sval(r.eval_ref) == spec_prim_mode_func(CtxAccess::Mut, SymbolMode::Ref, TaskPrimMode::Eval),
            func_sval(r.eval_eval) == spec_prim_mode_func(CtxAccess::Mut, SymbolMode::Eval, TaskPrimMode::Eval),
    {
        ModePrelude {
            new: self::new(),
            form_id: self::form_id(),
            form_literal: self::form_literal(),
            form_ref: self::form_ref(),
            form_eval: self::form_eval(),
            eval_id: self::eval_id(),
            eval_literal: self::eval_literal(),
            eval_ref: self::eval_ref(),
            eval_eval: self::eval_eval(),
        }
    }
}

impl Prelude for ModePrelude {
    fn put(&self, ctx: &mut ValMap)
        ensures
            final(ctx).view() == dict_insert(dict_insert(dict_insert(dict_insert(dict_insert(dict_insert(dict_insert(dict_insert(dict_insert(old(ctx).view(), SVal::Symbol(self.new.id@), func_sval(self.new)), SVal::Symbol("form"@), func_sval(self.form_id)), SVal::Symbol("form."@), func_sval(self.form_literal)), SVal::Symbol("form*"@), func_sval(self.form_ref)), SVal::Symbol("form$"@), func_sval(self.form_eval)), SVal::Symbol("eval"@), func_sval(self.eval_id)), SVal::Symbol("eval."@), func_sval(self.eval_literal)), SVal::Symbol("eval*"@), func_sval(self.eval_ref)), SVal::Symbol("eval$"@), func_sval(self.eval_eval)),
    {
        put_func(ctx, &self.new);
        put_func_as(ctx, "form", &self.form_id);
        put_func_as(ctx, "form.", &self.form_literal);
        put_func_as(ctx, "form*", &self.form_ref);
        put_func_as(ctx, "form$", &self.form_eval);
        put_func_as(ctx, "eval", &self.eval_id);
        put_func_as(ctx, "eval.", &self.eval_literal);
        put_func_as(ctx, "eval*", &self.eval_ref);
        put_func_as(ctx, "eval$", &self.eval_eval);
    }
}

/// `mode`: the function made from the mode its input writes.
pub fn new() -> (f: FuncVal)
    ensures
        func_sval(f) == spec_mode_new_func(),
{
    let call = generate(&Mode::from_prim(SymbolTaskMode::new(SymbolMode::Literal, TaskPrimMode::Form)));
    proof {
        reveal_strlit("form.");
    }
    prim_func("mode", CtxAccess::Free, free_mode(call), Some(Prim::Mode(crate::prelude::mode::ModeFn::New)))
}

/// What `mode` gives: the function of the mode the input writes, or unit when it writes none.
pub open spec fn mode_new(input: SVal) -> SVal {
    match parse_mode(input) {
        Some(m) => spec_mode_func(mode_access(m), m),
        None => SVal::Unit,
    }
}

pub fn fn_new(input: Val) -> (r: Val)
    ensures
        r@ == mode_new(input@),
{
    match parse(&input) {
        Some(m) => {
            let f = FuncMode::mode_into_func(m);
            Val::Func(Box::new(f))
        },
        None => Val::Unit,
    }
}

/// A mode written down and made into a function gives the function of that mode.
pub proof fn lemma_new_of_written(m: SMode)
    ensures
        mode_new(gen_mode(m)) == spec_mode_func(mode_access(m), m),
{
    lemma_roundtrip(m);
}

/// `form`: the function that applies this primitive mode.
pub fn form_id() -> (f: FuncVal)
    ensures
        func_sval(f) == spec_prim_mode_func(CtxAccess::Free, SymbolMode::Id, TaskPrimMode::Form),
{
    FuncMode::mode_into_free_func(FuncMode::prim_mode(SymbolMode::Id, TaskPrimMode::Form))
}

/// `form.`: the function that applies this primitive mode.
pub fn form_literal() -> (f: FuncVal)
    ensures
        func_sval(f) == spec_prim_mode_func(CtxAccess::Mut, SymbolMode::Literal, TaskPrimMode::Form),
{
    FuncMode::mode_into_mut_func(FuncMode::prim_mode(SymbolMode::Literal, TaskPrimMode::Form))
}

/// `form*`: the function that applies this primitive mode.
pub fn form_ref() -> (f: FuncVal)
    ensures
        func_sval(f) == spec_prim_mode_func(CtxAccess::Mut, SymbolMode::Ref, TaskPrimMode::Form),
{
    FuncMode::mode_into_mut_func(FuncMode::prim_mode(SymbolMode::Ref, TaskPrimMode::Form))
}

/// `form$`: the function that applies this primitive mode.
pub fn form_eval() -> (f: FuncVal)
    ensures
        func_sval(f) == spec_prim_mode_func(CtxAccess::Mut, SymbolMode::Eval, TaskPrimMode::Form),
{
    FuncMode::mode_into_mut_func(FuncMode::prim_mode(SymbolMode::Eval, TaskPrimMode::Form))
}

/// `eval`: the function that applies this primitive mode.
pub fn eval_id() -> (f: FuncVal)
    ensures
        func_sval(f) == spec_prim_mode_func(CtxAccess::Mut, SymbolMode::Id, TaskPrimMode::Eval),
{
    FuncMode::mode_into_mut_func(FuncMode::prim_mode(SymbolMode::Id, TaskPrimMode::Eval))
}

/// `eval.`: the function that applies this primitive mode.
pub fn eval_literal() -> (f: FuncVal)
    ensures
        func_sval(f) == spec_prim_mode_func(CtxAccess::Mut, SymbolMode::Literal, TaskPrimMode::Eval),
{
    FuncMode::mode_into_mut_func(FuncMode::prim_mode(SymbolMode::Literal, TaskPrimMode::Eval))
}

/// `eval*`: the function that applies this primitive mode.
pub fn eval_ref() -> (f: FuncVal)
    ensures
        func_sval(f) == spec_prim_mode_func(CtxAccess::Mut, SymbolMode::Ref, TaskPrimMode::Eval),
{
    FuncMode::mode_into_mut_func(FuncMode::prim_mode(SymbolMode::Ref, TaskPrimMode::Eval))
}

/// `eval$`: the function that applies this primitive mode.
pub fn eval_eval() -> (f: FuncVal)
    ensures
        func_sval(f) == spec_prim_mode_func(CtxAccess::Mut, SymbolMode::Eval, TaskPrimMode::Eval),
{
    FuncMode::mode_into_mut_func(FuncMode::prim_mode(SymbolMode::Eval, TaskPrimMode::Eval))
}


/// The built-in functions of this module, by what they compute.
#[derive(Clone, Copy, PartialEq, Eq, Structural)]
pub enum ModeFn {
    New,
}

/// What calling one of these functions does: the context after the call, and the result.
pub open spec fn run_spec(f: ModeFn, ctx: SVal, input: SVal) -> (SVal, SVal) {
    match f {
        ModeFn::New => (ctx, mode_new(input)),
    }
}

/// Calls one of these functions on a context it may change.
pub fn run(f: ModeFn, ctx: &mut Val, input: Val) -> (r: Val)
    ensures
        (final(ctx)@, r@) == run_spec(f, old(ctx)@, input@),
{
    match f {
        ModeFn::New => fn_new(input),
    }
}

} // verus!
