//! The modes that built-in functions are made with.
use crate::prelude::mode::{Mode, SMode};
use crate::prelude::{func_sval, spec_default_mode, symbol, FuncMode};
use crate::types::val::{view_func, CtxAccess, FuncVal, SFunc, SVal, Val};
use vstd::prelude::*;

verus! {

/// The default mode, in the form the language writes it.
pub fn default_mode() -> (r: Val)
    ensures
        r@ == spec_default_mode(),
{
    symbol("eval*")
}

/// The modes of a function that takes no context: `mode` for calls, the default for solving.
pub fn free_mode(mode: Val) -> (m: FuncMode)
    ensures
        m.call == mode,
        m.solve@ == spec_default_mode(),
{
    FuncMode { call: mode, solve: default_mode() }
}

pub fn default_free_mode() -> (m: FuncMode)
    ensures
        m.call@ == spec_default_mode(),
        m.solve@ == spec_default_mode(),
{
    free_mode(default_mode())
}

/// The modes of a function that reads or changes its context.
pub fn dyn_mode(mode: Val) -> (m: FuncMode)
    ensures
        m.call == mode,
        m.solve@ == spec_default_mode(),
{
    FuncMode { call: mode, solve: default_mode() }
}

pub fn default_dyn_mode() -> (m: FuncMode)
    ensures
        m.call@ == spec_default_mode(),
        m.solve@ == spec_default_mode(),
{
    dyn_mode(default_mode())
}


/// The model of a built-in function made with no setup.
pub open spec fn bare_model(id: Seq<char>, access: CtxAccess, cell: bool) -> SVal {
    SVal::Func(Box::new(SFunc { id, access, call: SVal::Unit, solve: SVal::Unit, cell, comp: None, prim: None, data: SVal::Unit }))
}

fn bare_func(id: String, access: CtxAccess, cell: bool) -> (f: FuncVal)
    ensures
        func_sval(f) == bare_model(id@, access, cell),
{
    let call = Val::Unit;
    let solve = Val::Unit;
    let data = Val::Unit;
    assert(call@ == SVal::Unit && solve@ == SVal::Unit && data@ == SVal::Unit);
    FuncVal { id, access, call, solve, cell, comp: None, prim: None, data }
}

pub open spec fn ref_sfunc() -> SFunc {
    SFunc { id: "reference"@, access: CtxAccess::Mut, call: SVal::Unit, solve: SVal::Unit, cell: false, comp: None, prim: None, data: SVal::Unit }
}

/// A built-in function that takes no context, by its name.
pub struct FreeFn {
    pub id: String,
}

/// A built-in function that takes a context, by its name.
pub struct DynFn {
    pub id: String,
}

impl FreeFn {
    pub fn free_cell(self) -> (f: FuncVal)
        ensures
            func_sval(f) == bare_model(self.id@, CtxAccess::Free, true),
    {
        bare_func(self.id, CtxAccess::Free, true)
    }

    pub fn free_static(self) -> (f: FuncVal)
        ensures
            func_sval(f) == bare_model(self.id@, CtxAccess::Free, false),
    {
        bare_func(self.id, CtxAccess::Free, false)
    }
}

impl DynFn {
    pub fn const_cell(self) -> (f: FuncVal)
        ensures
            func_sval(f) == bare_model(self.id@, CtxAccess::Const, true),
    {
        bare_func(self.id, CtxAccess::Const, true)
    }

    pub fn const_static(self) -> (f: FuncVal)
        ensures
            func_sval(f) == bare_model(self.id@, CtxAccess::Const, false),
    {
        bare_func(self.id, CtxAccess::Const, false)
    }

    pub fn mut_cell(self) -> (f: FuncVal)
        ensures
            func_sval(f) == bare_model(self.id@, CtxAccess::Mut, true),
    {
        bare_func(self.id, CtxAccess::Mut, true)
    }

    pub fn mut_static(self) -> (f: FuncVal)
        ensures
            func_sval(f) == bare_model(self.id@, CtxAccess::Mut, false),
    {
        bare_func(self.id, CtxAccess::Mut, false)
    }
}

/// The functions that set up the input of other functions.
pub struct CtxSetup {
    pub ref_: FuncVal,
}

pub struct CoreSetup {
    pub ctx: CtxSetup,
}

/// `reference`: the setup that names a variable of the context instead of copying its value.
pub fn ref_() -> (f: FuncVal)
    ensures
        func_sval(f) == bare_model("reference"@, CtxAccess::Mut, false),
{
    DynFn { id: String::from_str("reference") }.mut_static()
}

impl Default for CtxSetup {
    fn default() -> (r: Self)
        ensures
            func_sval(r.ref_) == bare_model("reference"@, CtxAccess::Mut, false),
    {
        CtxSetup { ref_: ref_() }
    }
}

impl Default for CoreSetup {
    fn default() -> (r: Self)
        ensures
            func_sval(r.ctx.ref_) == bare_model("reference"@, CtxAccess::Mut, false),
    {
        CoreSetup { ctx: CtxSetup::default() }
    }
}

/// The mode that passes references: the `reference` setup used as a mode.
pub fn ref_mode() -> (m: Mode)
    ensures
        m@ == SMode::Func(ref_sfunc()),
{
    let f = ref_();
    assert(func_sval(f) == SVal::Func(Box::new(view_func(f))));
    Mode::Func(Box::new(f))
}

} // verus!
