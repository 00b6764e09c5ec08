//! The unit value.
use crate::prelude::setup::{default_dyn_mode, default_free_mode};
use crate::prelude::{func_sval, prim_func, prim_model, put_func, spec_default_mode, Prelude};
use crate::types::dict::dict_insert;
use crate::types::val::{CtxAccess, FuncVal, SVal, Val, ValMap};
use crate::prelude::apply::Prim;
use vstd::prelude::*;

verus! {

pub struct UnitPrelude {
    pub unit: FuncVal,
}

impl Default for UnitPrelude {
    fn default() -> (r: Self)
        ensures
            func_sval(r.unit) == prim_model("unit"@, CtxAccess::Free, spec_default_mode(), spec_default_mode(), Some(Prim::Unit(crate::prelude::unit::UnitFn::Unit))),
    {
        UnitPrelude {
            unit: self::unit(),
        }
    }
}

impl Prelude for UnitPrelude {
    fn put(&self, ctx: &mut ValMap)
        ensures
            final(ctx).view() == dict_insert(old(ctx).view(), SVal::Symbol(self.unit.id@), func_sval(self.unit)),
    {
        put_func(ctx, &self.unit);
    }
}

/// `unit`: gives the unit value.
pub fn unit() -> (f: FuncVal)
    ensures
        func_sval(f) == prim_model("unit"@, CtxAccess::Free, spec_default_mode(), spec_default_mode(), Some(Prim::Unit(crate::prelude::unit::UnitFn::Unit))),
{
    prim_func("unit", CtxAccess::Free, default_free_mode(), Some(Prim::Unit(crate::prelude::unit::UnitFn::Unit)))
}

/// Whatever the input, the unit value.
pub fn fn_unit(_input: Val) -> (r: Val)
    ensures
        r@ == SVal::Unit,
{
    Val::Unit
}


/// The built-in functions of this module, by what they compute.
#[derive(Clone, Copy, PartialEq, Eq, Structural)]
pub enum UnitFn {
    Unit,
}

/// What calling one of these functions does: the context after the call, and the result.
pub open spec fn run_spec(f: UnitFn, ctx: SVal, input: SVal) -> (SVal, SVal) {
    match f {
        UnitFn::Unit => (ctx, SVal::Unit),
    }
}

/// Calls one of these functions on a context it may change.
pub fn run(f: UnitFn, ctx: &mut Val, input: Val) -> (r: Val)
    ensures
        (final(ctx)@, r@) == run_spec(f, old(ctx)@, input@),
{
    match f {
        UnitFn::Unit => fn_unit(input),
    }
}

} // verus!
