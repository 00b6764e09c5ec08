//! Numbers: no functions yet.
use crate::prelude::setup::{default_dyn_mode, default_free_mode};
use crate::prelude::{func_sval, prim_func, prim_model, put_func, spec_default_mode, Prelude};
use crate::types::dict::dict_insert;
use crate::types::val::{CtxAccess, FuncVal, SVal, Val, ValMap};
use vstd::prelude::*;

verus! {

pub struct NumberPrelude {
}

impl Default for NumberPrelude {
    fn default() -> (r: Self)
        ensures
    {
        NumberPrelude {
        }
    }
}

impl Prelude for NumberPrelude {
    fn put(&self, ctx: &mut ValMap)
    {
    }
}



} // verus!
