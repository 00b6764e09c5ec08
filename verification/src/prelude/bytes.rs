//! Byte strings, in their older form: no functions.
use crate::prelude::setup::{default_dyn_mode, default_free_mode};
use crate::prelude::{func_sval, prim_func, prim_model, put_func, spec_default_mode, Prelude};
use crate::types::dict::dict_insert;
use crate::types::val::{CtxAccess, FuncVal, SVal, Val, ValMap};
use vstd::prelude::*;

verus! {

pub struct BytesPrelude {
}

impl Default for BytesPrelude {
    fn default() -> (r: Self)
        ensures
    {
        BytesPrelude {
        }
    }
}

impl Prelude for BytesPrelude {
    fn put(&self, ctx: &mut ValMap)
    {
    }
}



} // verus!
