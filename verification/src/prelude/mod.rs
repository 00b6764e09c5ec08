//! The built-in functions of the language, grouped by the kind of value they serve.
use crate::types::copy::{copy_func, copy_val};
use crate::types::dict::dict_insert;
use crate::types::val::{sval_pair, view_val, CtxAccess, FuncVal, SFunc, SVal, Val, ValMap};
use crate::prelude::apply::Prim;
use vstd::prelude::*;

pub mod abstract1;
pub mod adapt;
pub mod annotate;
pub mod annotation;
pub mod apply;
pub mod bit;
pub mod call;
pub mod change;
pub mod ctrl;
pub mod ctx;
pub mod class;
pub mod comment;
pub mod either;
pub mod flow;
pub mod func;
pub mod inverse;
pub mod reverse;
pub mod task;
pub mod bool;
pub mod bytes;
pub mod number;
pub mod pair;
pub mod str_;
pub mod symbol;
pub mod unit;
pub mod value;
pub mod byte;
pub mod int_;
pub mod list;
pub mod map;
pub mod meta;
pub mod mode;
pub mod setup;
pub mod solve;
pub mod text;

verus! {

/// A group of built-in functions that can bind themselves in a map of names.
pub trait Prelude {
    fn put(&self, ctx: &mut ValMap)
    ;
}

/// The modes of a function, each held in the form the language writes it.
pub struct FuncMode {
    pub call: Val,
    pub solve: Val,
}

/// The model of a primitive function value.
pub open spec fn prim_model(id: Seq<char>, access: CtxAccess, call: SVal, solve: SVal, prim: Option<Prim>) -> SVal {
    SVal::Func(Box::new(SFunc { id, access, call, solve, cell: false, comp: None, prim, data: SVal::Unit }))
}

/// The model of a function value.
pub open spec fn func_sval(f: FuncVal) -> SVal {
    view_val(Val::Func(Box::new(f)))
}

/// The written form of the default mode: symbols are references, calls are evaluated.
pub open spec fn spec_default_mode() -> SVal {
    SVal::Symbol("eval*"@)
}

pub open spec fn spec_unit() -> SVal {
    SVal::Unit
}

pub fn symbol(s: &str) -> (r: Val)
    ensures
        r@ == SVal::Symbol(s@),
{
    Val::Symbol(String::from_str(s))
}

/// A primitive function value with the given name, access and modes.
pub fn prim_func(id: &str, access: CtxAccess, mode: FuncMode, prim: Option<Prim>) -> (f: FuncVal)
    ensures
        func_sval(f) == prim_model(id@, access, mode.call@, mode.solve@, prim),
{
    let data = Val::Unit;
    assert(data@ == SVal::Unit);
    FuncVal { id: String::from_str(id), access, call: mode.call, solve: mode.solve, cell: false, comp: None, prim, data }
}

/// Binds the function under the given name in a map of names.
pub fn put_func_as(ctx: &mut ValMap, name: &str, f: &FuncVal)
    ensures
        final(ctx).view() == dict_insert(old(ctx).view(), SVal::Symbol(name@), func_sval(*f)),
{
    let func = Val::Func(Box::new(copy_func(f)));
    let _ = ctx.insert(Val::Symbol(String::from_str(name)), func);
}

/// Binds the function under its name in a map of names.
pub fn put_func(ctx: &mut ValMap, f: &FuncVal)
    ensures
        final(ctx).view() == dict_insert(old(ctx).view(), SVal::Symbol(f.id@), func_sval(*f)),
{
    let name = Val::Symbol(f.id.clone());
    let func = Val::Func(Box::new(copy_func(f)));
    let _ = ctx.insert(name, func);
}

} // verus!
