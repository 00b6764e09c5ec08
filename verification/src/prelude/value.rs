//! Functions on any value: its type, and equality of values or variables.
use crate::prelude::ctx::pattern::{is_literal_symbol, pattern_name, rest_of, value_or_unit};
use crate::prelude::mode::func::default_prim;
use crate::prelude::mode::repr::gen_mode;
use crate::prelude::mode::{ModeEntry, SMode, SPairMode};
use crate::prelude::setup::{default_dyn_mode, dyn_mode, ref_mode, ref_sfunc};
use crate::prelude::{func_sval, prim_func, prim_model, put_func, spec_default_mode, FuncMode, Prelude};
use crate::types::copy::val_eq;
use crate::types::dict::dict_insert;
use crate::types::val::{CtxAccess, CtxVal, FuncVal, NodeKind, SVal, Val, ValMap, WrapKind};
use crate::types::vars::var_get;
use crate::prelude::apply::Prim;
use vstd::prelude::*;

verus! {

pub struct ValuePrelude {
    pub type_: FuncVal,
    pub equal: FuncVal,
}

/// The mode `==` takes its input with: each side as a reference.
pub open spec fn equal_mode() -> SMode {
    SMode::Comp(
        default_prim(),
        Some(Box::new(SPairMode { some: Seq::empty(), first: SMode::Func(ref_sfunc()), second: SMode::Func(ref_sfunc()) })),
        None,
        None,
        None,
    )
}

impl Default for ValuePrelude {
    fn default() -> (r: Self)
        ensures
            func_sval(r.type_) == prim_model("type"@, CtxAccess::Const, spec_default_mode(), spec_default_mode(), Some(Prim::Value(crate::prelude::value::ValueFn::Type))),
            func_sval(r.equal) == prim_model("=="@, CtxAccess::Const, gen_mode(equal_mode()), spec_default_mode(), Some(Prim::Value(crate::prelude::value::ValueFn::Equal))),
    {
        ValuePrelude { type_: self::type_(), equal: self::equal() }
    }
}

impl Prelude for ValuePrelude {
    fn put(&self, ctx: &mut ValMap)
        ensures
            final(ctx).view() == dict_insert(
                dict_insert(old(ctx).view(), SVal::Symbol(self.type_.id@), func_sval(self.type_)),
                SVal::Symbol(self.equal.id@),
                func_sval(self.equal),
            ),
    {
        put_func(ctx, &self.type_);
        put_func(ctx, &self.equal);
    }
}

/// `type`: the name of the kind of the value in the context.
pub fn type_() -> (f: FuncVal)
    ensures
        func_sval(f) == prim_model("type"@, CtxAccess::Const, spec_default_mode(), spec_default_mode(), Some(Prim::Value(crate::prelude::value::ValueFn::Type))),
{
    prim_func("type", CtxAccess::Const, default_dyn_mode(), Some(Prim::Value(crate::prelude::value::ValueFn::Type)))
}

/// `==`: whether two values, or the values of two variables, are equal.
pub fn equal() -> (f: FuncVal)
    ensures
        func_sval(f) == prim_model("=="@, CtxAccess::Const, gen_mode(equal_mode()), spec_default_mode(), Some(Prim::Value(crate::prelude::value::ValueFn::Equal))),
{
    let call = FuncMode::pair_mode(Vec::new(), ref_mode(), ref_mode());
    proof {
        assert(crate::prelude::mode::view_mode_entries(Seq::<ModeEntry>::empty()) =~= Seq::empty());
    }
    let m = FuncMode::from_modes(&call, &FuncMode::default_mode());
    prim_func("==", CtxAccess::Const, dyn_mode(m.call), Some(Prim::Value(crate::prelude::value::ValueFn::Equal)))
}

/// The name of the kind of a value.
pub open spec fn kind_name(v: SVal) -> Seq<char> {
    match v {
        SVal::Unit => "unit"@,
        SVal::Bit(_) => "bit"@,
        SVal::Symbol(_) => "symbol"@,
        SVal::Text(_) => "text"@,
        SVal::Int(_) => "integer"@,
        SVal::Byte(_) => "byte"@,
        SVal::Pair(..) => "pair"@,
        SVal::Either(..) => "either"@,
        SVal::Node(k, ..) => match k {
            NodeKind::Change => "change"@,
            NodeKind::Adapt => "adapt"@,
            NodeKind::Annotate => "annotate"@,
            NodeKind::Comment => "comment"@,
            NodeKind::Reverse => "reverse"@,
        },
        SVal::Wrap(k, _) => match k {
            WrapKind::Abstract => "abstract"@,
            WrapKind::Class => "class"@,
            WrapKind::Inverse => "inverse"@,
        },
        SVal::Call(..) => "call"@,
        SVal::List(_) => "list"@,
        SVal::Dict(_) => "map"@,
        SVal::Func(_) => "function"@,
        SVal::Ctx(_) => "context"@,
    }
}

pub fn fn_type(ctx: &Val, _input: Val) -> (r: Val)
    ensures
        r@ == SVal::Symbol(kind_name(ctx@)),
{
    let s = match ctx {
        Val::Unit => "unit",
        Val::Bit(_) => "bit",
        Val::Symbol(_) => "symbol",
        Val::Text(_) => "text",
        Val::Int(_) => "integer",
        Val::Byte(_) => "byte",
        Val::Pair(_) => "pair",
        Val::Either(..) => "either",
        Val::Node(k, _) => match k {
            NodeKind::Change => "change",
            NodeKind::Adapt => "adapt",
            NodeKind::Annotate => "annotate",
            NodeKind::Comment => "comment",
            NodeKind::Reverse => "reverse",
        },
        Val::Wrap(k, _) => match k {
            WrapKind::Abstract => "abstract",
            WrapKind::Class => "class",
            WrapKind::Inverse => "inverse",
        },
        Val::Call(_) => "call",
        Val::List(_) => "list",
        Val::Dict(_) => "map",
        Val::Func(_) => "function",
        Val::Ctx(_) => "context",
    };
    Val::Symbol(String::from_str(s))
}

/// One side of `==`: a symbol names a variable (`*word` stands for the symbol
/// `word` itself), any other value stands for itself. Gives the value, or none for
/// a variable that does not exist.
pub open spec fn side_value(vars: crate::types::vars::Vars, v: SVal) -> Option<SVal> {
    match v {
        SVal::Symbol(s) => if is_literal_symbol(s) {
            Some(SVal::Symbol(rest_of(s)))
        } else {
            var_get(vars, pattern_name(s))
        },
        _ => Some(v),
    }
}

/// `==` on a pair: a bit, or unit when the context is no context, the input no
/// pair, or a side names a variable that does not exist.
pub open spec fn equal_spec(ctx: SVal, input: SVal) -> SVal {
    match ctx {
        SVal::Ctx(vars) => match input {
            SVal::Pair(a, b) => match side_value(vars, *a) {
                Some(x) => match side_value(vars, *b) {
                    Some(y) => SVal::Bit(x == y),
                    None => SVal::Unit,
                },
                None => SVal::Unit,
            },
            _ => SVal::Unit,
        },
        _ => SVal::Unit,
    }
}

fn first_char_is(s: &String, c: char) -> (r: bool)
    ensures
        r == (s@.len() > 0 && s@[0] == c),
{
    let n = s.unicode_len();
    n > 0 && s.get_char(0) == c
}

fn rest(s: &String) -> (r: String)
    requires
        s@.len() > 0,
    ensures
        r@ == rest_of(s@),
{
    let n = s.unicode_len();
    String::from_str(s.as_str().substring_char(1, n))
}

fn side(c: &CtxVal, v: Val) -> (r: Option<Val>)
    ensures
        match side_value(c.view(), v@) {
            Some(x) => r matches Some(y) && y@ == x,
            None => r is None,
        },
{
    match v {
        Val::Symbol(s) => {
            if first_char_is(&s, '*') {
                Some(Val::Symbol(rest(&s)))
            } else {
                let name = if first_char_is(&s, '#') {
                    rest(&s)
                } else {
                    s
                };
                c.get(&name)
            }
        },
        _ => Some(v),
    }
}

pub fn fn_equal(ctx: &Val, input: Val) -> (r: Val)
    ensures
        r@ == equal_spec(ctx@, input@),
{
    let Val::Ctx(c) = ctx else {
        return Val::Unit;
    };
    let Val::Pair(p) = input else {
        return Val::Unit;
    };
    let p = *p;
    let Some(x) = side(c, p.first) else {
        return Val::Unit;
    };
    let Some(y) = side(c, p.second) else {
        return Val::Unit;
    };
    Val::Bit(val_eq(&x, &y))
}


/// The built-in functions of this module, by what they compute.
#[derive(Clone, Copy, PartialEq, Eq, Structural)]
pub enum ValueFn {
    Type,
    Equal,
}

/// What calling one of these functions does: the context after the call, and the result.
pub open spec fn run_spec(f: ValueFn, ctx: SVal, input: SVal) -> (SVal, SVal) {
    match f {
        ValueFn::Type => (ctx, SVal::Symbol(kind_name(ctx))),
        ValueFn::Equal => (ctx, equal_spec(ctx, input)),
    }
}

/// Calls one of these functions on a context it may change.
pub fn run(f: ValueFn, ctx: &mut Val, input: Val) -> (r: Val)
    ensures
        (final(ctx)@, r@) == run_spec(f, old(ctx)@, input@),
{
    match f {
        ValueFn::Type => fn_type(&*ctx, input),
        ValueFn::Equal => fn_equal(&*ctx, input),
    }
}

} // verus!
