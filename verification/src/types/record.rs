//! Reading and replacing the fields of records: calls, two-field and one-field records,
//! and `either` values.
use crate::types::copy::copy_val;
use crate::types::val::{CallVal, NodeKind, PairVal, SVal, Val, WrapKind};
use vstd::prelude::*;

verus! {

/// The fields of a call record: `reverse`, function, context, input.
pub enum CallField {
    Func,
    Ctx,
    Input,
}

pub open spec fn call_get(field: CallField, ctx: SVal) -> SVal {
    match ctx {
        SVal::Call(rev, f, c, i) => match field {
            CallField::Func => *f,
            CallField::Ctx => *c,
            CallField::Input => *i,
        },
        _ => SVal::Unit,
    }
}

pub open spec fn call_set(field: CallField, ctx: SVal, input: SVal) -> (SVal, SVal) {
    match ctx {
        SVal::Call(rev, f, c, i) => match field {
            CallField::Func => (SVal::Call(rev, Box::new(input), c, i), *f),
            CallField::Ctx => (SVal::Call(rev, f, Box::new(input), i), *c),
            CallField::Input => (SVal::Call(rev, f, c, Box::new(input)), *i),
        },
        _ => (ctx, SVal::Unit),
    }
}

pub open spec fn call_flag(ctx: SVal) -> SVal {
    match ctx {
        SVal::Call(rev, f, c, i) => SVal::Bit(rev),
        _ => SVal::Unit,
    }
}

pub fn call_get_field(field: CallField, ctx: &Val) -> (r: Val)
    ensures
        r@ == call_get(field, ctx@),
{
    let Val::Call(call) = ctx else {
        return Val::Unit;
    };
    match field {
        CallField::Func => copy_val(&call.func),
        CallField::Ctx => copy_val(&call.ctx),
        CallField::Input => copy_val(&call.input),
    }
}

pub fn call_set_field(field: CallField, ctx: &mut Val, input: Val) -> (r: Val)
    ensures
        (final(ctx)@, r@) == call_set(field, old(ctx)@, input@),
{
    let Val::Call(call) = ctx else {
        return Val::Unit;
    };
    let mut input = input;
    match field {
        CallField::Func => std::mem::swap(&mut call.func, &mut input),
        CallField::Ctx => std::mem::swap(&mut call.ctx, &mut input),
        CallField::Input => std::mem::swap(&mut call.input, &mut input),
    }
    input
}

pub fn call_get_flag(ctx: &Val) -> (r: Val)
    ensures
        r@ == call_flag(ctx@),
{
    let Val::Call(call) = ctx else {
        return Val::Unit;
    };
    Val::Bit(call.reverse)
}

/// A call record made of a pair of function and input, with a unit context.
pub fn call_from_pair(reverse: bool, input: Val) -> (r: Val)
    ensures
        r@ == (match input@ {
            SVal::Pair(f, i) => SVal::Call(reverse, f, Box::new(SVal::Unit), i),
            _ => SVal::Unit,
        }),
{
    reveal_with_fuel(crate::types::val::view_val, 2);
    let Val::Pair(pair) = input else {
        return Val::Unit;
    };
    let pair = *pair;
    Val::Call(Box::new(CallVal { reverse, func: pair.first, ctx: Val::Unit, input: pair.second }))
}

pub open spec fn node_new(kind: NodeKind, input: SVal) -> SVal {
    match input {
        SVal::Pair(a, b) => SVal::Node(kind, a, b),
        _ => SVal::Unit,
    }
}

pub open spec fn node_get(kind: NodeKind, first: bool, ctx: SVal) -> SVal {
    match ctx {
        SVal::Node(k, a, b) => if k == kind {
            if first {
                *a
            } else {
                *b
            }
        } else {
            SVal::Unit
        },
        _ => SVal::Unit,
    }
}

pub open spec fn node_set(kind: NodeKind, first: bool, ctx: SVal, input: SVal) -> (SVal, SVal) {
    match ctx {
        SVal::Node(k, a, b) => if k == kind {
            if first {
                (SVal::Node(k, Box::new(input), b), *a)
            } else {
                (SVal::Node(k, a, Box::new(input)), *b)
            }
        } else {
            (ctx, SVal::Unit)
        },
        _ => (ctx, SVal::Unit),
    }
}

/// A two-field record made of a pair.
pub fn node_from_pair(kind: NodeKind, input: Val) -> (r: Val)
    ensures
        r@ == node_new(kind, input@),
{
    let Val::Pair(pair) = input else {
        return Val::Unit;
    };
    Val::Node(kind, pair)
}

pub fn node_get_field(kind: NodeKind, first: bool, ctx: &Val) -> (r: Val)
    ensures
        r@ == node_get(kind, first, ctx@),
{
    let Val::Node(k, p) = ctx else {
        return Val::Unit;
    };
    if *k != kind {
        return Val::Unit;
    }
    if first {
        copy_val(&p.first)
    } else {
        copy_val(&p.second)
    }
}

pub fn node_set_field(kind: NodeKind, first: bool, ctx: &mut Val, input: Val) -> (r: Val)
    ensures
        (final(ctx)@, r@) == node_set(kind, first, old(ctx)@, input@),
{
    let Val::Node(k, p) = ctx else {
        return Val::Unit;
    };
    if *k != kind {
        return Val::Unit;
    }
    let mut input = input;
    if first {
        std::mem::swap(&mut p.first, &mut input);
    } else {
        std::mem::swap(&mut p.second, &mut input);
    }
    input
}

pub open spec fn wrap_get(kind: WrapKind, ctx: SVal) -> SVal {
    match ctx {
        SVal::Wrap(k, a) => if k == kind {
            *a
        } else {
            SVal::Unit
        },
        _ => SVal::Unit,
    }
}

pub open spec fn wrap_set(kind: WrapKind, ctx: SVal, input: SVal) -> (SVal, SVal) {
    match ctx {
        SVal::Wrap(k, a) => if k == kind {
            (SVal::Wrap(k, Box::new(input)), *a)
        } else {
            (ctx, SVal::Unit)
        },
        _ => (ctx, SVal::Unit),
    }
}

pub fn wrap_get_field(kind: WrapKind, ctx: &Val) -> (r: Val)
    ensures
        r@ == wrap_get(kind, ctx@),
{
    let Val::Wrap(k, x) = ctx else {
        return Val::Unit;
    };
    if *k != kind {
        return Val::Unit;
    }
    copy_val(x)
}

pub fn wrap_set_field(kind: WrapKind, ctx: &mut Val, input: Val) -> (r: Val)
    ensures
        (final(ctx)@, r@) == wrap_set(kind, old(ctx)@, input@),
{
    let Val::Wrap(k, x) = ctx else {
        return Val::Unit;
    };
    if *k != kind {
        return Val::Unit;
    }
    let mut input = input;
    std::mem::swap(&mut **x, &mut input);
    input
}

} // verus!
