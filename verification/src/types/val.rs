//! Values of the language and their mathematical model.
use crate::prelude::apply::Prim;
use crate::types::bigint::int_value;
use num_bigint::BigInt;
use vstd::prelude::*;

verus! {

/// Who may touch the context when a function runs.
#[derive(Clone, Copy, PartialEq, Eq, Structural)]
pub enum CtxAccess {
    Free,
    Const,
    Mut,
}

/// Two-field records of the language.
#[derive(Clone, Copy, PartialEq, Eq, Structural)]
pub enum NodeKind {
    Change,
    Adapt,
    Annotate,
    Comment,
    Reverse,
}

/// One-field records of the language.
#[derive(Clone, Copy, PartialEq, Eq, Structural)]
pub enum WrapKind {
    Abstract,
    Class,
    Inverse,
}

pub struct PairVal {
    pub first: Val,
    pub second: Val,
}

pub struct CallVal {
    pub reverse: bool,
    pub func: Val,
    pub ctx: Val,
    pub input: Val,
}

/// A primitive function value: its name, its context access and its modes, each
/// mode held in the form the language writes it.
pub struct FuncVal {
    pub id: String,
    pub access: CtxAccess,
    pub call: Val,
    pub solve: Val,
    /// A cell function may change its own context when it runs.
    pub cell: bool,
    /// The code of a function written in the language; none for a built-in one.
    pub comp: Option<Box<CompFunc>>,
    /// The computation of a built-in function.
    pub prim: Option<Prim>,
    /// What a built-in function was made with: the mode a mode function applies; unit otherwise.
    pub data: Val,
}

/// The code of a function written in the language: the names its context and its
/// input are bound to, the body it evaluates, and its own context.
pub struct CompFunc {
    pub ctx_name: Option<String>,
    pub input_name: String,
    pub body: Val,
    pub ctx: CtxVal,
}

/// What may be done to a variable of a context.
#[derive(Clone, Copy, PartialEq, Eq, Structural)]
pub enum Contract {
    Open,
    Still,
    Final,
    Static,
    Const,
}

/// A variable of a context: its name, its contract and its value.
pub struct CtxVar {
    pub name: String,
    pub contract: Contract,
    pub val: Val,
}

/// A context: named variables, each under a contract, in the order they were first put in.
pub struct CtxVal {
    pub vars: Vec<CtxVar>,
}

/// A map of the language: its entries in the order they were first put in.
pub struct ValMap {
    pub entries: Vec<PairVal>,
}

pub enum Val {
    Unit,
    Bit(bool),
    Symbol(String),
    Text(String),
    Int(BigInt),
    Byte(Vec<u8>),
    Pair(Box<PairVal>),
    Either(bool, Box<Val>),
    Node(NodeKind, Box<PairVal>),
    Wrap(WrapKind, Box<Val>),
    Call(Box<CallVal>),
    List(Vec<Val>),
    Dict(ValMap),
    Func(Box<FuncVal>),
    Ctx(CtxVal),
}

/// The mathematical model of a value.
pub enum SVal {
    Unit,
    Bit(bool),
    Symbol(Seq<char>),
    Text(Seq<char>),
    Int(int),
    Byte(Seq<u8>),
    Pair(Box<SVal>, Box<SVal>),
    Either(bool, Box<SVal>),
    Node(NodeKind, Box<SVal>, Box<SVal>),
    Wrap(WrapKind, Box<SVal>),
    Call(bool, Box<SVal>, Box<SVal>, Box<SVal>),
    List(Seq<SVal>),
    Dict(Seq<(SVal, SVal)>),
    Func(Box<SFunc>),
    Ctx(Seq<(Seq<char>, Contract, SVal)>),
}

/// The model of a function value.
pub struct SFunc {
    pub id: Seq<char>,
    pub access: CtxAccess,
    pub call: SVal,
    pub solve: SVal,
    pub cell: bool,
    pub comp: Option<SComp>,
    pub prim: Option<Prim>,
    pub data: SVal,
}

pub struct SComp {
    pub ctx_name: Option<Seq<char>>,
    pub input_name: Seq<char>,
    pub body: SVal,
    pub ctx: Seq<(Seq<char>, Contract, SVal)>,
}

pub open spec fn sval_pair(a: SVal, b: SVal) -> SVal {
    SVal::Pair(Box::new(a), Box::new(b))
}

pub open spec fn view_list(s: Seq<Val>) -> Seq<SVal>
    decreases s, 0nat,
{
    if s.len() == 0 {
        Seq::empty()
    } else {
        view_list(s.drop_last()).push(view_val(s.last()))
    }
}

pub open spec fn view_entries(s: Seq<PairVal>) -> Seq<(SVal, SVal)>
    decreases s, 0nat,
{
    if s.len() == 0 {
        Seq::empty()
    } else {
        view_entries(s.drop_last()).push((view_val(s.last().first), view_val(s.last().second)))
    }
}

pub open spec fn view_vars(s: Seq<CtxVar>) -> Seq<(Seq<char>, Contract, SVal)>
    decreases s, 0nat,
{
    if s.len() == 0 {
        Seq::empty()
    } else {
        view_vars(s.drop_last()).push((s.last().name@, s.last().contract, view_val(s.last().val)))
    }
}

pub open spec fn view_val(v: Val) -> SVal
    decreases v, 1nat,
{
    match v {
        Val::Unit => SVal::Unit,
        Val::Bit(b) => SVal::Bit(b),
        Val::Symbol(s) => SVal::Symbol(s@),
        Val::Text(s) => SVal::Text(s@),
        Val::Int(i) => SVal::Int(int_value(i)),
        Val::Byte(b) => SVal::Byte(b@),
        Val::Pair(p) => sval_pair(view_val(p.first), view_val(p.second)),
        Val::Either(t, x) => SVal::Either(t, Box::new(view_val(*x))),
        Val::Node(k, p) => SVal::Node(k, Box::new(view_val(p.first)), Box::new(view_val(p.second))),
        Val::Wrap(k, x) => SVal::Wrap(k, Box::new(view_val(*x))),
        Val::Call(c) => SVal::Call(
            c.reverse,
            Box::new(view_val(c.func)),
            Box::new(view_val(c.ctx)),
            Box::new(view_val(c.input)),
        ),
        Val::List(l) => SVal::List(view_list(l@)),
        Val::Dict(m) => SVal::Dict(view_entries(m.entries@)),
        Val::Func(f) => SVal::Func(
            Box::new(
                SFunc {
                    id: f.id@,
                    access: f.access,
                    call: view_val(f.call),
                    solve: view_val(f.solve),
                    cell: f.cell,
                    comp: match f.comp {
                        Some(c) => Some(
                            SComp {
                                ctx_name: match c.ctx_name {
                                    Some(n) => Some(n@),
                                    None => None,
                                },
                                input_name: c.input_name@,
                                body: view_val(c.body),
                                ctx: view_vars(c.ctx.vars@),
                            },
                        ),
                        None => None,
                    },
                    prim: f.prim,
                    data: view_val(f.data),
                },
            ),
        ),
        Val::Ctx(c) => SVal::Ctx(view_vars(c.vars@)),
    }
}

/// The model of a function value, as `view_val` gives it.
pub open spec fn view_func(f: FuncVal) -> SFunc {
    SFunc {
        id: f.id@,
        access: f.access,
        call: view_val(f.call),
        solve: view_val(f.solve),
        cell: f.cell,
        comp: match f.comp {
            Some(c) => Some(
                SComp {
                    ctx_name: match c.ctx_name {
                        Some(n) => Some(n@),
                        None => None,
                    },
                    input_name: c.input_name@,
                    body: view_val(c.body),
                    ctx: view_vars(c.ctx.vars@),
                },
            ),
            None => None,
        },
        prim: f.prim,
        data: view_val(f.data),
    }
}

impl View for Val {
    type V = SVal;

    open spec fn view(&self) -> SVal {
        view_val(*self)
    }
}

} // verus!
