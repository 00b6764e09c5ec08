//! The written form of function values: a map of their parts.
use crate::prelude::mode::func::default_prim;
use crate::prelude::mode::{prim_smode, SymbolTaskMode, SMapMode, SMode, SymbolMode, TaskPrimMode};
use crate::prelude::mode::repr::gen_mode;
use crate::prelude::ctx::pattern::value_or_unit;
use crate::types::copy::{copy_vars, copy_val};
use crate::types::dict::{dict_get, dict_index, Entries};
use crate::types::val::{
    sval_pair, view_func, view_val, CompFunc, CtxAccess, CtxVal, FuncVal, PairVal, SComp, SFunc,
    SVal, Val, ValMap,
};
use crate::types::vars::Vars;
use vstd::prelude::*;

verus! {

pub open spec fn key_id() -> SVal {
    SVal::Symbol("id"@)
}

pub open spec fn key_code() -> SVal {
    SVal::Symbol("code"@)
}

pub open spec fn key_ctx() -> SVal {
    SVal::Symbol("context"@)
}

pub open spec fn key_call_setup() -> SVal {
    SVal::Symbol("call_setup"@)
}

pub open spec fn key_solve_setup() -> SVal {
    SVal::Symbol("solve_setup"@)
}

pub open spec fn key_access() -> SVal {
    SVal::Symbol("context_access"@)
}

pub open spec fn key_cell() -> SVal {
    SVal::Symbol("cell"@)
}

pub open spec fn access_word(a: CtxAccess) -> Seq<char> {
    match a {
        CtxAccess::Free => "free"@,
        CtxAccess::Const => "constant"@,
        CtxAccess::Mut => "mutable"@,
    }
}

/// The value under a key, unit when there is none.
pub open spec fn field(es: Entries, k: SVal) -> SVal {
    value_or_unit(dict_get(es, k))
}

pub open spec fn parse_id_spec(v: SVal) -> Option<Seq<char>> {
    match v {
        SVal::Unit => Some(Seq::empty()),
        SVal::Symbol(s) => Some(s),
        _ => None,
    }
}

/// The code of a function: `(input, body)`, `((context, input), body)`, or unit
/// for the code that gives unit.
pub open spec fn parse_code_spec(v: SVal) -> Option<(Option<Seq<char>>, Seq<char>, SVal)> {
    match v {
        SVal::Unit => Some((Some(Seq::empty()), Seq::empty(), SVal::Unit)),
        SVal::Pair(names, body) => match *names {
            SVal::Pair(c, i) => match *c {
                SVal::Symbol(c) => match *i {
                    SVal::Symbol(i) => Some((Some(c), i, *body)),
                    _ => None,
                },
                _ => None,
            },
            SVal::Symbol(i) => Some((None, i, *body)),
            _ => None,
        },
        _ => None,
    }
}

pub open spec fn parse_fctx_spec(v: SVal) -> Option<Vars> {
    match v {
        SVal::Ctx(vars) => Some(vars),
        SVal::Unit => Some(Seq::empty()),
        _ => None,
    }
}

/// A setup is a function, or unit for none.
pub open spec fn parse_setup_spec(v: SVal) -> Option<SVal> {
    match v {
        SVal::Unit => Some(v),
        SVal::Func(_) => Some(v),
        _ => None,
    }
}

pub open spec fn parse_access_spec(v: SVal) -> Option<CtxAccess> {
    match v {
        SVal::Unit => Some(CtxAccess::Mut),
        SVal::Symbol(s) => if s == "free"@ {
            Some(CtxAccess::Free)
        } else if s == "constant"@ {
            Some(CtxAccess::Const)
        } else if s == "mutable"@ {
            Some(CtxAccess::Mut)
        } else {
            None
        },
        _ => None,
    }
}

pub open spec fn parse_cell_spec(v: SVal) -> Option<bool> {
    match v {
        SVal::Unit => Some(false),
        SVal::Bit(b) => Some(b),
        _ => None,
    }
}

/// The function a map writes: keys `id`, `code`, `context`, `call_setup`,
/// `solve_setup`, `context_access` and `cell`, each optional. A function that
/// takes its context must name it in its code.
pub open spec fn parse_func_spec(v: SVal) -> Option<SFunc> {
    match v {
        SVal::Dict(es) => match parse_id_spec(field(es, key_id())) {
            Some(id) => match parse_code_spec(field(es, key_code())) {
                Some((ctx_name, input_name, body)) => match parse_fctx_spec(field(es, key_ctx())) {
                    Some(ctx) => match parse_setup_spec(field(es, key_call_setup())) {
                        Some(call) => match parse_setup_spec(field(es, key_solve_setup())) {
                            Some(solve) => match parse_access_spec(field(es, key_access())) {
                                Some(access) => match parse_cell_spec(field(es, key_cell())) {
                                    Some(cell) => if access == CtxAccess::Free {
                                        Some(SFunc { id, access, call, solve, cell, comp: Some(SComp { ctx_name: None, input_name, body, ctx }), prim: None, data: SVal::Unit })
                                    } else if ctx_name is Some {
                                        Some(SFunc { id, access, call, solve, cell, comp: Some(SComp { ctx_name, input_name, body, ctx }), prim: None, data: SVal::Unit })
                                    } else {
                                        None
                                    },
                                    None => None,
                                },
                                None => None,
                            },
                            None => None,
                        },
                        None => None,
                    },
                    None => None,
                },
                None => None,
            },
            None => None,
        },
        _ => None,
    }
}

/// The written code of a function: `(input, body)` when it takes no context,
/// else `((context, input), body)`.
pub open spec fn code_form(access: CtxAccess, c: SComp) -> SVal {
    if access == CtxAccess::Free {
        sval_pair(SVal::Symbol(c.input_name), c.body)
    } else {
        sval_pair(
            sval_pair(
                SVal::Symbol(match c.ctx_name {
                    Some(n) => n,
                    None => Seq::empty(),
                }),
                SVal::Symbol(c.input_name),
            ),
            c.body,
        )
    }
}

pub open spec fn push_if(s: Entries, b: bool, k: SVal, v: SVal) -> Entries {
    if b {
        s.push((k, v))
    } else {
        s
    }
}

/// The entries written for a function with code: its code, then each part that
/// differs from what an absent key means.
pub open spec fn comp_entries(f: SFunc, c: SComp) -> Entries {
    let e0 = seq![(key_code(), code_form(f.access, c))];
    let e1 = push_if(e0, f.id.len() > 0, key_id(), SVal::Symbol(f.id));
    let e2 = push_if(e1, f.cell, key_cell(), SVal::Bit(true));
    let e3 = push_if(e2, f.access != CtxAccess::Mut, key_access(), SVal::Symbol(access_word(f.access)));
    let e4 = push_if(e3, f.call != SVal::Unit, key_call_setup(), f.call);
    let e5 = push_if(e4, f.solve != SVal::Unit, key_solve_setup(), f.solve);
    push_if(e5, c.ctx.len() > 0, key_ctx(), SVal::Ctx(c.ctx))
}

/// The written form of a function: a built-in one is written by its name alone.
pub open spec fn generate_func_spec(f: SFunc) -> SVal {
    match f.comp {
        None => SVal::Dict(seq![(key_id(), SVal::Symbol(f.id))]),
        Some(c) => SVal::Dict(comp_entries(f, c)),
    }
}

/// The functions that the written form gives back: those with code, whose
/// context name is present exactly when they take a context, and whose setups
/// are functions or unit.
pub open spec fn func_writable(f: SFunc) -> bool {
    &&& f.comp matches Some(c) && (c.ctx_name is None <==> f.access == CtxAccess::Free)
    &&& parse_setup_spec(f.call) is Some
    &&& parse_setup_spec(f.solve) is Some
    &&& f.prim is None
    &&& f.data == SVal::Unit
}

proof fn lemma_keys_distinct()
    ensures
        key_id() != key_code(), key_id() != key_ctx(), key_id() != key_call_setup(),
        key_id() != key_solve_setup(), key_id() != key_access(), key_id() != key_cell(),
        key_code() != key_ctx(), key_code() != key_call_setup(), key_code() != key_solve_setup(),
        key_code() != key_access(), key_code() != key_cell(),
        key_ctx() != key_call_setup(), key_ctx() != key_solve_setup(), key_ctx() != key_access(),
        key_ctx() != key_cell(),
        key_call_setup() != key_solve_setup(), key_call_setup() != key_access(),
        key_call_setup() != key_cell(),
        key_solve_setup() != key_access(), key_solve_setup() != key_cell(),
        key_access() != key_cell(),
{
    reveal_strlit("id");
    reveal_strlit("code");
    reveal_strlit("context");
    reveal_strlit("call_setup");
    reveal_strlit("solve_setup");
    reveal_strlit("context_access");
    reveal_strlit("cell");
    assert("id"@.len() == 2 && "code"@.len() == 4 && "cell"@.len() == 4 && "context"@.len() == 7);
    assert("call_setup"@.len() == 10 && "solve_setup"@.len() == 11 && "context_access"@.len() == 14);
    assert("code"@[1] == 'o' && "cell"@[1] == 'e');
}

proof fn lemma_access_words(a: CtxAccess)
    ensures
        parse_access_spec(SVal::Symbol(access_word(a))) == Some(a),
{
    reveal_strlit("free");
    reveal_strlit("constant");
    reveal_strlit("mutable");
    assert("free"@.len() == 4 && "constant"@.len() == 8 && "mutable"@.len() == 7);
}

proof fn lemma_push_if_get(s: Entries, b: bool, k: SVal, v: SVal, key: SVal)
    ensures
        dict_get(push_if(s, b, k, v), key) == if b && key == k {
            Some(v)
        } else {
            dict_get(s, key)
        },
{
    if b {
        let t = s.push((k, v));
        assert(t.drop_last() =~= s);
        crate::types::dict::lemma_dict_index(s, key);
        if key != k && dict_index(s, key) >= 0 {
            assert(t[dict_index(s, key)] == s[dict_index(s, key)]);
        }
    }
}

proof fn lemma_single_get(k: SVal, x: SVal, key: SVal)
    ensures
        dict_get(seq![(k, x)], key) == if key == k { Some(x) } else { None::<SVal> },
{
    let t = seq![(k, x)];
    assert(t.drop_last() =~= Seq::<(SVal, SVal)>::empty());
    reveal_with_fuel(dict_index, 2);
}

/// A function with code, written down and read back, is the same function.
pub proof fn lemma_func_roundtrip(f: SFunc)
    requires
        func_writable(f),
    ensures
        parse_func_spec(generate_func_spec(f)) == Some(f),
{
    let c = f.comp.unwrap();
    lemma_keys_distinct();
    lemma_access_words(f.access);
    let e0 = seq![(key_code(), code_form(f.access, c))];
    let e1 = push_if(e0, f.id.len() > 0, key_id(), SVal::Symbol(f.id));
    let e2 = push_if(e1, f.cell, key_cell(), SVal::Bit(true));
    let e3 = push_if(e2, f.access != CtxAccess::Mut, key_access(), SVal::Symbol(access_word(f.access)));
    let e4 = push_if(e3, f.call != SVal::Unit, key_call_setup(), f.call);
    let e5 = push_if(e4, f.solve != SVal::Unit, key_solve_setup(), f.solve);
    let e6 = push_if(e5, c.ctx.len() > 0, key_ctx(), SVal::Ctx(c.ctx));
    assert(comp_entries(f, c) == e6);
    let keys = seq![key_id(), key_code(), key_ctx(), key_call_setup(), key_solve_setup(), key_access(), key_cell()];
    assert forall|i: int| 0 <= i < 7 implies #[trigger] dict_get(e6, keys[i]) == (
        if keys[i] == key_code() { Some(code_form(f.access, c)) }
        else if keys[i] == key_id() && f.id.len() > 0 { Some(SVal::Symbol(f.id)) }
        else if keys[i] == key_cell() && f.cell { Some(SVal::Bit(true)) }
        else if keys[i] == key_access() && f.access != CtxAccess::Mut { Some(SVal::Symbol(access_word(f.access))) }
        else if keys[i] == key_call_setup() && f.call != SVal::Unit { Some(f.call) }
        else if keys[i] == key_solve_setup() && f.solve != SVal::Unit { Some(f.solve) }
        else if keys[i] == key_ctx() && c.ctx.len() > 0 { Some(SVal::Ctx(c.ctx)) }
        else { None::<SVal> }) by {
        lemma_single_get(key_code(), code_form(f.access, c), keys[i]);
        lemma_push_if_get(e0, f.id.len() > 0, key_id(), SVal::Symbol(f.id), keys[i]);
        lemma_push_if_get(e1, f.cell, key_cell(), SVal::Bit(true), keys[i]);
        lemma_push_if_get(e2, f.access != CtxAccess::Mut, key_access(), SVal::Symbol(access_word(f.access)), keys[i]);
        lemma_push_if_get(e3, f.call != SVal::Unit, key_call_setup(), f.call, keys[i]);
        lemma_push_if_get(e4, f.solve != SVal::Unit, key_solve_setup(), f.solve, keys[i]);
        lemma_push_if_get(e5, c.ctx.len() > 0, key_ctx(), SVal::Ctx(c.ctx), keys[i]);
    }
    assert(keys[0] == key_id() && keys[1] == key_code() && keys[2] == key_ctx());
    assert(keys[3] == key_call_setup() && keys[4] == key_solve_setup() && keys[5] == key_access());
    assert(keys[6] == key_cell());
    assert(parse_id_spec(field(e6, keys[0])) == Some(f.id)) by {
        if f.id.len() == 0 {
            assert(f.id =~= Seq::<char>::empty());
        }
    }
    assert(field(e6, keys[1]) == code_form(f.access, c));
    assert(field(e6, keys[2]) == if c.ctx.len() > 0 { SVal::Ctx(c.ctx) } else { SVal::Unit });
    assert(parse_fctx_spec(field(e6, keys[2])) == Some(c.ctx)) by {
        if c.ctx.len() == 0 {
            assert(c.ctx =~= Seq::<(Seq<char>, crate::types::val::Contract, SVal)>::empty());
        }
    }
    assert(field(e6, keys[3]) == f.call);
    assert(field(e6, keys[4]) == f.solve);
    assert(parse_access_spec(field(e6, keys[5])) == Some(f.access));
    assert(parse_cell_spec(field(e6, keys[6])) == Some(f.cell));
    if f.access == CtxAccess::Free {
        assert(parse_code_spec(code_form(f.access, c)) == Some((None::<Seq<char>>, c.input_name, c.body)));
    } else {
        assert(parse_code_spec(code_form(f.access, c)) == Some((c.ctx_name, c.input_name, c.body)));
    }
}

fn key(k: &str) -> (r: Val)
    ensures
        r@ == SVal::Symbol(k@),
{
    Val::Symbol(String::from_str(k))
}

fn word_is(w: &String, lit: &str) -> (r: bool)
    ensures
        r == (w@ == lit@),
{
    *w == String::from_str(lit)
}

/// The value under a key, unit when there is none.
fn field_of(m: &ValMap, k: &str) -> (r: Val)
    ensures
        r@ == field(m.view(), SVal::Symbol(k@)),
{
    match m.get(&key(k)) {
        Some(v) => v,
        None => Val::Unit,
    }
}

/// The code of a function: context name, input name and body.
pub fn parse_code(v: Val) -> (r: Option<(Option<String>, String, Val)>)
    ensures
        r matches Some((c, i, b)) ==> parse_code_spec(v@) == Some((
            match c {
                Some(n) => Some(n@),
                None => None,
            },
            i@,
            b@,
        )),
        r is None ==> parse_code_spec(v@) is None,
{
    proof {
        reveal_with_fuel(view_val, 3);
    }
    match v {
        Val::Unit => Some((Some(String::new()), String::new(), Val::Unit)),
        Val::Pair(p) => {
            let p = *p;
            match p.first {
                Val::Pair(names) => {
                    let names = *names;
                    let Val::Symbol(c) = names.first else {
                        return None;
                    };
                    let Val::Symbol(i) = names.second else {
                        return None;
                    };
                    Some((Some(c), i, p.second))
                },
                Val::Symbol(i) => Some((None, i, p.second)),
                _ => None,
            }
        },
        _ => None,
    }
}

fn parse_access(v: &Val) -> (r: Option<CtxAccess>)
    ensures
        r == parse_access_spec(v@),
{
    match v {
        Val::Unit => Some(CtxAccess::Mut),
        Val::Symbol(s) => {
            if word_is(s, "free") {
                Some(CtxAccess::Free)
            } else if word_is(s, "constant") {
                Some(CtxAccess::Const)
            } else if word_is(s, "mutable") {
                Some(CtxAccess::Mut)
            } else {
                None
            }
        },
        _ => None,
    }
}

/// The function a map writes, if it writes one.
pub fn parse_func(v: &Val) -> (r: Option<FuncVal>)
    ensures
        r matches Some(f) ==> parse_func_spec(v@) == Some(view_func(f)),
        r is None ==> parse_func_spec(v@) is None,
{
    let Val::Dict(m) = v else {
        return None;
    };
    let id = match field_of(m, "id") {
        Val::Unit => String::new(),
        Val::Symbol(s) => s,
        _ => {
            return None;
        },
    };
    let Some((ctx_name, input_name, body)) = parse_code(field_of(m, "code")) else {
        return None;
    };
    let ctx = match field_of(m, "context") {
        Val::Ctx(c) => c,
        Val::Unit => CtxVal { vars: Vec::new() },
        _ => {
            return None;
        },
    };
    let call = field_of(m, "call_setup");
    match &call {
        Val::Unit => {},
        Val::Func(_) => {},
        _ => {
            return None;
        },
    }
    let solve = field_of(m, "solve_setup");
    match &solve {
        Val::Unit => {},
        Val::Func(_) => {},
        _ => {
            return None;
        },
    }
    let Some(access) = parse_access(&field_of(m, "context_access")) else {
        return None;
    };
    let cell = match field_of(m, "cell") {
        Val::Unit => false,
        Val::Bit(b) => b,
        _ => {
            return None;
        },
    };
    let ctx_name = if access == CtxAccess::Free {
        None
    } else {
        match ctx_name {
            Some(n) => Some(n),
            None => {
                return None;
            },
        }
    };
    let comp = CompFunc { ctx_name, input_name, body, ctx };
    let data = Val::Unit;
    assert(data@ == SVal::Unit);
    Some(FuncVal { id, access, call, solve, cell, comp: Some(Box::new(comp)), prim: None, data })
}

/// The written code of a function; unit for a built-in one.
pub fn generate_code(f: &FuncVal) -> (r: Val)
    ensures
        r@ == match view_func(*f).comp {
            Some(c) => code_form(f.access, c),
            None => SVal::Unit,
        },
{
    proof {
        reveal_with_fuel(view_val, 3);
    }
    match &f.comp {
        None => Val::Unit,
        Some(c) => {
            let input = Val::Symbol(c.input_name.clone());
            let body = copy_val(&c.body);
            if f.access == CtxAccess::Free {
                Val::Pair(Box::new(PairVal { first: input, second: body }))
            } else {
                let name = match &c.ctx_name {
                    Some(n) => n.clone(),
                    None => String::new(),
                };
                let names = Val::Pair(Box::new(PairVal { first: Val::Symbol(name), second: input }));
                Val::Pair(Box::new(PairVal { first: names, second: body }))
            }
        },
    }
}

/// The word for a context access.
pub fn generate_access(a: CtxAccess) -> (r: Val)
    ensures
        r@ == SVal::Symbol(access_word(a)),
{
    let w = match a {
        CtxAccess::Free => "free",
        CtxAccess::Const => "constant",
        CtxAccess::Mut => "mutable",
    };
    Val::Symbol(String::from_str(w))
}

fn push_entry(es: &mut Vec<PairVal>, k: &str, v: Val)
    ensures
        crate::types::val::view_entries(final(es)@) == crate::types::val::view_entries(old(es)@).push(
            (SVal::Symbol(k@), v@),
        ),
{
    let e = PairVal { first: key(k), second: v };
    proof {
        assert(old(es)@.push(e).drop_last() =~= old(es)@);
    }
    es.push(e);
}

/// The written form of a function.
pub fn generate_func(f: &FuncVal) -> (r: Val)
    ensures
        r@ == generate_func_spec(view_func(*f)),
{
    let mut es: Vec<PairVal> = Vec::new();
    match &f.comp {
        None => {
            push_entry(&mut es, "id", Val::Symbol(f.id.clone()));
            assert(crate::types::val::view_entries(es@) =~= seq![(key_id(), SVal::Symbol(f.id@))]);
            Val::Dict(ValMap { entries: es })
        },
        Some(c) => {
            let ghost sf = view_func(*f);
            let ghost sc = sf.comp.unwrap();
            push_entry(&mut es, "code", generate_code(f));
            assert(crate::types::val::view_entries(es@) =~= seq![(key_code(), code_form(f.access, sc))]);
            if f.id.unicode_len() > 0 {
                push_entry(&mut es, "id", Val::Symbol(f.id.clone()));
            }
            if f.cell {
                push_entry(&mut es, "cell", Val::Bit(true));
            }
            if f.access != CtxAccess::Mut {
                push_entry(&mut es, "context_access", generate_access(f.access));
            }
            if !matches!(f.call, Val::Unit) {
                push_entry(&mut es, "call_setup", copy_val(&f.call));
            }
            if !matches!(f.solve, Val::Unit) {
                push_entry(&mut es, "solve_setup", copy_val(&f.solve));
            }
            if c.ctx.vars.len() > 0 {
                push_entry(&mut es, "context", Val::Ctx(CtxVal { vars: copy_vars(&c.ctx.vars) }));
            }
            proof {
                crate::types::copy::lemma_view_vars(c.ctx.vars@);
            }
            Val::Dict(ValMap { entries: es })
        },
    }
}

/// The mode `function` takes its input with: its code literally, the rest evaluated.
pub open spec fn func_parse_mode() -> SMode {
    SMode::Comp(
        default_prim(),
        None,
        None,
        None,
        Some(
            Box::new(
                SMapMode {
                    some: seq![(key_code(), prim_smode(SymbolTaskMode { symbol: SymbolMode::Ref, task: TaskPrimMode::Form }))],
                    else_: prim_smode(default_prim()),
                },
            ),
        ),
    )
}

} // verus!
