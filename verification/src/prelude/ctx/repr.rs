//! The written form of contexts: a map from each name to `(contract, value)`.
use crate::prelude::mode::func::default_prim;
use crate::prelude::mode::repr::gen_mode;
use crate::prelude::mode::{prim_smode, ModeEntry, SymbolTaskMode, SMapMode, SMode, SPairMode, SymbolMode, TaskPrimMode};
use crate::prelude::FuncMode;
use crate::types::copy::{copy_val, lemma_view_entries, lemma_view_vars};
use crate::types::dict::Entries;
use crate::types::val::{
    sval_pair, view_entries, view_val, view_vars, Contract, CtxVal, CtxVar, PairVal, SVal, Val,
    ValMap,
};
use crate::types::vars::Vars;
use vstd::prelude::*;

verus! {

pub open spec fn contract_word(c: Contract) -> Seq<char> {
    match c {
        Contract::Open => "none"@,
        Contract::Still => "still"@,
        Contract::Final => "final"@,
        Contract::Static => "static"@,
        Contract::Const => "constant"@,
    }
}

/// The contract a value writes: unit or `none`, `still`, `final`, `static`, `constant`.
pub open spec fn parse_contract_spec(v: SVal) -> Option<Contract> {
    match v {
        SVal::Unit => Some(Contract::Open),
        SVal::Symbol(w) => if w == "none"@ {
            Some(Contract::Open)
        } else if w == "still"@ {
            Some(Contract::Still)
        } else if w == "final"@ {
            Some(Contract::Final)
        } else if w == "static"@ {
            Some(Contract::Static)
        } else if w == "constant"@ {
            Some(Contract::Const)
        } else {
            None
        },
        _ => None,
    }
}

/// The variables a map writes: each key a name, each value `(contract, value)`.
pub open spec fn parse_vars(es: Entries) -> Option<Vars>
    decreases es.len(),
{
    if es.len() == 0 {
        Some(Seq::empty())
    } else {
        match parse_vars(es.drop_last()) {
            Some(init) => match es.last().0 {
                SVal::Symbol(name) => match es.last().1 {
                    SVal::Pair(c, v) => match parse_contract_spec(*c) {
                        Some(contract) => Some(init.push((name, contract, *v))),
                        None => None,
                    },
                    _ => None,
                },
                _ => None,
            },
            None => None,
        }
    }
}

pub open spec fn parse_ctx_spec(v: SVal) -> Option<Vars> {
    match v {
        SVal::Dict(es) => parse_vars(es),
        _ => None,
    }
}

pub open spec fn gen_vars(s: Vars) -> Entries
    decreases s.len(),
{
    if s.len() == 0 {
        Seq::empty()
    } else {
        gen_vars(s.drop_last()).push(
            (SVal::Symbol(s.last().0), sval_pair(SVal::Symbol(contract_word(s.last().1)), s.last().2)),
        )
    }
}

/// The mode `context` takes its input with: names literally, values evaluated.
pub open spec fn ctx_parse_mode() -> SMode {
    SMode::Comp(
        default_prim(),
        None,
        None,
        None,
        Some(
            Box::new(
                SMapMode {
                    some: Seq::empty(),
                    else_: SMode::Comp(
                        default_prim(),
                        Some(
                            Box::new(
                                SPairMode {
                                    some: Seq::empty(),
                                    first: prim_smode(SymbolTaskMode { symbol: SymbolMode::Literal, task: TaskPrimMode::Form }),
                                    second: prim_smode(default_prim()),
                                },
                            ),
                        ),
                        None,
                        None,
                        None,
                    ),
                },
            ),
        ),
    )
}

proof fn lemma_contract_words()
    ensures
        forall|c: Contract| parse_contract_spec(SVal::Symbol(#[trigger] contract_word(c))) == Some(c),
{
    reveal_strlit("none");
    reveal_strlit("still");
    reveal_strlit("final");
    reveal_strlit("static");
    reveal_strlit("constant");
    assert("none"@.len() == 4 && "still"@.len() == 5 && "final"@.len() == 5);
    assert("static"@.len() == 6 && "constant"@.len() == 8);
    assert("still"@[0] == 's' && "final"@[0] == 'f');
}

/// Writing variables down and reading them back gives the same variables.
pub proof fn lemma_ctx_roundtrip(s: Vars)
    ensures
        parse_ctx_spec(SVal::Dict(gen_vars(s))) == Some(s),
    decreases s.len(),
{
    lemma_contract_words();
    if s.len() > 0 {
        lemma_ctx_roundtrip(s.drop_last());
        let g = gen_vars(s);
        assert(g.drop_last() =~= gen_vars(s.drop_last()));
        assert(parse_contract_spec(SVal::Symbol(contract_word(s.last().1))) == Some(s.last().1));
        assert(s.drop_last().push((s.last().0, s.last().1, s.last().2)) =~= s);
    }
}

fn word_is(w: &String, lit: &str) -> (r: bool)
    ensures
        r == (w@ == lit@),
{
    *w == String::from_str(lit)
}

/// The contract a value writes.
pub fn parse_contract(v: &Val) -> (r: Option<Contract>)
    ensures
        r == parse_contract_spec(v@),
{
    match v {
        Val::Unit => Some(Contract::Open),
        Val::Symbol(w) => {
            if word_is(w, "none") {
                Some(Contract::Open)
            } else if word_is(w, "still") {
                Some(Contract::Still)
            } else if word_is(w, "final") {
                Some(Contract::Final)
            } else if word_is(w, "static") {
                Some(Contract::Static)
            } else if word_is(w, "constant") {
                Some(Contract::Const)
            } else {
                None
            }
        },
        _ => None,
    }
}

/// The symbol of a contract.
pub fn generate_contract(c: Contract) -> (r: Val)
    ensures
        r@ == SVal::Symbol(contract_word(c)),
{
    let w = match c {
        Contract::Open => "none",
        Contract::Still => "still",
        Contract::Final => "final",
        Contract::Static => "static",
        Contract::Const => "constant",
    };
    Val::Symbol(String::from_str(w))
}

/// The context a value writes, if it writes one.
pub fn parse_ctx(v: &Val) -> (r: Option<CtxVal>)
    ensures
        r matches Some(c) ==> parse_ctx_spec(v@) == Some(c.view()),
        r is None ==> parse_ctx_spec(v@) is None,
{
    let Val::Dict(m) = v else {
        return None;
    };
    let ghost es = m.view();
    proof {
        lemma_view_entries(m.entries@);
    }
    assert(parse_ctx_spec(v@) == parse_vars(es));
    let mut out: Vec<CtxVar> = Vec::new();
    let mut i: usize = 0;
    assert(es.take(0) =~= Seq::<(SVal, SVal)>::empty());
    while i < m.entries.len()
        invariant
            i <= m.entries@.len(),
            es == m.view(),
            es.len() == m.entries@.len(),
            forall|j: int|
                0 <= j < m.entries@.len() ==> #[trigger] es[j] == (
                    view_val(m.entries@[j].first),
                    view_val(m.entries@[j].second),
                ),
            parse_vars(es.take(i as int)) == Some(view_vars(out@)),
            parse_ctx_spec(v@) == parse_vars(es),
        decreases m.entries.len() - i,
    {
        proof {
            assert(es.take(i + 1).drop_last() =~= es.take(i as int));
            assert(es.take(i + 1).last() == es[i as int]);
            lemma_view_vars(out@);
        }
        let e = &m.entries[i];
        let Val::Symbol(name) = &e.first else {
            proof {
                lemma_parse_vars_prefix_none(es, i + 1);
            }
            return None;
        };
        let Val::Pair(p) = &e.second else {
            proof {
                lemma_parse_vars_prefix_none(es, i + 1);
            }
            return None;
        };
        let Some(contract) = parse_contract(&p.first) else {
            proof {
                lemma_parse_vars_prefix_none(es, i + 1);
            }
            return None;
        };
        let x = CtxVar { name: name.clone(), contract, val: copy_val(&p.second) };
        proof {
            assert(out@.push(x).drop_last() =~= out@);
        }
        out.push(x);
        i = i + 1;
    }
    assert(es.take(m.entries.len() as int) =~= es);
    Some(CtxVal { vars: out })
}

proof fn lemma_parse_vars_prefix_none(s: Entries, k: int)
    requires
        0 <= k <= s.len(),
        parse_vars(s.take(k)) is None,
    ensures
        parse_vars(s) is None,
    decreases s.len(),
{
    if k < s.len() {
        assert(s.drop_last().take(k) =~= s.take(k));
        lemma_parse_vars_prefix_none(s.drop_last(), k);
    } else {
        assert(s.take(k) =~= s);
    }
}

proof fn lemma_gen_vars(s: Vars)
    ensures
        gen_vars(s).len() == s.len(),
        forall|i: int|
            0 <= i < s.len() ==> #[trigger] gen_vars(s)[i] == (
                SVal::Symbol(s[i].0),
                sval_pair(SVal::Symbol(contract_word(s[i].1)), s[i].2),
            ),
    decreases s.len(),
{
    if s.len() > 0 {
        lemma_gen_vars(s.drop_last());
    }
}

/// The written form of a context.
pub fn generate_ctx(c: &CtxVal) -> (r: Val)
    ensures
        r@ == SVal::Dict(gen_vars(c.view())),
{
    proof {
        lemma_view_vars(c.vars@);
        lemma_gen_vars(c.view());
    }
    let mut out: Vec<PairVal> = Vec::new();
    let mut i: usize = 0;
    while i < c.vars.len()
        invariant
            i <= c.vars@.len(),
            out@.len() == i,
            c.view().len() == c.vars@.len(),
            gen_vars(c.view()).len() == c.vars@.len(),
            forall|j: int|
                0 <= j < c.vars@.len() ==> #[trigger] c.view()[j] == (
                    c.vars@[j].name@,
                    c.vars@[j].contract,
                    view_val(c.vars@[j].val),
                ),
            forall|j: int|
                0 <= j < c.vars@.len() ==> #[trigger] gen_vars(c.view())[j] == (
                    SVal::Symbol(c.view()[j].0),
                    sval_pair(SVal::Symbol(contract_word(c.view()[j].1)), c.view()[j].2),
                ),
            forall|j: int|
                0 <= j < i ==> (view_val(#[trigger] out@[j].first), view_val(out@[j].second))
                    == gen_vars(c.view())[j],
        decreases c.vars.len() - i,
    {
        let v = &c.vars[i];
        let pair = Val::Pair(Box::new(PairVal { first: generate_contract(v.contract), second: copy_val(&v.val) }));
        out.push(PairVal { first: Val::Symbol(v.name.clone()), second: pair });
        i = i + 1;
    }
    proof {
        lemma_view_entries(out@);
        assert(view_entries(out@) =~= gen_vars(c.view()));
    }
    Val::Dict(ValMap { entries: out })
}

/// The mode `context` takes its input with.
pub fn parse_mode() -> (m: FuncMode)
    ensures
        m.call@ == gen_mode(ctx_parse_mode()),
        m.solve@ == gen_mode(prim_smode(default_prim())),
{
    let literal = FuncMode::prim_mode(SymbolMode::Literal, TaskPrimMode::Form);
    let pair = FuncMode::pair_mode(Vec::new(), literal, FuncMode::default_mode());
    let call = FuncMode::map_mode(Vec::new(), pair);
    proof {
        assert(crate::prelude::mode::view_mode_entries(Seq::<ModeEntry>::empty()) =~= Seq::empty());
    }
    FuncMode::from_modes(&call, &FuncMode::default_mode())
}

} // verus!
