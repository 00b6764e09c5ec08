//! The written form of modes, and how a mode is read back from it.
use crate::prelude::mode::{
    id_prim, lemma_view_mode_entries, lemma_view_modes, prim_smode, view_mode, view_mode_entries,
    view_modes, CompMode, ListMode, MapMode, Mode, ModeEntry, PairMode, SymbolTaskMode, SListMode,
    SMapMode, SMode, SPairMode, STaskMode, SymbolMode, TaskMode, TaskPrimMode,
};
use crate::types::copy::{copy_func, copy_val, lemma_view_entries, lemma_view_list};
use crate::types::dict::{dict_index, Entries};
use crate::types::val::{
    sval_pair, view_entries, view_list, view_val, CallVal, FuncVal, PairVal, SVal, Val, ValMap,
};
use vstd::prelude::*;

verus! {

/// The symbol that writes a primitive mode: the word for calls, then the mark for symbols.
pub open spec fn prim_word(p: SymbolTaskMode) -> Seq<char> {
    match (p.task, p.symbol) {
        (TaskPrimMode::Form, SymbolMode::Id) => "form"@,
        (TaskPrimMode::Form, SymbolMode::Literal) => "form."@,
        (TaskPrimMode::Form, SymbolMode::Ref) => "form*"@,
        (TaskPrimMode::Form, SymbolMode::Eval) => "form$"@,
        (TaskPrimMode::Eval, SymbolMode::Id) => "eval"@,
        (TaskPrimMode::Eval, SymbolMode::Literal) => "eval."@,
        (TaskPrimMode::Eval, SymbolMode::Ref) => "eval*"@,
        (TaskPrimMode::Eval, SymbolMode::Eval) => "eval$"@,
    }
}

pub open spec fn prim_of(task: TaskPrimMode, symbol: SymbolMode) -> Option<SymbolTaskMode> {
    Some(SymbolTaskMode { symbol, task })
}

/// The primitive mode a symbol writes, if it writes one.
pub open spec fn parse_prim(w: Seq<char>) -> Option<SymbolTaskMode> {
    if w == "form"@ {
        prim_of(TaskPrimMode::Form, SymbolMode::Id)
    } else if w == "form."@ {
        prim_of(TaskPrimMode::Form, SymbolMode::Literal)
    } else if w == "form*"@ {
        prim_of(TaskPrimMode::Form, SymbolMode::Ref)
    } else if w == "form$"@ {
        prim_of(TaskPrimMode::Form, SymbolMode::Eval)
    } else if w == "eval"@ {
        prim_of(TaskPrimMode::Eval, SymbolMode::Id)
    } else if w == "eval."@ {
        prim_of(TaskPrimMode::Eval, SymbolMode::Literal)
    } else if w == "eval*"@ {
        prim_of(TaskPrimMode::Eval, SymbolMode::Ref)
    } else if w == "eval$"@ {
        prim_of(TaskPrimMode::Eval, SymbolMode::Eval)
    } else {
        None
    }
}

pub open spec fn key_default() -> SVal {
    SVal::Symbol("default"@)
}

pub open spec fn key_pair() -> SVal {
    SVal::Symbol("pair"@)
}

pub open spec fn key_call() -> SVal {
    SVal::Symbol("call"@)
}

pub open spec fn key_list() -> SVal {
    SVal::Symbol("list"@)
}

pub open spec fn key_map() -> SVal {
    SVal::Symbol("map"@)
}

/// The entries with `k` mapped to `v` added at the end when `v` is present.
pub open spec fn push_some(s: Entries, k: SVal, v: Option<SVal>) -> Entries {
    match v {
        Some(x) => s.push((k, x)),
        None => s,
    }
}

pub open spec fn gen_modes(s: Seq<SMode>) -> Seq<SVal>
    decreases s, 0nat,
{
    if s.len() == 0 {
        Seq::empty()
    } else {
        gen_modes(s.drop_last()).push(gen_mode(s.last()))
    }
}

pub open spec fn gen_entries(s: Seq<(SVal, SMode)>) -> Entries
    decreases s, 0nat,
{
    if s.len() == 0 {
        Seq::empty()
    } else {
        gen_entries(s.drop_last()).push((s.last().0, gen_mode(s.last().1)))
    }
}

/// The written form of a mode. A composite mode with no mode of its own for any
/// kind of value is written as the symbol of its primitive mode; otherwise as a map
/// from `default`, `pair`, `call`, `list` and `map` to the modes it has.
pub open spec fn gen_mode(m: SMode) -> SVal
    decreases m, 1nat,
{
    match m {
        SMode::Func(f) => SVal::Func(Box::new(f)),
        SMode::Comp(p, pa, t, l, mp) => {
            if pa is None && t is None && l is None && mp is None {
                SVal::Symbol(prim_word(p))
            } else {
                let e0 = seq![(key_default(), SVal::Symbol(prim_word(p)))];
                let e1 = push_some(
                    e0,
                    key_pair(),
                    match pa {
                        Some(x) => Some(
                            sval_pair(
                                SVal::Dict(gen_entries(x.some)),
                                sval_pair(gen_mode(x.first), gen_mode(x.second)),
                            ),
                        ),
                        None => None,
                    },
                );
                let e2 = push_some(
                    e1,
                    key_call(),
                    match t {
                        Some(x) => Some(
                            SVal::Call(
                                false,
                                Box::new(gen_mode(x.func)),
                                Box::new(gen_mode(x.ctx)),
                                Box::new(gen_mode(x.input)),
                            ),
                        ),
                        None => None,
                    },
                );
                let e3 = push_some(
                    e2,
                    key_list(),
                    match l {
                        Some(x) => Some(sval_pair(SVal::List(gen_modes(x.head)), gen_mode(x.tail))),
                        None => None,
                    },
                );
                let e4 = push_some(
                    e3,
                    key_map(),
                    match mp {
                        Some(x) => Some(sval_pair(SVal::Dict(gen_entries(x.some)), gen_mode(x.else_))),
                        None => None,
                    },
                );
                SVal::Dict(e4)
            }
        },
    }
}

pub open spec fn parse_modes(s: Seq<SVal>) -> Option<Seq<SMode>>
    decreases s, 0nat,
{
    if s.len() == 0 {
        Some(Seq::empty())
    } else {
        match parse_modes(s.drop_last()) {
            Some(init) => match parse_mode(s.last()) {
                Some(m) => Some(init.push(m)),
                None => None,
            },
            None => None,
        }
    }
}

pub open spec fn parse_mode_entries(s: Entries) -> Option<Seq<(SVal, SMode)>>
    decreases s, 0nat,
{
    if s.len() == 0 {
        Some(Seq::empty())
    } else {
        match parse_mode_entries(s.drop_last()) {
            Some(init) => match parse_mode(s.last().1) {
                Some(m) => Some(init.push((s.last().0, m))),
                None => None,
            },
            None => None,
        }
    }
}

/// A mode for pairs: a primitive mode's symbol, or `(map of modes, (first, second))`.
pub open spec fn parse_pair(v: SVal) -> Option<SPairMode>
    decreases v, 0nat,
{
    match v {
        SVal::Symbol(w) => match parse_prim(w) {
            Some(p) => Some(SPairMode { some: Seq::empty(), first: prim_smode(p), second: prim_smode(p) }),
            None => None,
        },
        SVal::Pair(a, b) => match *a {
            SVal::Dict(es) => match *b {
                SVal::Pair(f, s) => match parse_mode_entries(es) {
                    Some(some) => match parse_mode(*f) {
                        Some(first) => match parse_mode(*s) {
                            Some(second) => Some(SPairMode { some, first, second }),
                            None => None,
                        },
                        None => None,
                    },
                    None => None,
                },
                _ => None,
            },
            _ => None,
        },
        _ => None,
    }
}

/// A mode for calls: a primitive mode's symbol, or a forward call of three modes.
pub open spec fn parse_task(v: SVal) -> Option<STaskMode>
    decreases v, 0nat,
{
    match v {
        SVal::Symbol(w) => match parse_prim(w) {
            Some(p) => Some(STaskMode { func: prim_smode(p), ctx: prim_smode(p), input: prim_smode(p) }),
            None => None,
        },
        SVal::Call(r, f, c, i) => if r {
            None
        } else {
            match parse_mode(*f) {
                Some(func) => match parse_mode(*c) {
                    Some(ctx) => match parse_mode(*i) {
                        Some(input) => Some(STaskMode { func, ctx, input }),
                        None => None,
                    },
                    None => None,
                },
                None => None,
            }
        },
        _ => None,
    }
}

/// A mode for lists: a primitive mode's symbol, or `(list of modes, mode of the rest)`.
pub open spec fn parse_list(v: SVal) -> Option<SListMode>
    decreases v, 0nat,
{
    match v {
        SVal::Symbol(w) => match parse_prim(w) {
            Some(p) => Some(SListMode { head: Seq::empty(), tail: prim_smode(p) }),
            None => None,
        },
        SVal::Pair(a, b) => match *a {
            SVal::List(h) => match parse_modes(h) {
                Some(head) => match parse_mode(*b) {
                    Some(tail) => Some(SListMode { head, tail }),
                    None => None,
                },
                None => None,
            },
            _ => None,
        },
        _ => None,
    }
}

/// A mode for maps: a primitive mode's symbol, or `(map of modes, mode of the rest)`.
pub open spec fn parse_map(v: SVal) -> Option<SMapMode>
    decreases v, 0nat,
{
    match v {
        SVal::Symbol(w) => match parse_prim(w) {
            Some(p) => Some(SMapMode { some: Seq::empty(), else_: prim_smode(p) }),
            None => None,
        },
        SVal::Pair(a, b) => match *a {
            SVal::Dict(es) => match parse_mode_entries(es) {
                Some(some) => match parse_mode(*b) {
                    Some(else_) => Some(SMapMode { some, else_ }),
                    None => None,
                },
                None => None,
            },
            _ => None,
        },
        _ => None,
    }
}

/// The mode written under a key of a composite mode: absent or unit means none.
pub open spec fn parse_pair_field(es: Entries) -> Option<Option<Box<SPairMode>>>
    decreases es, 1nat,
{
    let i = dict_index(es, key_pair());
    if 0 <= i < es.len() && es[i].1 != SVal::Unit {
        match parse_pair(es[i].1) {
            Some(x) => Some(Some(Box::new(x))),
            None => None,
        }
    } else {
        Some(None)
    }
}

pub open spec fn parse_task_field(es: Entries) -> Option<Option<Box<STaskMode>>>
    decreases es, 1nat,
{
    let i = dict_index(es, key_call());
    if 0 <= i < es.len() && es[i].1 != SVal::Unit {
        match parse_task(es[i].1) {
            Some(x) => Some(Some(Box::new(x))),
            None => None,
        }
    } else {
        Some(None)
    }
}

pub open spec fn parse_list_field(es: Entries) -> Option<Option<Box<SListMode>>>
    decreases es, 1nat,
{
    let i = dict_index(es, key_list());
    if 0 <= i < es.len() && es[i].1 != SVal::Unit {
        match parse_list(es[i].1) {
            Some(x) => Some(Some(Box::new(x))),
            None => None,
        }
    } else {
        Some(None)
    }
}

pub open spec fn parse_map_field(es: Entries) -> Option<Option<Box<SMapMode>>>
    decreases es, 1nat,
{
    let i = dict_index(es, key_map());
    if 0 <= i < es.len() && es[i].1 != SVal::Unit {
        match parse_map(es[i].1) {
            Some(x) => Some(Some(Box::new(x))),
            None => None,
        }
    } else {
        Some(None)
    }
}

/// The primitive mode written under `default` in a composite mode.
pub open spec fn parse_default(es: Entries) -> Option<SymbolTaskMode> {
    let i = dict_index(es, key_default());
    if 0 <= i < es.len() {
        match es[i].1 {
            SVal::Symbol(w) => parse_prim(w),
            _ => None,
        }
    } else {
        None
    }
}

/// The mode a value writes: unit is the mode that changes nothing, a symbol a
/// primitive mode, a map a composite mode and a function is its own mode.
pub open spec fn parse_mode(v: SVal) -> Option<SMode>
    decreases v, 2nat,
{
    match v {
        SVal::Unit => Some(prim_smode(id_prim())),
        SVal::Symbol(w) => match parse_prim(w) {
            Some(p) => Some(prim_smode(p)),
            None => None,
        },
        SVal::Func(f) => Some(SMode::Func(*f)),
        SVal::Dict(es) => match parse_default(es) {
            Some(p) => match parse_pair_field(es) {
                Some(pa) => match parse_task_field(es) {
                    Some(t) => match parse_list_field(es) {
                        Some(l) => match parse_map_field(es) {
                            Some(mp) => Some(SMode::Comp(p, pa, t, l, mp)),
                            None => None,
                        },
                        None => None,
                    },
                    None => None,
                },
                None => None,
            },
            None => None,
        },
        _ => None,
    }
}


proof fn lemma_words_distinct()
    ensures
        "form"@ != "form."@, "form"@ != "form*"@, "form"@ != "form$"@, "form"@ != "eval"@,
        "form"@ != "eval."@, "form"@ != "eval*"@, "form"@ != "eval$"@,
        "form."@ != "form*"@, "form."@ != "form$"@, "form."@ != "eval"@, "form."@ != "eval."@,
        "form."@ != "eval*"@, "form."@ != "eval$"@,
        "form*"@ != "form$"@, "form*"@ != "eval"@, "form*"@ != "eval."@, "form*"@ != "eval*"@,
        "form*"@ != "eval$"@,
        "form$"@ != "eval"@, "form$"@ != "eval."@, "form$"@ != "eval*"@, "form$"@ != "eval$"@,
        "eval"@ != "eval."@, "eval"@ != "eval*"@, "eval"@ != "eval$"@,
        "eval."@ != "eval*"@, "eval."@ != "eval$"@,
        "eval*"@ != "eval$"@,
{
    reveal_strlit("form");
    reveal_strlit("form.");
    reveal_strlit("form*");
    reveal_strlit("form$");
    reveal_strlit("eval");
    reveal_strlit("eval.");
    reveal_strlit("eval*");
    reveal_strlit("eval$");
    assert("form"@.len() == 4 && "eval"@.len() == 4);
    assert("form"@[0] == 'f' && "eval"@[0] == 'e');
    assert("form."@[0] == 'f' && "form."@[4] == '.');
    assert("form*"@[0] == 'f' && "form*"@[4] == '*');
    assert("form$"@[0] == 'f' && "form$"@[4] == '$');
    assert("eval."@[0] == 'e' && "eval."@[4] == '.');
    assert("eval*"@[0] == 'e' && "eval*"@[4] == '*');
    assert("eval$"@[0] == 'e' && "eval$"@[4] == '$');
    assert("form."@.len() == 5 && "form*"@.len() == 5 && "form$"@.len() == 5);
    assert("eval."@.len() == 5 && "eval*"@.len() == 5 && "eval$"@.len() == 5);
}

proof fn lemma_keys_distinct()
    ensures
        key_default() != key_pair(), key_default() != key_call(), key_default() != key_list(),
        key_default() != key_map(), key_pair() != key_call(), key_pair() != key_list(),
        key_pair() != key_map(), key_call() != key_list(), key_call() != key_map(),
        key_list() != key_map(),
{
    reveal_strlit("default");
    reveal_strlit("pair");
    reveal_strlit("call");
    reveal_strlit("list");
    reveal_strlit("map");
    assert("default"@.len() == 7 && "map"@.len() == 3);
    assert("pair"@.len() == 4 && "call"@.len() == 4 && "list"@.len() == 4);
    assert("pair"@[0] == 'p' && "call"@[0] == 'c' && "list"@[0] == 'l');
}

/// Each primitive mode is read back from its symbol.
pub proof fn lemma_parse_prim_word(p: SymbolTaskMode)
    ensures
        parse_prim(prim_word(p)) == Some(p),
{
    lemma_words_distinct();
}

pub proof fn lemma_push_some_index(s: Entries, k: SVal, v: Option<SVal>, key: SVal)
    ensures
        dict_index(push_some(s, k, v), key) == if v is Some && key == k {
            s.len() as int
        } else {
            dict_index(s, key)
        },
        push_some(s, k, v).len() == s.len() + if v is Some { 1int } else { 0int },
        forall|i: int| 0 <= i < s.len() ==> #[trigger] push_some(s, k, v)[i] == s[i],
        v matches Some(x) ==> push_some(s, k, v)[s.len() as int] == (k, x),
{
    if let Some(x) = v {
        let t = s.push((k, x));
        assert(t.drop_last() =~= s);
    }
}

pub proof fn lemma_single_index(k: SVal, x: SVal, key: SVal)
    ensures
        dict_index(seq![(k, x)], key) == if key == k { 0int } else { -1int },
{
    let t = seq![(k, x)];
    assert(t.drop_last() =~= Seq::<(SVal, SVal)>::empty());
    reveal_with_fuel(dict_index, 2);
}

pub proof fn lemma_gen_modes(s: Seq<SMode>)
    ensures
        gen_modes(s).len() == s.len(),
        forall|i: int| 0 <= i < s.len() ==> #[trigger] gen_modes(s)[i] == gen_mode(s[i]),
    decreases s.len(),
{
    if s.len() > 0 {
        lemma_gen_modes(s.drop_last());
    }
}

pub proof fn lemma_gen_entries(s: Seq<(SVal, SMode)>)
    ensures
        gen_entries(s).len() == s.len(),
        forall|i: int|
            0 <= i < s.len() ==> #[trigger] gen_entries(s)[i] == (s[i].0, gen_mode(s[i].1)),
    decreases s.len(),
{
    if s.len() > 0 {
        lemma_gen_entries(s.drop_last());
    }
}

proof fn lemma_roundtrip_modes(s: Seq<SMode>)
    ensures
        parse_modes(gen_modes(s)) == Some(s),
    decreases s, 0nat,
{
    if s.len() > 0 {
        lemma_roundtrip_modes(s.drop_last());
        lemma_roundtrip(s.last());
        let g = gen_modes(s);
        assert(g.drop_last() =~= gen_modes(s.drop_last()));
        assert(s.drop_last().push(s.last()) =~= s);
    }
}

proof fn lemma_roundtrip_entries(s: Seq<(SVal, SMode)>)
    ensures
        parse_mode_entries(gen_entries(s)) == Some(s),
    decreases s, 0nat,
{
    if s.len() > 0 {
        lemma_roundtrip_entries(s.drop_last());
        lemma_roundtrip(s.last().1);
        let g = gen_entries(s);
        assert(g.drop_last() =~= gen_entries(s.drop_last()));
        assert(s.drop_last().push((s.last().0, s.last().1)) =~= s);
    }
}

/// A mode is read back from its written form: `parse_mode` undoes `gen_mode`.
pub proof fn lemma_roundtrip(m: SMode)
    ensures
        parse_mode(gen_mode(m)) == Some(m),
    decreases m, 1nat,
{
    match m {
        SMode::Func(..) => {},
        SMode::Comp(p, pa, t, l, mp) => {
            lemma_parse_prim_word(p);
            if pa is None && t is None && l is None && mp is None {
            } else {
                lemma_keys_distinct();
                let fpa = match pa {
                    Some(x) => Some(
                        sval_pair(
                            SVal::Dict(gen_entries(x.some)),
                            sval_pair(gen_mode(x.first), gen_mode(x.second)),
                        ),
                    ),
                    None => None,
                };
                let ft = match t {
                    Some(x) => Some(
                        SVal::Call(
                            false,
                            Box::new(gen_mode(x.func)),
                            Box::new(gen_mode(x.ctx)),
                            Box::new(gen_mode(x.input)),
                        ),
                    ),
                    None => None,
                };
                let fl = match l {
                    Some(x) => Some(sval_pair(SVal::List(gen_modes(x.head)), gen_mode(x.tail))),
                    None => None,
                };
                let fm = match mp {
                    Some(x) => Some(sval_pair(SVal::Dict(gen_entries(x.some)), gen_mode(x.else_))),
                    None => None,
                };
                let e0 = seq![(key_default(), SVal::Symbol(prim_word(p)))];
                let e1 = push_some(e0, key_pair(), fpa);
                let e2 = push_some(e1, key_call(), ft);
                let e3 = push_some(e2, key_list(), fl);
                let e4 = push_some(e3, key_map(), fm);
                assert(gen_mode(m) == SVal::Dict(e4));
                let keys = seq![key_default(), key_pair(), key_call(), key_list(), key_map()];
                assert forall|i: int| 0 <= i < 5 implies #[trigger] dict_index(e4, keys[i]) == (
                    if keys[i] == key_default() { 0int }
                    else if keys[i] == key_pair() && fpa is Some { e0.len() as int }
                    else if keys[i] == key_call() && ft is Some { e1.len() as int }
                    else if keys[i] == key_list() && fl is Some { e2.len() as int }
                    else if keys[i] == key_map() && fm is Some { e3.len() as int }
                    else { -1int }) by {
                    lemma_single_index(key_default(), SVal::Symbol(prim_word(p)), keys[i]);
                    lemma_push_some_index(e0, key_pair(), fpa, keys[i]);
                    lemma_push_some_index(e1, key_call(), ft, keys[i]);
                    lemma_push_some_index(e2, key_list(), fl, keys[i]);
                    lemma_push_some_index(e3, key_map(), fm, keys[i]);
                }
                lemma_push_some_index(e0, key_pair(), fpa, key_default());
                lemma_push_some_index(e1, key_call(), ft, key_default());
                lemma_push_some_index(e2, key_list(), fl, key_default());
                lemma_push_some_index(e3, key_map(), fm, key_default());
                assert(dict_index(e4, keys[0]) == 0);
                assert(e4[0] == e0[0]);
                assert(parse_default(e4) == Some(p));
                if let Some(x) = pa {
                    lemma_roundtrip_entries(x.some);
                    lemma_roundtrip(x.first);
                    lemma_roundtrip(x.second);
                    assert(dict_index(e4, keys[1]) == e0.len());
                    assert(e4[e0.len() as int] == e1[e0.len() as int]);
                    assert(parse_pair(fpa.unwrap()) == Some(*x));
                } else {
                    assert(dict_index(e4, keys[1]) == -1);
                }
                assert(parse_pair_field(e4) == Some(pa));
                if let Some(x) = t {
                    lemma_roundtrip(x.func);
                    lemma_roundtrip(x.ctx);
                    lemma_roundtrip(x.input);
                    assert(dict_index(e4, keys[2]) == e1.len());
                    assert(e4[e1.len() as int] == e2[e1.len() as int]);
                    assert(parse_task(ft.unwrap()) == Some(*x));
                } else {
                    assert(dict_index(e4, keys[2]) == -1);
                }
                assert(parse_task_field(e4) == Some(t));
                if let Some(x) = l {
                    lemma_roundtrip_modes(x.head);
                    lemma_roundtrip(x.tail);
                    assert(dict_index(e4, keys[3]) == e2.len());
                    assert(e4[e2.len() as int] == e3[e2.len() as int]);
                    assert(parse_list(fl.unwrap()) == Some(*x));
                } else {
                    assert(dict_index(e4, keys[3]) == -1);
                }
                assert(parse_list_field(e4) == Some(l));
                if let Some(x) = mp {
                    lemma_roundtrip_entries(x.some);
                    lemma_roundtrip(x.else_);
                    assert(dict_index(e4, keys[4]) == e3.len());
                    assert(parse_map(fm.unwrap()) == Some(*x));
                } else {
                    assert(dict_index(e4, keys[4]) == -1);
                }
                assert(parse_map_field(e4) == Some(mp));
            }
        },
    }
}


/// The written form of a pair mode: `(map of modes, (first, second))`.
pub open spec fn gen_pair(x: SPairMode) -> SVal {
    sval_pair(SVal::Dict(gen_entries(x.some)), sval_pair(gen_mode(x.first), gen_mode(x.second)))
}

/// A pair mode is read back from its written form; a value that is neither a
/// symbol nor a pair writes no pair mode, nor does a pair whose first part is no
/// map or whose second part is no pair.
pub proof fn lemma_pair_roundtrip(x: SPairMode, v: SVal)
    ensures
        parse_pair(gen_pair(x)) == Some(x),
        !(v is Symbol) && !(v is Pair) ==> parse_pair(v) is None,
        v matches SVal::Pair(a, b) && (!(*a is Dict) || !(*b is Pair)) ==> parse_pair(v) is None,
{
    lemma_roundtrip_entries(x.some);
    lemma_roundtrip(x.first);
    lemma_roundtrip(x.second);
}

proof fn lemma_view_entries_push(s: Seq<PairVal>, x: PairVal)
    ensures
        view_entries(s.push(x)) == view_entries(s).push((view_val(x.first), view_val(x.second))),
{
    assert(s.push(x).drop_last() =~= s);
}

/// The symbol of a primitive mode.
pub fn prim_symbol(p: SymbolTaskMode) -> (s: String)
    ensures
        s@ == prim_word(p),
{
    let w = match (p.task, p.symbol) {
        (TaskPrimMode::Form, SymbolMode::Id) => "form",
        (TaskPrimMode::Form, SymbolMode::Literal) => "form.",
        (TaskPrimMode::Form, SymbolMode::Ref) => "form*",
        (TaskPrimMode::Form, SymbolMode::Eval) => "form$",
        (TaskPrimMode::Eval, SymbolMode::Id) => "eval",
        (TaskPrimMode::Eval, SymbolMode::Literal) => "eval.",
        (TaskPrimMode::Eval, SymbolMode::Ref) => "eval*",
        (TaskPrimMode::Eval, SymbolMode::Eval) => "eval$",
    };
    String::from_str(w)
}

fn word_is(w: &String, lit: &str) -> (r: bool)
    ensures
        r == (w@ == lit@),
{
    *w == String::from_str(lit)
}

/// The primitive mode a symbol writes, if it writes one.
pub fn parse_prim_symbol(w: &String) -> (r: Option<SymbolTaskMode>)
    ensures
        r == parse_prim(w@),
{
    if word_is(w, "form") {
        Some(SymbolTaskMode { symbol: SymbolMode::Id, task: TaskPrimMode::Form })
    } else if word_is(w, "form.") {
        Some(SymbolTaskMode { symbol: SymbolMode::Literal, task: TaskPrimMode::Form })
    } else if word_is(w, "form*") {
        Some(SymbolTaskMode { symbol: SymbolMode::Ref, task: TaskPrimMode::Form })
    } else if word_is(w, "form$") {
        Some(SymbolTaskMode { symbol: SymbolMode::Eval, task: TaskPrimMode::Form })
    } else if word_is(w, "eval") {
        Some(SymbolTaskMode { symbol: SymbolMode::Id, task: TaskPrimMode::Eval })
    } else if word_is(w, "eval.") {
        Some(SymbolTaskMode { symbol: SymbolMode::Literal, task: TaskPrimMode::Eval })
    } else if word_is(w, "eval*") {
        Some(SymbolTaskMode { symbol: SymbolMode::Ref, task: TaskPrimMode::Eval })
    } else if word_is(w, "eval$") {
        Some(SymbolTaskMode { symbol: SymbolMode::Eval, task: TaskPrimMode::Eval })
    } else {
        None
    }
}

fn mode_key(k: &str) -> (r: Val)
    ensures
        r@ == SVal::Symbol(k@),
{
    Val::Symbol(String::from_str(k))
}

fn pair_val(first: Val, second: Val) -> (r: Val)
    ensures
        r@ == sval_pair(first@, second@),
{
    Val::Pair(Box::new(PairVal { first, second }))
}

fn generate_list(l: &Vec<Mode>) -> (r: Vec<Val>)
    ensures
        view_list(r@) == gen_modes(view_modes(l@)),
    decreases *l, 0nat,
{
    let mut r: Vec<Val> = Vec::new();
    let mut i: usize = 0;
    proof {
        lemma_view_modes(l@);
        lemma_gen_modes(view_modes(l@));
    }
    while i < l.len()
        invariant
            i <= l.len(),
            r@.len() == i,
            view_modes(l@).len() == l@.len(),
            gen_modes(view_modes(l@)).len() == l@.len(),
            forall|j: int| 0 <= j < i ==> view_val(#[trigger] r@[j]) == gen_modes(view_modes(l@))[j],
            forall|j: int| 0 <= j < l@.len() ==> #[trigger] gen_modes(view_modes(l@))[j] == gen_mode(view_mode(l@[j])),
        decreases l.len() - i,
    {
        proof {
            assert(decreases_to!(*l => l@));
            assert(decreases_to!(l@ => l@[i as int]));
        }
        let x = generate(&l[i]);
        r.push(x);
        i = i + 1;
    }
    proof {
        lemma_view_list(r@);
        assert(view_list(r@) =~= gen_modes(view_modes(l@)));
    }
    r
}

fn generate_entries(l: &Vec<ModeEntry>) -> (r: Vec<PairVal>)
    ensures
        view_entries(r@) == gen_entries(view_mode_entries(l@)),
    decreases *l, 0nat,
{
    let mut r: Vec<PairVal> = Vec::new();
    let mut i: usize = 0;
    proof {
        lemma_view_mode_entries(l@);
        lemma_gen_entries(view_mode_entries(l@));
    }
    while i < l.len()
        invariant
            i <= l.len(),
            r@.len() == i,
            view_mode_entries(l@).len() == l@.len(),
            gen_entries(view_mode_entries(l@)).len() == l@.len(),
            forall|j: int|
                0 <= j < i ==> (view_val(#[trigger] r@[j].first), view_val(r@[j].second))
                    == gen_entries(view_mode_entries(l@))[j],
            forall|j: int|
                0 <= j < l@.len() ==> #[trigger] gen_entries(view_mode_entries(l@))[j] == (
                    view_val(l@[j].key),
                    gen_mode(view_mode(l@[j].mode)),
                ),
        decreases l.len() - i,
    {
        proof {
            assert(decreases_to!(*l => l@));
            assert(decreases_to!(l@ => l@[i as int]));
        }
        let k = copy_val(&l[i].key);
        let x = generate(&l[i].mode);
        r.push(PairVal { first: k, second: x });
        i = i + 1;
    }
    proof {
        lemma_view_entries(r@);
        assert(view_entries(r@) =~= gen_entries(view_mode_entries(l@)));
    }
    r
}

/// The written form of a mode.
pub fn generate(m: &Mode) -> (v: Val)
    ensures
        v@ == gen_mode(m@),
    decreases *m, 1nat,
{
    match m {
        Mode::Func(f) => Val::Func(Box::new(copy_func(f))),
        Mode::Comp(c) => {
            if c.pair.is_none() && c.task.is_none() && c.list.is_none() && c.map.is_none() {
                return Val::Symbol(prim_symbol(c.default));
            }
            let ghost sm = m@;
            let mut es: Vec<PairVal> = Vec::new();
            let d = PairVal { first: mode_key("default"), second: Val::Symbol(prim_symbol(c.default)) };
            proof {
                lemma_view_entries_push(es@, d);
            }
            es.push(d);
            assert(view_entries(es@) =~= seq![(key_default(), SVal::Symbol(prim_word(c.default)))]);
            match &c.pair {
                Some(x) => {
                    let some = generate_entries(&x.some);
                    let first = generate(&x.first);
                    let second = generate(&x.second);
                    let e = PairVal {
                        first: mode_key("pair"),
                        second: pair_val(Val::Dict(ValMap { entries: some }), pair_val(first, second)),
                    };
                    proof {
                        lemma_view_entries_push(es@, e);
                    }
                    es.push(e);
                },
                None => {},
            }
            match &c.task {
                Some(x) => {
                    let func = generate(&x.func);
                    let ctx = generate(&x.ctx);
                    let input = generate(&x.input);
                    let e = PairVal {
                        first: mode_key("call"),
                        second: Val::Call(Box::new(CallVal { reverse: false, func, ctx, input })),
                    };
                    proof {
                        lemma_view_entries_push(es@, e);
                    }
                    es.push(e);
                },
                None => {},
            }
            match &c.list {
                Some(x) => {
                    let head = generate_list(&x.head);
                    let tail = generate(&x.tail);
                    let e = PairVal { first: mode_key("list"), second: pair_val(Val::List(head), tail) };
                    proof {
                        lemma_view_entries_push(es@, e);
                    }
                    es.push(e);
                },
                None => {},
            }
            match &c.map {
                Some(x) => {
                    let some = generate_entries(&x.some);
                    let else_ = generate(&x.else_);
                    let e = PairVal {
                        first: mode_key("map"),
                        second: pair_val(Val::Dict(ValMap { entries: some }), else_),
                    };
                    proof {
                        lemma_view_entries_push(es@, e);
                    }
                    es.push(e);
                },
                None => {},
            }
            Val::Dict(ValMap { entries: es })
        },
    }
}


pub open spec fn pair_view(p: PairMode) -> SPairMode {
    SPairMode { some: view_mode_entries(p.some@), first: view_mode(p.first), second: view_mode(p.second) }
}

pub open spec fn task_view(t: TaskMode) -> STaskMode {
    STaskMode { func: view_mode(t.func), ctx: view_mode(t.ctx), input: view_mode(t.input) }
}

pub open spec fn list_view(l: ListMode) -> SListMode {
    SListMode { head: view_modes(l.head@), tail: view_mode(l.tail) }
}

pub open spec fn map_view(x: MapMode) -> SMapMode {
    SMapMode { some: view_mode_entries(x.some@), else_: view_mode(x.else_) }
}

proof fn lemma_parse_modes_prefix_none(s: Seq<SVal>, k: int)
    requires
        0 <= k <= s.len(),
        parse_modes(s.take(k)) is None,
    ensures
        parse_modes(s) is None,
    decreases s.len(),
{
    if k < s.len() {
        assert(s.drop_last().take(k) =~= s.take(k));
        lemma_parse_modes_prefix_none(s.drop_last(), k);
    } else {
        assert(s.take(k) =~= s);
    }
}

proof fn lemma_parse_entries_prefix_none(s: Entries, k: int)
    requires
        0 <= k <= s.len(),
        parse_mode_entries(s.take(k)) is None,
    ensures
        parse_mode_entries(s) is None,
    decreases s.len(),
{
    if k < s.len() {
        assert(s.drop_last().take(k) =~= s.take(k));
        lemma_parse_entries_prefix_none(s.drop_last(), k);
    } else {
        assert(s.take(k) =~= s);
    }
}

fn parse_list_items(l: &Vec<Val>) -> (r: Option<Vec<Mode>>)
    ensures
        r matches Some(x) ==> parse_modes(view_list(l@)) == Some(view_modes(x@)),
        r is None ==> parse_modes(view_list(l@)) is None,
    decreases *l, 0nat,
{
    let ghost s = view_list(l@);
    proof {
        lemma_view_list(l@);
    }
    let mut out: Vec<Mode> = Vec::new();
    let mut i: usize = 0;
    assert(s.take(0) =~= Seq::<SVal>::empty());
    while i < l.len()
        invariant
            i <= l.len(),
            s == view_list(l@),
            s.len() == l@.len(),
            forall|j: int| 0 <= j < l@.len() ==> #[trigger] s[j] == view_val(l@[j]),
            parse_modes(s.take(i as int)) == Some(view_modes(out@)),
        decreases l.len() - i,
    {
        proof {
            assert(decreases_to!(*l => l@));
            assert(decreases_to!(l@ => l@[i as int]));
            assert(s.take(i + 1).drop_last() =~= s.take(i as int));
            assert(s.take(i + 1).last() == s[i as int]);
        }
        match parse(&l[i]) {
            Some(m) => {
                proof {
                    assert(out@.push(m).drop_last() =~= out@);
                }
                out.push(m);
                i = i + 1;
            },
            None => {
                proof {
                    lemma_parse_modes_prefix_none(s, i + 1);
                }
                return None;
            },
        }
    }
    assert(s.take(l.len() as int) =~= s);
    Some(out)
}

fn parse_entry_items(l: &Vec<PairVal>) -> (r: Option<Vec<ModeEntry>>)
    ensures
        r matches Some(x) ==> parse_mode_entries(view_entries(l@)) == Some(view_mode_entries(x@)),
        r is None ==> parse_mode_entries(view_entries(l@)) is None,
    decreases *l, 0nat,
{
    let ghost s = view_entries(l@);
    proof {
        lemma_view_entries(l@);
    }
    let mut out: Vec<ModeEntry> = Vec::new();
    let mut i: usize = 0;
    assert(s.take(0) =~= Seq::<(SVal, SVal)>::empty());
    while i < l.len()
        invariant
            i <= l.len(),
            s == view_entries(l@),
            s.len() == l@.len(),
            forall|j: int|
                0 <= j < l@.len() ==> #[trigger] s[j] == (view_val(l@[j].first), view_val(l@[j].second)),
            parse_mode_entries(s.take(i as int)) == Some(view_mode_entries(out@)),
        decreases l.len() - i,
    {
        proof {
            assert(decreases_to!(*l => l@));
            assert(decreases_to!(l@ => l@[i as int]));
            assert(s.take(i + 1).drop_last() =~= s.take(i as int));
            assert(s.take(i + 1).last() == s[i as int]);
        }
        match parse(&l[i].second) {
            Some(m) => {
                let k = copy_val(&l[i].first);
                let e = ModeEntry { key: k, mode: m };
                proof {
                    assert(out@.push(e).drop_last() =~= out@);
                }
                out.push(e);
                i = i + 1;
            },
            None => {
                proof {
                    lemma_parse_entries_prefix_none(s, i + 1);
                }
                return None;
            },
        }
    }
    assert(s.take(l.len() as int) =~= s);
    Some(out)
}

fn parse_pair_mode(v: &Val) -> (r: Option<PairMode>)
    ensures
        r matches Some(x) ==> parse_pair(v@) == Some(pair_view(x)),
        r is None ==> parse_pair(v@) is None,
    decreases *v, 0nat,
{
    proof {
        reveal_with_fuel(view_val, 2);
    }
    match v {
        Val::Symbol(w) => match parse_prim_symbol(w) {
            Some(p) => Some(PairMode { some: Vec::new(), first: Mode::from_prim(p), second: Mode::from_prim(p) }),
            None => None,
        },
        Val::Pair(pv) => match &pv.first {
            Val::Dict(m) => match &pv.second {
                Val::Pair(fs) => match parse_entry_items(&m.entries) {
                    Some(some) => match parse(&fs.first) {
                        Some(first) => match parse(&fs.second) {
                            Some(second) => Some(PairMode { some, first, second }),
                            None => None,
                        },
                        None => None,
                    },
                    None => None,
                },
                _ => None,
            },
            _ => None,
        },
        _ => None,
    }
}

fn parse_task_mode(v: &Val) -> (r: Option<TaskMode>)
    ensures
        r matches Some(x) ==> parse_task(v@) == Some(task_view(x)),
        r is None ==> parse_task(v@) is None,
    decreases *v, 0nat,
{
    match v {
        Val::Symbol(w) => match parse_prim_symbol(w) {
            Some(p) => Some(TaskMode { func: Mode::from_prim(p), ctx: Mode::from_prim(p), input: Mode::from_prim(p) }),
            None => None,
        },
        Val::Call(c) => {
            if c.reverse {
                return None;
            }
            match parse(&c.func) {
                Some(func) => match parse(&c.ctx) {
                    Some(ctx) => match parse(&c.input) {
                        Some(input) => Some(TaskMode { func, ctx, input }),
                        None => None,
                    },
                    None => None,
                },
                None => None,
            }
        },
        _ => None,
    }
}

fn parse_list_mode(v: &Val) -> (r: Option<ListMode>)
    ensures
        r matches Some(x) ==> parse_list(v@) == Some(list_view(x)),
        r is None ==> parse_list(v@) is None,
    decreases *v, 0nat,
{
    proof {
        reveal_with_fuel(view_val, 2);
    }
    match v {
        Val::Symbol(w) => match parse_prim_symbol(w) {
            Some(p) => Some(ListMode { head: Vec::new(), tail: Mode::from_prim(p) }),
            None => None,
        },
        Val::Pair(pv) => match &pv.first {
            Val::List(h) => match parse_list_items(h) {
                Some(head) => match parse(&pv.second) {
                    Some(tail) => Some(ListMode { head, tail }),
                    None => None,
                },
                None => None,
            },
            _ => None,
        },
        _ => None,
    }
}

fn parse_map_mode(v: &Val) -> (r: Option<MapMode>)
    ensures
        r matches Some(x) ==> parse_map(v@) == Some(map_view(x)),
        r is None ==> parse_map(v@) is None,
    decreases *v, 0nat,
{
    proof {
        reveal_with_fuel(view_val, 2);
    }
    match v {
        Val::Symbol(w) => match parse_prim_symbol(w) {
            Some(p) => Some(MapMode { some: Vec::new(), else_: Mode::from_prim(p) }),
            None => None,
        },
        Val::Pair(pv) => match &pv.first {
            Val::Dict(m) => match parse_entry_items(&m.entries) {
                Some(some) => match parse(&pv.second) {
                    Some(else_) => Some(MapMode { some, else_ }),
                    None => None,
                },
                None => None,
            },
            _ => None,
        },
        _ => None,
    }
}

/// The mode a value writes, if it writes one.
pub fn parse(v: &Val) -> (r: Option<Mode>)
    ensures
        r matches Some(m) ==> parse_mode(v@) == Some(m@),
        r is None ==> parse_mode(v@) is None,
    decreases *v, 2nat,
{
    match v {
        Val::Unit => Some(Mode::id()),
        Val::Symbol(w) => match parse_prim_symbol(w) {
            Some(p) => Some(Mode::from_prim(p)),
            None => None,
        },
        Val::Func(f) => Some(
            Mode::Func(Box::new(copy_func(f))),
        ),
        Val::Dict(m) => {
            let ghost es = m.view();
            proof {
                lemma_view_entries(m.entries@);
                assert(decreases_to!(*v => m.entries));
                assert(decreases_to!(m.entries => m.entries@));
            }
            let default = match m.find(&mode_key("default")) {
                Some(i) => match &m.entries[i].second {
                    Val::Symbol(w) => match parse_prim_symbol(w) {
                        Some(p) => p,
                        None => {
                            return None;
                        },
                    },
                    _ => {
                        return None;
                    },
                },
                None => {
                    return None;
                },
            };
            assert(parse_default(es) == Some(default));
            let pair = match m.find(&mode_key("pair")) {
                Some(i) => {
                    proof {
                        assert(decreases_to!(m.entries@ => m.entries@[i as int]));
                    }
                    if let Val::Unit = &m.entries[i].second {
                        None
                    } else {
                        match parse_pair_mode(&m.entries[i].second) {
                            Some(x) => Some(Box::new(x)),
                            None => {
                                return None;
                            },
                        }
                    }
                },
                None => None,
            };
            let task = match m.find(&mode_key("call")) {
                Some(i) => {
                    proof {
                        assert(decreases_to!(m.entries@ => m.entries@[i as int]));
                    }
                    if let Val::Unit = &m.entries[i].second {
                        None
                    } else {
                        match parse_task_mode(&m.entries[i].second) {
                            Some(x) => Some(Box::new(x)),
                            None => {
                                return None;
                            },
                        }
                    }
                },
                None => None,
            };
            let list = match m.find(&mode_key("list")) {
                Some(i) => {
                    proof {
                        assert(decreases_to!(m.entries@ => m.entries@[i as int]));
                    }
                    if let Val::Unit = &m.entries[i].second {
                        None
                    } else {
                        match parse_list_mode(&m.entries[i].second) {
                            Some(x) => Some(Box::new(x)),
                            None => {
                                return None;
                            },
                        }
                    }
                },
                None => None,
            };
            let map = match m.find(&mode_key("map")) {
                Some(i) => {
                    proof {
                        assert(decreases_to!(m.entries@ => m.entries@[i as int]));
                    }
                    if let Val::Unit = &m.entries[i].second {
                        None
                    } else {
                        match parse_map_mode(&m.entries[i].second) {
                            Some(x) => Some(Box::new(x)),
                            None => {
                                return None;
                            },
                        }
                    }
                },
                None => None,
            };
            Some(Mode::Comp(CompMode { default, pair, task, list, map }))
        },
        _ => None,
    }
}

impl PairMode {
    /// The written form of a pair mode.
    pub fn generate(&self) -> (v: Val)
        ensures
            v@ == gen_pair(pair_view(*self)),
    {
        let some = generate_entries(&self.some);
        let first = generate(&self.first);
        let second = generate(&self.second);
        pair_val(Val::Dict(ValMap { entries: some }), pair_val(first, second))
    }

    /// The pair mode a value writes, if it writes one (see `parse_pair`).
    pub fn parse(v: &Val) -> (r: Option<PairMode>)
        ensures
            r matches Some(x) ==> parse_pair(v@) == Some(pair_view(x)),
            r is None ==> parse_pair(v@) is None,
    {
        parse_pair_mode(v)
    }
}

} // verus!
