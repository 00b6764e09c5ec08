//! Primitive modes with each part optional, and their written form.
//!
//! A primitive mode says what to do with symbols, with calls, and whether pairs,
//! lists and maps are prepared part by part; each of these may be left out. With
//! every part given it is written as one word (see `repr::prim_word`), with none
//! as unit, and otherwise as a map from the kinds it covers to their modes,
//! marked `primitive`.
use crate::prelude::mode::repr::{
    lemma_parse_prim_word, lemma_push_some_index, parse_prim, parse_prim_symbol, prim_symbol,
    prim_word, push_some,
};
use crate::prelude::mode::{SymbolMode, SymbolTaskMode, TaskPrimMode};
use crate::types::dict::{dict_get, dict_index, Entries};
use crate::types::val::{view_entries, PairVal, SVal, Val, ValMap};
use vstd::prelude::*;

verus! {

/// Pairs, lists or maps are prepared part by part.
#[derive(Clone, Copy, PartialEq, Eq, Structural)]
pub struct DataMode;

/// Calls keep their form, or are evaluated.
#[derive(Clone, Copy, PartialEq, Eq, Structural)]
pub enum CodeMode {
    Form,
    Eval,
}

/// A primitive mode: for symbols, pairs, calls, lists and maps, what to do, or
/// nothing (the value is left as it is).
#[derive(Clone, Copy, PartialEq, Eq, Structural)]
pub struct PrimMode {
    pub symbol: Option<SymbolMode>,
    pub pair: Option<DataMode>,
    pub task: Option<CodeMode>,
    pub list: Option<DataMode>,
    pub map: Option<DataMode>,
}

pub open spec fn symbol_word(s: SymbolMode) -> Seq<char> {
    match s {
        SymbolMode::Id => "id"@,
        SymbolMode::Literal => "."@,
        SymbolMode::Ref => "*"@,
        SymbolMode::Eval => "$"@,
    }
}

pub open spec fn parse_symbol_word(w: Seq<char>) -> Option<SymbolMode> {
    if w == "id"@ {
        Some(SymbolMode::Id)
    } else if w == "."@ {
        Some(SymbolMode::Literal)
    } else if w == "*"@ {
        Some(SymbolMode::Ref)
    } else if w == "$"@ {
        Some(SymbolMode::Eval)
    } else {
        None
    }
}

pub open spec fn code_word(c: CodeMode) -> Seq<char> {
    match c {
        CodeMode::Form => "form"@,
        CodeMode::Eval => "eval"@,
    }
}

pub open spec fn parse_code_word(w: Seq<char>) -> Option<CodeMode> {
    if w == "form"@ {
        Some(CodeMode::Form)
    } else if w == "eval"@ {
        Some(CodeMode::Eval)
    } else {
        None
    }
}

pub open spec fn parse_data_word(w: Seq<char>) -> Option<DataMode> {
    if w == "form"@ {
        Some(DataMode)
    } else {
        None
    }
}

pub open spec fn task_of(c: CodeMode) -> TaskPrimMode {
    match c {
        CodeMode::Form => TaskPrimMode::Form,
        CodeMode::Eval => TaskPrimMode::Eval,
    }
}

pub open spec fn code_of(t: TaskPrimMode) -> CodeMode {
    match t {
        TaskPrimMode::Form => CodeMode::Form,
        TaskPrimMode::Eval => CodeMode::Eval,
    }
}

pub open spec fn key_symbol() -> SVal {
    SVal::Symbol("symbol"@)
}

pub open spec fn key_pair() -> SVal {
    SVal::Symbol("pair"@)
}

pub open spec fn key_task() -> SVal {
    SVal::Symbol("task"@)
}

pub open spec fn key_list() -> SVal {
    SVal::Symbol("list"@)
}

pub open spec fn key_map() -> SVal {
    SVal::Symbol("map"@)
}

pub open spec fn key_primitive() -> SVal {
    SVal::Symbol("primitive"@)
}

pub open spec fn empty_prim() -> PrimMode {
    PrimMode { symbol: None, pair: None, task: None, list: None, map: None }
}

/// The primitive mode with every part given, as one symbol mode and one call mode.
pub open spec fn full_prim(st: SymbolTaskMode) -> PrimMode {
    PrimMode {
        symbol: Some(st.symbol),
        pair: Some(DataMode),
        task: Some(code_of(st.task)),
        list: Some(DataMode),
        map: Some(DataMode),
    }
}

pub open spec fn all_none(p: PrimMode) -> bool {
    p.symbol is None && p.pair is None && p.task is None && p.list is None && p.map is None
}

pub open spec fn all_some(p: PrimMode) -> bool {
    p.symbol is Some && p.pair is Some && p.task is Some && p.list is Some && p.map is Some
}

pub open spec fn written_symbol(o: Option<SymbolMode>) -> Option<SVal> {
    match o {
        Some(s) => Some(SVal::Symbol(symbol_word(s))),
        None => None,
    }
}

pub open spec fn written_data(o: Option<DataMode>) -> Option<SVal> {
    match o {
        Some(_) => Some(SVal::Symbol("form"@)),
        None => None,
    }
}

pub open spec fn written_code(o: Option<CodeMode>) -> Option<SVal> {
    match o {
        Some(c) => Some(SVal::Symbol(code_word(c))),
        None => None,
    }
}

/// The map form: the parts that are given, in the order symbol, pair, task, list,
/// map, then the mark `primitive` set to true.
pub open spec fn prim_entries(p: PrimMode) -> Entries {
    push_some(
        push_some(
            push_some(
                push_some(push_some(Seq::empty(), key_symbol(), written_symbol(p.symbol)), key_pair(), written_data(p.pair)),
                key_task(),
                written_code(p.task),
            ),
            key_list(),
            written_data(p.list),
        ),
        key_map(),
        written_data(p.map),
    ).push((key_primitive(), SVal::Bit(true)))
}

/// The written form of a primitive mode.
pub open spec fn gen_prim_spec(p: PrimMode) -> SVal {
    if all_none(p) {
        SVal::Unit
    } else if all_some(p) {
        SVal::Symbol(prim_word(SymbolTaskMode { symbol: p.symbol.unwrap(), task: task_of(p.task.unwrap()) }))
    } else {
        SVal::Dict(prim_entries(p))
    }
}

/// The value under a key of a map form, unit when it is absent.
pub open spec fn field(es: Entries, k: SVal) -> SVal {
    match dict_get(es, k) {
        Some(v) => v,
        None => SVal::Unit,
    }
}

/// A part of a map form: unit leaves the part out, a word gives it, anything else is no mode.
pub open spec fn parse_symbol_field(v: SVal) -> Option<Option<SymbolMode>> {
    match v {
        SVal::Unit => Some(None),
        SVal::Symbol(w) => match parse_symbol_word(w) {
            Some(s) => Some(Some(s)),
            None => None,
        },
        _ => None,
    }
}

pub open spec fn parse_data_field(v: SVal) -> Option<Option<DataMode>> {
    match v {
        SVal::Unit => Some(None),
        SVal::Symbol(w) => match parse_data_word(w) {
            Some(d) => Some(Some(d)),
            None => None,
        },
        _ => None,
    }
}

pub open spec fn parse_code_field(v: SVal) -> Option<Option<CodeMode>> {
    match v {
        SVal::Unit => Some(None),
        SVal::Symbol(w) => match parse_code_word(w) {
            Some(c) => Some(Some(c)),
            None => None,
        },
        _ => None,
    }
}

/// The primitive mode a value writes: unit is the mode with no part, a word the
/// mode with every part, and a map marked `primitive` (true) the parts it names;
/// other keys of the map are not read.
pub open spec fn parse_prim_spec(v: SVal) -> Option<PrimMode> {
    match v {
        SVal::Unit => Some(empty_prim()),
        SVal::Symbol(w) => match parse_prim(w) {
            Some(st) => Some(full_prim(st)),
            None => None,
        },
        SVal::Dict(es) => if field(es, key_primitive()) == SVal::Bit(true) {
            match (
                parse_symbol_field(field(es, key_symbol())),
                parse_data_field(field(es, key_pair())),
                parse_code_field(field(es, key_task())),
                parse_data_field(field(es, key_list())),
                parse_data_field(field(es, key_map())),
            ) {
                (Some(symbol), Some(pair), Some(task), Some(list), Some(map)) => Some(
                    PrimMode { symbol, pair, task, list, map },
                ),
                _ => None,
            }
        } else {
            None
        },
        _ => None,
    }
}

proof fn lemma_words()
    ensures
        forall|s: SymbolMode| #[trigger] parse_symbol_word(symbol_word(s)) == Some(s),
        forall|c: CodeMode| #[trigger] parse_code_word(code_word(c)) == Some(c),
        parse_data_word("form"@) == Some(DataMode),
{
    reveal_strlit("id");
    reveal_strlit(".");
    reveal_strlit("*");
    reveal_strlit("$");
    reveal_strlit("form");
    reveal_strlit("eval");
    assert("id"@.len() == 2 && "."@.len() == 1 && "*"@.len() == 1 && "$"@.len() == 1);
    assert("."@[0] == '.' && "*"@[0] == '*' && "$"@[0] == '$');
    assert("form"@[0] == 'f' && "eval"@[0] == 'e');
}

proof fn lemma_keys()
    ensures
        key_symbol() != key_pair(), key_symbol() != key_task(), key_symbol() != key_list(),
        key_symbol() != key_map(), key_symbol() != key_primitive(),
        key_pair() != key_task(), key_pair() != key_list(), key_pair() != key_map(),
        key_pair() != key_primitive(),
        key_task() != key_list(), key_task() != key_map(), key_task() != key_primitive(),
        key_list() != key_map(), key_list() != key_primitive(),
        key_map() != key_primitive(),
{
    reveal_strlit("symbol");
    reveal_strlit("pair");
    reveal_strlit("task");
    reveal_strlit("list");
    reveal_strlit("map");
    reveal_strlit("primitive");
    assert("symbol"@.len() == 6 && "map"@.len() == 3 && "primitive"@.len() == 9);
    assert("pair"@.len() == 4 && "task"@.len() == 4 && "list"@.len() == 4);
    assert("pair"@[0] == 'p' && "task"@[0] == 't' && "list"@[0] == 'l');
}

proof fn lemma_last_index(s: Entries, k: SVal, v: SVal, key: SVal)
    ensures
        dict_index(s.push((k, v)), key) == if key == k { s.len() as int } else { dict_index(s, key) },
        forall|i: int| 0 <= i < s.len() ==> #[trigger] s.push((k, v))[i] == s[i],
{
    assert(s.push((k, v)).drop_last() =~= s);
}

/// A primitive mode is read back from its written form.
pub proof fn lemma_prim_roundtrip(p: PrimMode)
    ensures
        parse_prim_spec(gen_prim_spec(p)) == Some(p),
{
    lemma_words();
    if all_none(p) {
    } else if all_some(p) {
        let st = SymbolTaskMode { symbol: p.symbol.unwrap(), task: task_of(p.task.unwrap()) };
        lemma_parse_prim_word(st);
        assert(code_of(task_of(p.task.unwrap())) == p.task.unwrap());
        let d: DataMode = p.pair.unwrap();
        assert(d == DataMode);
        assert(p.list.unwrap() == DataMode);
        assert(p.map.unwrap() == DataMode);
        assert(full_prim(st) == p);
    } else {
        lemma_keys();
        let w1 = written_symbol(p.symbol);
        let w2 = written_data(p.pair);
        let w3 = written_code(p.task);
        let w4 = written_data(p.list);
        let w5 = written_data(p.map);
        let e0 = Seq::<(SVal, SVal)>::empty();
        let e1 = push_some(e0, key_symbol(), w1);
        let e2 = push_some(e1, key_pair(), w2);
        let e3 = push_some(e2, key_task(), w3);
        let e4 = push_some(e3, key_list(), w4);
        let e5 = push_some(e4, key_map(), w5);
        let es = e5.push((key_primitive(), SVal::Bit(true)));
        assert(es == prim_entries(p));
        assert(gen_prim_spec(p) == SVal::Dict(es));
        let keys = seq![key_symbol(), key_pair(), key_task(), key_list(), key_map(), key_primitive()];
        assert forall|i: int| 0 <= i < 6 implies #[trigger] dict_index(es, keys[i]) == (
            if keys[i] == key_symbol() && w1 is Some { 0int }
            else if keys[i] == key_pair() && w2 is Some { e1.len() as int }
            else if keys[i] == key_task() && w3 is Some { e2.len() as int }
            else if keys[i] == key_list() && w4 is Some { e3.len() as int }
            else if keys[i] == key_map() && w5 is Some { e4.len() as int }
            else if keys[i] == key_primitive() { e5.len() as int }
            else { -1int }) by {
            lemma_push_some_index(e0, key_symbol(), w1, keys[i]);
            lemma_push_some_index(e1, key_pair(), w2, keys[i]);
            lemma_push_some_index(e2, key_task(), w3, keys[i]);
            lemma_push_some_index(e3, key_list(), w4, keys[i]);
            lemma_push_some_index(e4, key_map(), w5, keys[i]);
            lemma_last_index(e5, key_primitive(), SVal::Bit(true), keys[i]);
        }
        lemma_push_some_index(e0, key_symbol(), w1, key_symbol());
        lemma_push_some_index(e1, key_pair(), w2, key_pair());
        lemma_push_some_index(e2, key_task(), w3, key_task());
        lemma_push_some_index(e3, key_list(), w4, key_list());
        lemma_push_some_index(e4, key_map(), w5, key_map());
        lemma_last_index(e5, key_primitive(), SVal::Bit(true), key_primitive());
        assert(dict_index(es, keys[5]) == e5.len());
        assert(field(es, key_primitive()) == SVal::Bit(true));
        assert(dict_index(es, keys[0]) == if w1 is Some { 0int } else { -1int });
        assert(field(es, key_symbol()) == match w1 { Some(x) => x, None => SVal::Unit });
        assert(parse_symbol_field(field(es, key_symbol())) == Some(p.symbol));
        assert(dict_index(es, keys[1]) == if w2 is Some { e1.len() as int } else { -1int });
        assert(field(es, key_pair()) == match w2 { Some(x) => x, None => SVal::Unit });
        assert(parse_data_field(field(es, key_pair())) == Some(p.pair));
        assert(dict_index(es, keys[2]) == if w3 is Some { e2.len() as int } else { -1int });
        assert(field(es, key_task()) == match w3 { Some(x) => x, None => SVal::Unit });
        assert(parse_code_field(field(es, key_task())) == Some(p.task));
        assert(dict_index(es, keys[3]) == if w4 is Some { e3.len() as int } else { -1int });
        assert(field(es, key_list()) == match w4 { Some(x) => x, None => SVal::Unit });
        assert(parse_data_field(field(es, key_list())) == Some(p.list));
        assert(dict_index(es, keys[4]) == if w5 is Some { e4.len() as int } else { -1int });
        assert(field(es, key_map()) == match w5 { Some(x) => x, None => SVal::Unit });
        assert(parse_data_field(field(es, key_map())) == Some(p.map));
    }
}

fn word_is(w: &String, lit: &str) -> (r: bool)
    ensures
        r == (w@ == lit@),
{
    *w == String::from_str(lit)
}

fn word_of_symbol_mode(s: SymbolMode) -> (w: String)
    ensures
        w@ == symbol_word(s),
{
    match s {
        SymbolMode::Id => String::from_str("id"),
        SymbolMode::Literal => String::from_str("."),
        SymbolMode::Ref => String::from_str("*"),
        SymbolMode::Eval => String::from_str("$"),
    }
}

fn word_of_code_mode(c: CodeMode) -> (w: String)
    ensures
        w@ == code_word(c),
{
    match c {
        CodeMode::Form => String::from_str("form"),
        CodeMode::Eval => String::from_str("eval"),
    }
}

fn symbol_mode_of_word(w: &String) -> (r: Option<SymbolMode>)
    ensures
        r == parse_symbol_word(w@),
{
    if word_is(w, "id") {
        Some(SymbolMode::Id)
    } else if word_is(w, ".") {
        Some(SymbolMode::Literal)
    } else if word_is(w, "*") {
        Some(SymbolMode::Ref)
    } else if word_is(w, "$") {
        Some(SymbolMode::Eval)
    } else {
        None
    }
}

fn code_mode_of_word(w: &String) -> (r: Option<CodeMode>)
    ensures
        r == parse_code_word(w@),
{
    if word_is(w, "form") {
        Some(CodeMode::Form)
    } else if word_is(w, "eval") {
        Some(CodeMode::Eval)
    } else {
        None
    }
}

pub open spec fn parse_symbol_mode_spec(v: SVal) -> Option<SymbolMode> {
    match v {
        SVal::Symbol(w) => parse_symbol_word(w),
        _ => None,
    }
}

pub open spec fn parse_code_mode_spec(v: SVal) -> Option<CodeMode> {
    match v {
        SVal::Symbol(w) => parse_code_word(w),
        _ => None,
    }
}

pub open spec fn parse_data_mode_spec(v: SVal) -> Option<DataMode> {
    match v {
        SVal::Symbol(w) => parse_data_word(w),
        _ => None,
    }
}

impl SymbolMode {
    /// The written form of a symbol mode: `id`, `.`, `*` or `$`.
    pub fn generate(&self) -> (v: Val)
        ensures
            v@ == SVal::Symbol(symbol_word(*self)),
    {
        Val::Symbol(word_of_symbol_mode(*self))
    }

    pub fn parse(v: &Val) -> (r: Option<SymbolMode>)
        ensures
            r == parse_symbol_mode_spec(v@),
    {
        match v {
            Val::Symbol(w) => symbol_mode_of_word(w),
            _ => None,
        }
    }
}

impl CodeMode {
    /// The written form of a call mode: `form` or `eval`.
    pub fn generate(&self) -> (v: Val)
        ensures
            v@ == SVal::Symbol(code_word(*self)),
    {
        Val::Symbol(word_of_code_mode(*self))
    }

    pub fn parse(v: &Val) -> (r: Option<CodeMode>)
        ensures
            r == parse_code_mode_spec(v@),
    {
        match v {
            Val::Symbol(w) => code_mode_of_word(w),
            _ => None,
        }
    }
}

impl DataMode {
    /// The written form of the data mode: `form`.
    pub fn generate(&self) -> (v: Val)
        ensures
            v@ == SVal::Symbol("form"@),
    {
        Val::Symbol(String::from_str("form"))
    }

    pub fn parse(v: &Val) -> (r: Option<DataMode>)
        ensures
            r == parse_data_mode_spec(v@),
    {
        match v {
            Val::Symbol(w) => if word_is(w, "form") {
                Some(DataMode)
            } else {
                None
            },
            _ => None,
        }
    }
}

/// Each part mode is read back from its written form.
pub proof fn lemma_part_roundtrip(s: SymbolMode, c: CodeMode)
    ensures
        parse_symbol_mode_spec(SVal::Symbol(symbol_word(s))) == Some(s),
        parse_code_mode_spec(SVal::Symbol(code_word(c))) == Some(c),
        parse_data_mode_spec(SVal::Symbol("form"@)) == Some(DataMode),
{
    lemma_words();
}

proof fn lemma_view_entries_push(s: Seq<PairVal>, x: PairVal)
    ensures
        view_entries(s.push(x)) == view_entries(s).push((x.first@, x.second@)),
{
    assert(s.push(x).drop_last() =~= s);
}

fn push_word(es: &mut Vec<PairVal>, k: &str, w: Option<String>)
    ensures
        view_entries(final(es)@) == push_some(
            view_entries(old(es)@),
            SVal::Symbol(k@),
            match w {
                Some(x) => Some(SVal::Symbol(x@)),
                None => None,
            },
        ),
{
    match w {
        Some(x) => {
            let p = PairVal { first: Val::Symbol(String::from_str(k)), second: Val::Symbol(x) };
            proof {
                lemma_view_entries_push(old(es)@, p);
            }
            es.push(p);
        },
        None => {},
    }
}

fn field_of(m: &ValMap, k: &str) -> (r: Val)
    ensures
        r@ == field(m.view(), SVal::Symbol(k@)),
{
    match m.get(&Val::Symbol(String::from_str(k))) {
        Some(v) => v,
        None => Val::Unit,
    }
}

fn code_of_exec(t: TaskPrimMode) -> (c: CodeMode)
    ensures
        c == code_of(t),
{
    match t {
        TaskPrimMode::Form => CodeMode::Form,
        TaskPrimMode::Eval => CodeMode::Eval,
    }
}

fn task_of_exec(c: CodeMode) -> (t: TaskPrimMode)
    ensures
        t == task_of(c),
{
    match c {
        CodeMode::Form => TaskPrimMode::Form,
        CodeMode::Eval => TaskPrimMode::Eval,
    }
}

impl PrimMode {
    /// The mode with every part given: the symbol mode, the call mode, and pairs,
    /// lists and maps prepared part by part.
    pub fn symbol_task(symbol: SymbolMode, task: CodeMode) -> (p: PrimMode)
        ensures
            p == full_prim(SymbolTaskMode { symbol, task: task_of(task) }),
    {
        proof {
            assert(code_of(task_of(task)) == task);
        }
        PrimMode {
            symbol: Some(symbol),
            pair: Some(DataMode),
            task: Some(task),
            list: Some(DataMode),
            map: Some(DataMode),
        }
    }

    /// The written form: unit with no part, the word of the mode with every part,
    /// and otherwise the map of the parts given, marked `primitive`.
    pub fn generate(&self) -> (v: Val)
        ensures
            v@ == gen_prim_spec(*self),
    {
        let p = *self;
        if p.symbol.is_none() && p.pair.is_none() && p.task.is_none() && p.list.is_none() && p.map.is_none() {
            return Val::Unit;
        }
        if p.symbol.is_some() && p.pair.is_some() && p.task.is_some() && p.list.is_some() && p.map.is_some() {
            match (p.symbol, p.task) {
                (Some(s), Some(t)) => {
                    return Val::Symbol(prim_symbol(SymbolTaskMode { symbol: s, task: task_of_exec(t) }));
                },
                _ => {},
            }
        }
        let mut es: Vec<PairVal> = Vec::new();
        proof {
            assert(view_entries(es@) =~= Seq::<(SVal, SVal)>::empty());
        }
        push_word(&mut es, "symbol", match p.symbol {
            Some(s) => Some(word_of_symbol_mode(s)),
            None => None,
        });
        push_word(&mut es, "pair", match p.pair {
            Some(_) => Some(String::from_str("form")),
            None => None,
        });
        push_word(&mut es, "task", match p.task {
            Some(c) => Some(word_of_code_mode(c)),
            None => None,
        });
        push_word(&mut es, "list", match p.list {
            Some(_) => Some(String::from_str("form")),
            None => None,
        });
        push_word(&mut es, "map", match p.map {
            Some(_) => Some(String::from_str("form")),
            None => None,
        });
        let mark = PairVal { first: Val::Symbol(String::from_str("primitive")), second: Val::Bit(true) };
        proof {
            lemma_view_entries_push(es@, mark);
        }
        es.push(mark);
        Val::Dict(ValMap { entries: es })
    }

    /// The primitive mode a value writes, if it writes one (see `parse_prim_spec`).
    pub fn parse(v: &Val) -> (r: Option<PrimMode>)
        ensures
            r == parse_prim_spec(v@),
    {
        match v {
            Val::Unit => Some(PrimMode { symbol: None, pair: None, task: None, list: None, map: None }),
            Val::Symbol(w) => match parse_prim_symbol(w) {
                Some(st) => {
                    let p = PrimMode::symbol_task(st.symbol, code_of_exec(st.task));
                    proof {
                        assert(task_of(code_of(st.task)) == st.task);
                        assert(SymbolTaskMode { symbol: st.symbol, task: task_of(code_of(st.task)) } == st);
                    }
                    Some(p)
                },
                None => None,
            },
            Val::Dict(m) => {
                let mark = field_of(m, "primitive");
                match mark {
                    Val::Bit(true) => {},
                    _ => {
                        return None;
                    },
                }
                let symbol = match field_of(m, "symbol") {
                    Val::Unit => None,
                    Val::Symbol(w) => match symbol_mode_of_word(&w) {
                        Some(s) => Some(s),
                        None => {
                            return None;
                        },
                    },
                    _ => {
                        return None;
                    },
                };
                let task = match field_of(m, "task") {
                    Val::Unit => None,
                    Val::Symbol(w) => match code_mode_of_word(&w) {
                        Some(c) => Some(c),
                        None => {
                            return None;
                        },
                    },
                    _ => {
                        return None;
                    },
                };
                let pair = data_field(&field_of(m, "pair"));
                let list = data_field(&field_of(m, "list"));
                let map = data_field(&field_of(m, "map"));
                match (pair, list, map) {
                    (Some(pair), Some(list), Some(map)) => Some(PrimMode { symbol, pair, task, list, map }),
                    _ => None,
                }
            },
            _ => None,
        }
    }
}

fn data_field(v: &Val) -> (r: Option<Option<DataMode>>)
    ensures
        r == parse_data_field(v@),
{
    match v {
        Val::Unit => Some(None),
        Val::Symbol(w) => if word_is(w, "form") {
            Some(Some(DataMode))
        } else {
            None
        },
        _ => None,
    }
}

} // verus!
