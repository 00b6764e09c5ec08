use airlang::prelude::mode::access::ctx_access;
use airlang::prelude::mode::prim::{CodeMode, DataMode, PrimMode};
use airlang::prelude::mode::repr::{generate, parse, parse_prim_symbol, prim_symbol};
use airlang::prelude::mode::{fn_new, CompMode, Mode, ModeEntry, PairMode, SymbolMode, SymbolTaskMode, TaskPrimMode};
use airlang::prelude::FuncMode;
use airlang::types::copy::val_eq;
use airlang::types::val::{CtxAccess, PairVal, Val, ValMap};

fn sym(s: &str) -> Val {
    Val::Symbol(s.to_string())
}

fn is_sym(v: &Val, s: &str) -> bool {
    matches!(v, Val::Symbol(x) if x == s)
}

fn roundtrip(m: &Mode) {
    let written = generate(m);
    let back = parse(&written).expect("written mode should parse");
    assert!(val_eq(&generate(&back), &written));
}

#[test]
fn primitive_mode_symbols() {
    let all = [
        (SymbolMode::Id, TaskPrimMode::Form, "form"),
        (SymbolMode::Literal, TaskPrimMode::Form, "form."),
        (SymbolMode::Ref, TaskPrimMode::Form, "form*"),
        (SymbolMode::Eval, TaskPrimMode::Form, "form$"),
        (SymbolMode::Id, TaskPrimMode::Eval, "eval"),
        (SymbolMode::Literal, TaskPrimMode::Eval, "eval."),
        (SymbolMode::Ref, TaskPrimMode::Eval, "eval*"),
        (SymbolMode::Eval, TaskPrimMode::Eval, "eval$"),
    ];
    for (s, t, w) in all {
        let p = SymbolTaskMode::new(s, t);
        assert_eq!(prim_symbol(p), w);
        let back = parse_prim_symbol(&w.to_string()).unwrap();
        assert!(back.symbol == s && back.task == t);
    }
    assert!(parse_prim_symbol(&"formal".to_string()).is_none());
}

#[test]
fn default_mode_is_written_as_eval_ref() {
    assert!(is_sym(&generate(&FuncMode::default_mode()), "eval*"));
    assert!(is_sym(&generate(&Mode::id()), "form"));
    assert!(Mode::id().is_id());
    assert!(!FuncMode::default_mode().is_id());
    assert!(CompMode::id().is_id());
}

#[test]
fn unit_parses_as_the_identity_mode() {
    let m = parse(&Val::Unit).unwrap();
    assert!(m.is_id());
}

#[test]
fn composite_modes_round_trip() {
    let literal = FuncMode::prim_mode(SymbolMode::Literal, TaskPrimMode::Form);
    let pair = FuncMode::pair_mode(
        vec![ModeEntry { key: sym("k"), mode: FuncMode::id_mode() }],
        literal,
        FuncMode::default_mode(),
    );
    roundtrip(&pair);
    let task = FuncMode::task_mode(Mode::id(), FuncMode::default_mode(), Mode::id());
    roundtrip(&task);
    let list = FuncMode::list_mode(vec![Mode::id(), FuncMode::default_mode()], Mode::id());
    roundtrip(&list);
    let map = FuncMode::map_mode(vec![ModeEntry { key: sym("a"), mode: Mode::id() }], FuncMode::default_mode());
    roundtrip(&map);
}

#[test]
fn composite_mode_is_written_as_a_map() {
    let m = FuncMode::pair_mode(vec![], Mode::id(), Mode::id());
    let Val::Dict(d) = generate(&m) else { panic!("a composite mode is written as a map") };
    assert!(is_sym(&d.get(&sym("default")).unwrap(), "eval*"));
    let Val::Pair(p) = d.get(&sym("pair")).unwrap() else { panic!("the pair mode is written as a pair") };
    assert!(matches!(&p.first, Val::Dict(_)));
    assert!(d.get(&sym("call")).is_none());
}

#[test]
fn malformed_modes_are_refused() {
    assert!(parse(&sym("nonsense")).is_none());
    assert!(parse(&Val::Int(num_bigint::BigInt::from(1))).is_none());
    let mut d = airlang::types::val::ValMap::new();
    d.insert(sym("pair"), sym("form"));
    assert!(parse(&Val::Dict(d)).is_none(), "a composite mode needs its default");
    let mut d = airlang::types::val::ValMap::new();
    d.insert(sym("default"), sym("eval*"));
    d.insert(sym("list"), Val::Pair(Box::new(PairVal { first: sym("x"), second: sym("form") })));
    assert!(parse(&Val::Dict(d)).is_none());
}

#[test]
fn context_access_of_modes() {
    assert!(ctx_access(&Mode::id()) == CtxAccess::Free);
    assert!(ctx_access(&FuncMode::default_mode()) == CtxAccess::Mut);
    let m = FuncMode::list_mode(vec![], Mode::id());
    assert!(ctx_access(&m) == CtxAccess::Mut);
}

#[test]
fn mode_function_from_written_mode() {
    let f = fn_new(sym("form"));
    let Val::Func(f) = f else { panic!("a mode makes a function") };
    assert_eq!(f.id, "mode.object");
    assert!(f.access == CtxAccess::Free);
    assert!(is_sym(&f.data, "form"));
    assert!(matches!(f.call, Val::Unit));
    assert!(f.prim.is_none());
    assert!(matches!(fn_new(sym("bad")), Val::Unit));
    let made = FuncMode::mode_into_func(FuncMode::default_mode());
    assert!(made.access == CtxAccess::Mut);
}

#[test]
fn partial_primitive_modes_round_trip() {
    let none = PrimMode { symbol: None, pair: None, task: None, list: None, map: None };
    assert!(matches!(none.generate(), Val::Unit));
    assert!(PrimMode::parse(&Val::Unit).unwrap() == none);

    let full = PrimMode::symbol_task(SymbolMode::Ref, CodeMode::Eval);
    assert!(is_sym(&full.generate(), "eval*"));
    assert!(PrimMode::parse(&sym("eval*")).unwrap() == full);

    let part = PrimMode { symbol: Some(SymbolMode::Literal), pair: None, task: Some(CodeMode::Form), list: Some(DataMode), map: None };
    let written = part.generate();
    let Val::Dict(m) = &written else { panic!("a partial mode is written as a map") };
    assert_eq!(m.entries.len(), 4);
    assert!(is_sym(&m.get(&sym("symbol")).unwrap(), "."));
    assert!(is_sym(&m.get(&sym("task")).unwrap(), "form"));
    assert!(is_sym(&m.get(&sym("list")).unwrap(), "form"));
    assert!(m.get(&sym("pair")).is_none());
    assert!(matches!(m.get(&sym("primitive")).unwrap(), Val::Bit(true)));
    assert!(PrimMode::parse(&written).unwrap() == part);
}

#[test]
fn partial_primitive_mode_needs_the_mark_and_known_words() {
    let mut m = ValMap::new();
    m.insert(sym("symbol"), sym("."));
    assert!(PrimMode::parse(&Val::Dict(m)).is_none());
    let mut m = ValMap::new();
    m.insert(sym("symbol"), sym("?"));
    m.insert(sym("primitive"), Val::Bit(true));
    assert!(PrimMode::parse(&Val::Dict(m)).is_none());
    assert!(PrimMode::parse(&sym("formal")).is_none());
    assert!(PrimMode::parse(&Val::Bit(true)).is_none());
}

#[test]
fn part_modes_are_written_as_words() {
    assert!(is_sym(&SymbolMode::Id.generate(), "id"));
    assert!(SymbolMode::parse(&sym("$")) == Some(SymbolMode::Eval));
    assert!(SymbolMode::parse(&sym("x")).is_none());
    assert!(is_sym(&CodeMode::Eval.generate(), "eval"));
    assert!(CodeMode::parse(&sym("form")) == Some(CodeMode::Form));
    assert!(is_sym(&DataMode.generate(), "form"));
    assert!(DataMode::parse(&sym("form")) == Some(DataMode));
    assert!(DataMode::parse(&sym("eval")).is_none());
}

#[test]
fn pair_mode_round_trip() {
    let p = PairMode {
        some: vec![ModeEntry { key: sym("k"), mode: Mode::from_prim(SymbolTaskMode::new(SymbolMode::Ref, TaskPrimMode::Eval)) }],
        first: Mode::from_prim(SymbolTaskMode::id()),
        second: Mode::from_prim(SymbolTaskMode::new(SymbolMode::Literal, TaskPrimMode::Form)),
    };
    let written = p.generate();
    let Val::Pair(outer) = &written else { panic!("a pair mode is written as a pair") };
    assert!(matches!(&outer.first, Val::Dict(m) if m.entries.len() == 1));
    let back = PairMode::parse(&written).unwrap();
    assert!(val_eq(&back.generate(), &written));
    assert!(PairMode::parse(&Val::Pair(Box::new(PairVal { first: sym("x"), second: sym("y") }))).is_none());
    assert!(PairMode::parse(&Val::Bit(true)).is_none());
}
