use airlang::prelude::bit::BitPrelude;
use airlang::prelude::ctrl::{
    block_on_result, block_task, for_values, if_branches, if_choose, loop_on_flow, parse_block,
    parse_block_item, start_block, BlockItem, BlockStart, BlockState, BlockTask, CtrlFlow, Exit,
};
use airlang::prelude::func::{fn_code, fn_ctx_access, fn_id, fn_is_primitive, fn_new, fn_repr};
use airlang::prelude::setup::{ref_mode, DynFn, FreeFn};
use airlang::prelude::solve::{fn_reverse, fn_set_reverse, fn_set_solver, fn_solver, SolveState};
use airlang::prelude::{prim_func, Prelude};
use airlang::prelude::setup::default_free_mode;
use airlang::types::copy::val_eq;
use airlang::types::val::ValMap;
use airlang::types::val::{CallVal, CtxAccess, PairVal, Val};
use num_bigint::BigInt;

fn num(i: i64) -> Val {
    Val::Int(BigInt::from(i))
}

fn sym(s: &str) -> Val {
    Val::Symbol(s.to_string())
}

fn pair(a: Val, b: Val) -> Val {
    Val::Pair(Box::new(PairVal { first: a, second: b }))
}

fn call(f: Val, input: Val) -> Val {
    Val::Call(Box::new(CallVal { reverse: false, func: f, ctx: Val::Unit, input }))
}

#[test]
fn function_from_its_written_form() {
    let mut m = ValMap::new();
    m.insert(sym("id"), sym("double"));
    m.insert(sym("code"), pair(sym("x"), call(sym("+"), pair(sym("x"), sym("x")))));
    m.insert(sym("context_access"), sym("free"));
    let f = fn_new(Val::Dict(m));
    assert!(matches!(&f, Val::Func(_)));
    assert!(matches!(fn_is_primitive(&f, Val::Unit), Val::Bit(false)));
    assert!(val_eq(&fn_id(&f, Val::Unit), &sym("double")));
    assert!(val_eq(&fn_ctx_access(&f, Val::Unit), &sym("free")));
    let code = fn_code(&f, Val::Unit);
    assert!(matches!(&code, Val::Pair(p) if matches!(&p.first, Val::Symbol(s) if s == "x")));
    let written = fn_repr(airlang::types::copy::copy_val(&f));
    assert!(val_eq(&fn_new(written), &f));
}

#[test]
fn function_that_takes_a_context_needs_its_name() {
    let mut m = ValMap::new();
    m.insert(sym("code"), pair(sym("x"), sym("x")));
    m.insert(sym("context_access"), sym("constant"));
    assert!(matches!(fn_new(Val::Dict(m)), Val::Unit));
    let mut m = ValMap::new();
    m.insert(sym("code"), pair(pair(sym("c"), sym("x")), sym("x")));
    let f = fn_new(Val::Dict(m));
    assert!(val_eq(&fn_ctx_access(&f, Val::Unit), &sym("mutable")));
    let written = fn_repr(airlang::types::copy::copy_val(&f));
    assert!(val_eq(&fn_new(written), &f));
}

#[test]
fn malformed_functions_are_refused() {
    let mut m = ValMap::new();
    m.insert(sym("code"), num(1));
    assert!(matches!(fn_new(Val::Dict(m)), Val::Unit));
    let mut m = ValMap::new();
    m.insert(sym("cell"), num(1));
    assert!(matches!(fn_new(Val::Dict(m)), Val::Unit));
    let mut m = ValMap::new();
    m.insert(sym("context_access"), sym("sometimes"));
    assert!(matches!(fn_new(Val::Dict(m)), Val::Unit));
    assert!(matches!(fn_new(num(3)), Val::Unit));
}

#[test]
fn built_in_function_is_written_by_name() {
    let f = Val::Func(Box::new(FreeFn { id: "noop".to_string() }.free_static()));
    assert!(matches!(fn_is_primitive(&f, Val::Unit), Val::Bit(true)));
    let Val::Dict(d) = fn_repr(f) else { panic!("written as a map") };
    assert_eq!(d.len(), 1);
    assert!(val_eq(&d.get(&sym("id")).unwrap(), &sym("noop")));
}

#[test]
fn function_builders() {
    let f = DynFn { id: "f".to_string() }.const_cell();
    assert!(f.access == CtxAccess::Const && f.cell);
    let g = DynFn { id: "g".to_string() }.mut_static();
    assert!(g.access == CtxAccess::Mut && !g.cell);
    assert!(matches!(ref_mode(), airlang::prelude::mode::Mode::Func(_)));
}

#[test]
fn solver_and_reverse_functions() {
    let solver = FreeFn { id: "solve".to_string() }.free_static();
    let mut state = SolveState::new(solver);
    let Val::Func(f) = fn_solver(&state, Val::Unit) else { panic!("the solver is a function") };
    assert_eq!(f.id, "solve");
    let other = Val::Func(Box::new(FreeFn { id: "other".to_string() }.free_static()));
    fn_set_solver(&mut state, other);
    assert_eq!(state.solver.id, "other");
    let inverse = Val::Func(Box::new(FreeFn { id: "minus".to_string() }.free_static()));
    fn_set_reverse(&mut state, pair(sym("plus"), inverse));
    let Val::Func(r) = fn_reverse(&state, sym("plus")) else { panic!("registered reverse") };
    assert_eq!(r.id, "minus");
    assert!(matches!(fn_reverse(&state, sym("times")), Val::Unit));
    fn_set_reverse(&mut state, pair(sym("times"), num(1)));
    assert!(matches!(fn_reverse(&state, sym("times")), Val::Unit));
}

#[test]
fn prelude_binds_functions_by_name() {
    let mut ctx = ValMap::new();
    BitPrelude::default().put(&mut ctx);
    assert_eq!(ctx.len(), 5);
    let Val::Func(f) = ctx.get(&sym("xor")).unwrap() else { panic!("bound to a function") };
    assert_eq!(f.id, "xor");
    let f = prim_func("custom", CtxAccess::Free, default_free_mode(), None);
    assert!(matches!(&f.call, Val::Symbol(s) if s == "eval*"));
}

#[test]
fn block_items_and_exits() {
    let b = parse_block_item(call(sym("break"), pair(Val::Bit(true), num(1)))).unwrap();
    assert!(matches!(b, BlockItem::Exit(Exit::Break, Val::Bit(true), _)));
    let n = parse_block_item(call(sym("print"), num(1))).unwrap();
    assert!(matches!(n, BlockItem::Normal(_)));
    assert!(parse_block_item(call(sym("continue"), num(1))).is_none());
    assert!(parse_block(&vec![num(1), call(sym("break"), num(2))]).is_none());
}

fn run_block(items: &Vec<BlockItem>, mut results: Vec<Val>) -> (Val, CtrlFlow) {
    let mut state = BlockState::At(0, Val::Unit);
    loop {
        match block_task(items, &state) {
            BlockTask::Finish(v, f) => return (v, f),
            BlockTask::Eval(_) => {
                let r = results.remove(0);
                state = block_on_result(items, state, r);
            }
        }
    }
}

#[test]
fn block_runs_to_its_end_or_exit() {
    let items = parse_block(&vec![sym("a"), call(sym("break"), pair(sym("c"), sym("b"))), sym("d")]).unwrap();
    let (v, f) = run_block(&items, vec![num(1), Val::Bit(false), num(3)]);
    assert!(val_eq(&v, &num(3)) && f == CtrlFlow::Pass);
    let (v, f) = run_block(&items, vec![num(1), Val::Bit(true), num(7)]);
    assert!(val_eq(&v, &num(7)) && f == CtrlFlow::Exit(Exit::Break));
    let (v, f) = run_block(&items, vec![num(1), num(0)]);
    assert!(matches!(v, Val::Unit) && f == CtrlFlow::Error);
}

#[test]
fn loop_decisions() {
    assert!(loop_on_flow(num(1), CtrlFlow::Pass).is_none());
    assert!(loop_on_flow(num(1), CtrlFlow::Exit(Exit::Continue)).is_none());
    assert!(val_eq(&loop_on_flow(num(1), CtrlFlow::Exit(Exit::Break)).unwrap(), &num(1)));
    assert!(matches!(loop_on_flow(num(1), CtrlFlow::Error).unwrap(), Val::Unit));
}

#[test]
fn for_iterates_over_parts() {
    let v = for_values(&num(3)).unwrap();
    assert_eq!(v.len(), 3);
    assert!(val_eq(&v[2], &num(2)));
    assert!(for_values(&num(-1)).is_none());
    let t = for_values(&Val::Text("hé".to_string())).unwrap();
    assert!(val_eq(&t[1], &Val::Text("é".to_string())));
    let b = for_values(&Val::Byte(vec![7, 8])).unwrap();
    assert!(val_eq(&b[0], &Val::Byte(vec![7])));
    let mut m = ValMap::new();
    m.insert(sym("k"), num(1));
    let e = for_values(&Val::Dict(m)).unwrap();
    assert!(val_eq(&e[0], &pair(sym("k"), num(1))));
    assert!(for_values(&Val::Unit).is_none());
}

#[test]
fn if_picks_a_branch() {
    let (c, t, e) = if_branches(pair(sym("c"), pair(num(1), num(2)))).unwrap();
    assert!(val_eq(&c, &sym("c")));
    assert!(val_eq(&if_choose(&Val::Bit(true), t, e).unwrap(), &num(1)));
    let (_, t, e) = if_branches(pair(sym("c"), pair(num(1), num(2)))).unwrap();
    assert!(val_eq(&if_choose(&Val::Bit(false), t, e).unwrap(), &num(2)));
    assert!(if_choose(&num(0), num(1), num(2)).is_none());
    assert!(if_branches(pair(sym("c"), num(1))).is_none());
}

#[test]
fn block_start() {
    assert!(matches!(start_block(num(1)), Some(BlockStart::Single(_))));
    assert!(matches!(start_block(Val::List(vec![num(1)])), Some(BlockStart::Items(v)) if v.len() == 1));
    assert!(start_block(Val::List(vec![call(sym("break"), num(1))])).is_none());
}
