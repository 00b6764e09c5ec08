//! `for`, `loop` and `match` as state machines. Each run starts from the
//! function's input and asks its driver for one thing at a time: evaluate an
//! expression, bind a name in the context, or finish with a value. The driver
//! does that and hands back what came of it; the machine decides what comes next.
use crate::prelude::ctrl::{
    block_on_result, block_on_result_spec, block_task, block_task_spec, for_values,
    for_values_spec, loop_on_flow, loop_on_flow_spec, parse_block, parse_block_spec,
    state_valid, view_items, view_state, BlockItem, BlockState, BlockTask, CtrlFlow, Exit,
    SBlockItem, SBlockState, SBlockTask,
};
use crate::types::copy::{copy_val, lemma_view_entries, lemma_view_list, val_eq};
use crate::types::val::{sval_pair, view_entries, view_list, view_val, PairVal, SVal, Val};
use vstd::prelude::*;

verus! {

/// What the driver is asked to do next.
pub enum Action {
    /// Evaluate an expression in the context and report its value.
    Eval(Val),
    /// Bind the name to the value in the context and report whether it could.
    Bind(String, Val),
    /// The run is over, with this value as its result.
    Finish(Val),
}

/// What the driver reports back.
pub enum Event {
    Evaluated(Val),
    Bound(bool),
}

pub enum SAction {
    Eval(SVal),
    Bind(Seq<char>, SVal),
    Finish(SVal),
}

pub enum SEvent {
    Evaluated(SVal),
    Bound(bool),
}

pub open spec fn view_action(a: Action) -> SAction {
    match a {
        Action::Eval(v) => SAction::Eval(v@),
        Action::Bind(n, v) => SAction::Bind(n@, v@),
        Action::Finish(v) => SAction::Finish(v@),
    }
}

pub open spec fn view_event(e: Event) -> SEvent {
    match e {
        Event::Evaluated(v) => SEvent::Evaluated(v@),
        Event::Bound(b) => SEvent::Bound(b),
    }
}

/// The items of a body: a list is a block of items, anything else a block of
/// that one expression. None when an item of the list is malformed.
pub open spec fn body_items_spec(v: SVal) -> Option<Seq<SBlockItem>> {
    match v {
        SVal::List(l) => parse_block_spec(l),
        _ => Some(seq![SBlockItem::Normal(v)]),
    }
}

pub fn body_items(v: Val) -> (r: Option<Vec<BlockItem>>)
    ensures
        match body_items_spec(v@) {
            Some(b) => r matches Some(x) && view_items(x@) == b,
            None => r is None,
        },
{
    match v {
        Val::List(l) => parse_block(&l),
        _ => {
            let ghost sv = v@;
            let mut out: Vec<BlockItem> = Vec::new();
            out.push(BlockItem::Normal(v));
            proof {
                assert(view_items(out@) =~= seq![SBlockItem::Normal(sv)]);
            }
            Some(out)
        },
    }
}

pub open spec fn done_unit<S>(done: S) -> (S, SAction) {
    (done, SAction::Finish(SVal::Unit))
}

// ---------------------------------------------------------------- for

/// Where `for` is: waiting for the value to iterate over (holding the
/// `(name, body)` part), waiting for the bind of value `i`, running the body for
/// value `i`, or done.
pub enum ForState {
    Iterable(Val),
    Binding(String, Vec<Val>, usize, Vec<BlockItem>),
    Body(String, Vec<Val>, usize, Vec<BlockItem>, BlockState),
    Done,
}

pub enum SForState {
    Iterable(SVal),
    Binding(Seq<char>, Seq<SVal>, int, Seq<SBlockItem>),
    Body(Seq<char>, Seq<SVal>, int, Seq<SBlockItem>, SBlockState),
    Done,
}

pub open spec fn view_for(s: ForState) -> SForState {
    match s {
        ForState::Iterable(v) => SForState::Iterable(v@),
        ForState::Binding(n, vs, i, items) => SForState::Binding(n@, view_list(vs@), i as int, view_items(items@)),
        ForState::Body(n, vs, i, items, bs) => SForState::Body(
            n@,
            view_list(vs@),
            i as int,
            view_items(items@),
            view_state(bs),
        ),
        ForState::Done => SForState::Done,
    }
}

/// A state that names one of its values and a place in its block.
pub open spec fn for_valid(s: SForState) -> bool {
    match s {
        SForState::Binding(_, vs, i, _) => 0 <= i < vs.len(),
        SForState::Body(_, vs, i, items, bs) => 0 <= i < vs.len() && state_valid(items, bs),
        _ => true,
    }
}

/// `for` starts with the input `(iterable, (name, body))` by evaluating the iterable.
pub open spec fn for_start_spec(input: SVal) -> (SForState, SAction) {
    match input {
        SVal::Pair(a, b) => (SForState::Iterable(*b), SAction::Eval(*a)),
        _ => done_unit(SForState::Done),
    }
}

/// After one run of the body for value `i`: `break` ends `for` with the block's
/// output and a failed block with unit; otherwise the next value is bound, and
/// after the last value `for` ends with unit.
pub open spec fn for_after_body(
    name: Seq<char>,
    vs: Seq<SVal>,
    i: int,
    items: Seq<SBlockItem>,
    out: SVal,
    flow: CtrlFlow,
) -> (SForState, SAction) {
    match loop_on_flow_spec(out, flow) {
        Some(x) => (SForState::Done, SAction::Finish(x)),
        None => if i + 1 < vs.len() {
            (SForState::Binding(name, vs, i + 1, items), SAction::Bind(name, vs[i + 1]))
        } else {
            done_unit(SForState::Done)
        },
    }
}

/// The body for value `i` at block state `bs`: evaluate what the block asks
/// for, or go on once the block has finished.
pub open spec fn for_run_body(
    name: Seq<char>,
    vs: Seq<SVal>,
    i: int,
    items: Seq<SBlockItem>,
    bs: SBlockState,
) -> (SForState, SAction) {
    match block_task_spec(items, bs) {
        SBlockTask::Eval(e) => (SForState::Body(name, vs, i, items, bs), SAction::Eval(e)),
        SBlockTask::Finish(out, flow) => for_after_body(name, vs, i, items, out, flow),
    }
}

/// One step of `for`. The iterable's value gives the values to bind (see
/// `for_values_spec`); the second part must be `(symbol, body)` with a well formed
/// body; with no values `for` ends at once with unit. A refused bind ends it with
/// unit. Any event the state does not wait for ends the run with unit.
pub open spec fn for_step_spec(s: SForState, e: SEvent) -> (SForState, SAction) {
    match (s, e) {
        (SForState::Iterable(second), SEvent::Evaluated(v)) => match second {
            SVal::Pair(n, b) => match *n {
                SVal::Symbol(name) => match for_values_spec(v) {
                    Some(vs) => match body_items_spec(*b) {
                        Some(items) => if vs.len() > 0 {
                            (SForState::Binding(name, vs, 0, items), SAction::Bind(name, vs[0]))
                        } else {
                            done_unit(SForState::Done)
                        },
                        None => done_unit(SForState::Done),
                    },
                    None => done_unit(SForState::Done),
                },
                _ => done_unit(SForState::Done),
            },
            _ => done_unit(SForState::Done),
        },
        (SForState::Binding(name, vs, i, items), SEvent::Bound(ok)) => if ok {
            for_run_body(name, vs, i, items, SBlockState::At(0, SVal::Unit))
        } else {
            done_unit(SForState::Done)
        },
        (SForState::Body(name, vs, i, items, bs), SEvent::Evaluated(r)) => for_run_body(
            name,
            vs,
            i,
            items,
            block_on_result_spec(items, bs, r),
        ),
        _ => done_unit(SForState::Done),
    }
}

pub fn for_start(input: Val) -> (r: (ForState, Action))
    ensures
        (view_for(r.0), view_action(r.1)) == for_start_spec(input@),
        for_valid(view_for(r.0)),
{
    match input {
        Val::Pair(p) => {
            let p = *p;
            (ForState::Iterable(p.second), Action::Eval(p.first))
        },
        _ => (ForState::Done, Action::Finish(Val::Unit)),
    }
}

fn for_run_body_exec(name: String, vs: Vec<Val>, i: usize, items: Vec<BlockItem>, bs: BlockState) -> (r: (
    ForState,
    Action,
))
    requires
        i < vs@.len(),
        state_valid(view_items(items@), view_state(bs)),
    ensures
        (view_for(r.0), view_action(r.1)) == for_run_body(
            name@,
            view_list(vs@),
            i as int,
            view_items(items@),
            view_state(bs),
        ),
        for_valid(view_for(r.0)),
{
    proof {
        lemma_view_list(vs@);
    }
    match block_task(&items, &bs) {
        BlockTask::Eval(e) => (ForState::Body(name, vs, i, items, bs), Action::Eval(e)),
        BlockTask::Finish(out, flow) => match loop_on_flow(out, flow) {
            Some(x) => (ForState::Done, Action::Finish(x)),
            None => {
                if i < vs.len() - 1 {
                    let v = copy_val(&vs[i + 1]);
                    let n = name.clone();
                    (ForState::Binding(name, vs, i + 1, items), Action::Bind(n, v))
                } else {
                    (ForState::Done, Action::Finish(Val::Unit))
                }
            },
        },
    }
}

pub fn for_step(s: ForState, e: Event) -> (r: (ForState, Action))
    requires
        for_valid(view_for(s)),
    ensures
        (view_for(r.0), view_action(r.1)) == for_step_spec(view_for(s), view_event(e)),
        for_valid(view_for(r.0)),
{
    proof {
        reveal_with_fuel(view_val, 2);
    }
    match (s, e) {
        (ForState::Iterable(second), Event::Evaluated(v)) => {
            let Val::Pair(p) = second else {
                return (ForState::Done, Action::Finish(Val::Unit));
            };
            let p = *p;
            let Val::Symbol(name) = p.first else {
                return (ForState::Done, Action::Finish(Val::Unit));
            };
            let Some(vs) = for_values(&v) else {
                return (ForState::Done, Action::Finish(Val::Unit));
            };
            let Some(items) = body_items(p.second) else {
                return (ForState::Done, Action::Finish(Val::Unit));
            };
            proof {
                lemma_view_list(vs@);
            }
            if vs.len() > 0 {
                let v0 = copy_val(&vs[0]);
                let n = name.clone();
                (ForState::Binding(name, vs, 0, items), Action::Bind(n, v0))
            } else {
                (ForState::Done, Action::Finish(Val::Unit))
            }
        },
        (ForState::Binding(name, vs, i, items), Event::Bound(ok)) => {
            proof {
                lemma_view_list(vs@);
            }
            if ok {
                for_run_body_exec(name, vs, i, items, BlockState::At(0, Val::Unit))
            } else {
                (ForState::Done, Action::Finish(Val::Unit))
            }
        },
        (ForState::Body(name, vs, i, items, bs), Event::Evaluated(r)) => {
            proof {
                lemma_view_list(vs@);
            }
            let bs2 = block_on_result(&items, bs, r);
            for_run_body_exec(name, vs, i, items, bs2)
        },
        _ => (ForState::Done, Action::Finish(Val::Unit)),
    }
}

// ---------------------------------------------------------------- loop

/// Where `loop` is: evaluating its condition, running its body at a block
/// state, or done. The condition and the body's items are held throughout.
pub enum LoopState {
    Cond(Val, Vec<BlockItem>),
    Body(Val, Vec<BlockItem>, BlockState),
    Done,
}

pub enum SLoopState {
    Cond(SVal, Seq<SBlockItem>),
    Body(SVal, Seq<SBlockItem>, SBlockState),
    Done,
}

pub open spec fn view_loop(s: LoopState) -> SLoopState {
    match s {
        LoopState::Cond(c, items) => SLoopState::Cond(c@, view_items(items@)),
        LoopState::Body(c, items, bs) => SLoopState::Body(c@, view_items(items@), view_state(bs)),
        LoopState::Done => SLoopState::Done,
    }
}

pub open spec fn loop_valid(s: SLoopState) -> bool {
    match s {
        SLoopState::Body(_, items, bs) => state_valid(items, bs),
        _ => true,
    }
}

/// `loop` takes `(condition, body)`; a malformed body ends it at once with unit,
/// else it starts by evaluating the condition.
pub open spec fn loop_start_spec(input: SVal) -> (SLoopState, SAction) {
    match input {
        SVal::Pair(c, b) => match body_items_spec(*b) {
            Some(items) => (SLoopState::Cond(*c, items), SAction::Eval(*c)),
            None => done_unit(SLoopState::Done),
        },
        _ => done_unit(SLoopState::Done),
    }
}

/// The body at block state `bs`: evaluate what the block asks for; once it has
/// finished, `break` ends `loop` with the block's output, a failed block with
/// unit, and otherwise the condition is evaluated again.
pub open spec fn loop_run_body(c: SVal, items: Seq<SBlockItem>, bs: SBlockState) -> (SLoopState, SAction) {
    match block_task_spec(items, bs) {
        SBlockTask::Eval(e) => (SLoopState::Body(c, items, bs), SAction::Eval(e)),
        SBlockTask::Finish(out, flow) => match loop_on_flow_spec(out, flow) {
            Some(x) => (SLoopState::Done, SAction::Finish(x)),
            None => (SLoopState::Cond(c, items), SAction::Eval(c)),
        },
    }
}

/// One step of `loop`: a true condition runs the body from its first item; a
/// false one, or one that is no bit, ends `loop` with unit. Any event the state
/// does not wait for ends the run with unit.
pub open spec fn loop_step_spec(s: SLoopState, e: SEvent) -> (SLoopState, SAction) {
    match (s, e) {
        (SLoopState::Cond(c, items), SEvent::Evaluated(v)) => match v {
            SVal::Bit(true) => loop_run_body(c, items, SBlockState::At(0, SVal::Unit)),
            _ => done_unit(SLoopState::Done),
        },
        (SLoopState::Body(c, items, bs), SEvent::Evaluated(r)) => loop_run_body(
            c,
            items,
            block_on_result_spec(items, bs, r),
        ),
        _ => done_unit(SLoopState::Done),
    }
}

pub fn loop_start(input: Val) -> (r: (LoopState, Action))
    ensures
        (view_loop(r.0), view_action(r.1)) == loop_start_spec(input@),
        loop_valid(view_loop(r.0)),
{
    match input {
        Val::Pair(p) => {
            let p = *p;
            match body_items(p.second) {
                Some(items) => {
                    let c = copy_val(&p.first);
                    (LoopState::Cond(p.first, items), Action::Eval(c))
                },
                None => (LoopState::Done, Action::Finish(Val::Unit)),
            }
        },
        _ => (LoopState::Done, Action::Finish(Val::Unit)),
    }
}

fn loop_run_body_exec(c: Val, items: Vec<BlockItem>, bs: BlockState) -> (r: (LoopState, Action))
    requires
        state_valid(view_items(items@), view_state(bs)),
    ensures
        (view_loop(r.0), view_action(r.1)) == loop_run_body(c@, view_items(items@), view_state(bs)),
        loop_valid(view_loop(r.0)),
{
    match block_task(&items, &bs) {
        BlockTask::Eval(e) => (LoopState::Body(c, items, bs), Action::Eval(e)),
        BlockTask::Finish(out, flow) => match loop_on_flow(out, flow) {
            Some(x) => (LoopState::Done, Action::Finish(x)),
            None => {
                let c2 = copy_val(&c);
                (LoopState::Cond(c, items), Action::Eval(c2))
            },
        },
    }
}

pub fn loop_step(s: LoopState, e: Event) -> (r: (LoopState, Action))
    requires
        loop_valid(view_loop(s)),
    ensures
        (view_loop(r.0), view_action(r.1)) == loop_step_spec(view_loop(s), view_event(e)),
        loop_valid(view_loop(r.0)),
{
    match (s, e) {
        (LoopState::Cond(c, items), Event::Evaluated(v)) => match v {
            Val::Bit(true) => loop_run_body_exec(c, items, BlockState::At(0, Val::Unit)),
            _ => (LoopState::Done, Action::Finish(Val::Unit)),
        },
        (LoopState::Body(c, items, bs), Event::Evaluated(r)) => {
            let bs2 = block_on_result(&items, bs, r);
            loop_run_body_exec(c, items, bs2)
        },
        _ => (LoopState::Done, Action::Finish(Val::Unit)),
    }
}

// ---------------------------------------------------------------- match

/// Where `match` is: waiting for the matched value (holding `(map, default)`),
/// waiting for the key of branch `i`, running the chosen body, or done.
pub enum MatchRun {
    Value(Val),
    Key(Val, Vec<PairVal>, Val, usize),
    Body(Vec<BlockItem>, BlockState),
    Done,
}

pub enum SMatchRun {
    Value(SVal),
    Key(SVal, Seq<(SVal, SVal)>, SVal, int),
    Body(Seq<SBlockItem>, SBlockState),
    Done,
}

pub open spec fn view_match(s: MatchRun) -> SMatchRun {
    match s {
        MatchRun::Value(v) => SMatchRun::Value(v@),
        MatchRun::Key(v, es, d, i) => SMatchRun::Key(v@, view_entries(es@), d@, i as int),
        MatchRun::Body(items, bs) => SMatchRun::Body(view_items(items@), view_state(bs)),
        MatchRun::Done => SMatchRun::Done,
    }
}

pub open spec fn match_valid(s: SMatchRun) -> bool {
    match s {
        SMatchRun::Key(_, es, _, i) => 0 <= i < es.len(),
        SMatchRun::Body(items, bs) => state_valid(items, bs),
        _ => true,
    }
}

/// `match` takes `(expression, (map, default))` and starts by evaluating the expression.
pub open spec fn match_start_spec(input: SVal) -> (SMatchRun, SAction) {
    match input {
        SVal::Pair(x, rest) => (SMatchRun::Value(*rest), SAction::Eval(*x)),
        _ => done_unit(SMatchRun::Done),
    }
}

/// The chosen body at block state `bs`: evaluate what the block asks for, and
/// end `match` with the block's output once it has finished.
pub open spec fn match_run_body(items: Seq<SBlockItem>, bs: SBlockState) -> (SMatchRun, SAction) {
    match block_task_spec(items, bs) {
        SBlockTask::Eval(e) => (SMatchRun::Body(items, bs), SAction::Eval(e)),
        SBlockTask::Finish(out, _) => (SMatchRun::Done, SAction::Finish(out)),
    }
}

/// Runs a chosen body from its first item; a malformed body ends `match` with unit.
pub open spec fn match_body(b: SVal) -> (SMatchRun, SAction) {
    match body_items_spec(b) {
        Some(items) => match_run_body(items, SBlockState::At(0, SVal::Unit)),
        None => done_unit(SMatchRun::Done),
    }
}

/// One step of `match`. The keys of the map are evaluated in turn; the body of
/// the first whose value equals the matched value runs, and the default body
/// when none does. Any event the state does not wait for ends the run with unit.
pub open spec fn match_step_spec(s: SMatchRun, e: SEvent) -> (SMatchRun, SAction) {
    match (s, e) {
        (SMatchRun::Value(rest), SEvent::Evaluated(v)) => match rest {
            SVal::Pair(m, d) => match *m {
                SVal::Dict(es) => if es.len() > 0 {
                    (SMatchRun::Key(v, es, *d, 0), SAction::Eval(es[0].0))
                } else {
                    match_body(*d)
                },
                _ => done_unit(SMatchRun::Done),
            },
            _ => done_unit(SMatchRun::Done),
        },
        (SMatchRun::Key(v, es, d, i), SEvent::Evaluated(k)) => if k == v {
            match_body(es[i].1)
        } else if i + 1 < es.len() {
            (SMatchRun::Key(v, es, d, i + 1), SAction::Eval(es[i + 1].0))
        } else {
            match_body(d)
        },
        (SMatchRun::Body(items, bs), SEvent::Evaluated(r)) => match_run_body(
            items,
            block_on_result_spec(items, bs, r),
        ),
        _ => done_unit(SMatchRun::Done),
    }
}

pub fn match_begin(input: Val) -> (r: (MatchRun, Action))
    ensures
        (view_match(r.0), view_action(r.1)) == match_start_spec(input@),
        match_valid(view_match(r.0)),
{
    match input {
        Val::Pair(p) => {
            let p = *p;
            (MatchRun::Value(p.second), Action::Eval(p.first))
        },
        _ => (MatchRun::Done, Action::Finish(Val::Unit)),
    }
}

fn match_run_body_exec(items: Vec<BlockItem>, bs: BlockState) -> (r: (MatchRun, Action))
    requires
        state_valid(view_items(items@), view_state(bs)),
    ensures
        (view_match(r.0), view_action(r.1)) == match_run_body(view_items(items@), view_state(bs)),
        match_valid(view_match(r.0)),
{
    match block_task(&items, &bs) {
        BlockTask::Eval(e) => (MatchRun::Body(items, bs), Action::Eval(e)),
        BlockTask::Finish(out, _) => (MatchRun::Done, Action::Finish(out)),
    }
}

fn match_body_exec(b: Val) -> (r: (MatchRun, Action))
    ensures
        (view_match(r.0), view_action(r.1)) == match_body(b@),
        match_valid(view_match(r.0)),
{
    match body_items(b) {
        Some(items) => match_run_body_exec(items, BlockState::At(0, Val::Unit)),
        None => (MatchRun::Done, Action::Finish(Val::Unit)),
    }
}

pub fn match_step(s: MatchRun, e: Event) -> (r: (MatchRun, Action))
    requires
        match_valid(view_match(s)),
    ensures
        (view_match(r.0), view_action(r.1)) == match_step_spec(view_match(s), view_event(e)),
        match_valid(view_match(r.0)),
{
    proof {
        reveal_with_fuel(view_val, 2);
    }
    match (s, e) {
        (MatchRun::Value(rest), Event::Evaluated(v)) => {
            let Val::Pair(p) = rest else {
                return (MatchRun::Done, Action::Finish(Val::Unit));
            };
            let p = *p;
            let Val::Dict(m) = p.first else {
                return (MatchRun::Done, Action::Finish(Val::Unit));
            };
            let es = m.entries;
            proof {
                lemma_view_entries(es@);
            }
            if es.len() > 0 {
                let k0 = copy_val(&es[0].first);
                (MatchRun::Key(v, es, p.second, 0), Action::Eval(k0))
            } else {
                match_body_exec(p.second)
            }
        },
        (MatchRun::Key(v, es, d, i), Event::Evaluated(k)) => {
            proof {
                lemma_view_entries(es@);
            }
            if val_eq(&k, &v) {
                match_body_exec(copy_val(&es[i].second))
            } else if i < es.len() - 1 {
                let k1 = copy_val(&es[i + 1].first);
                (MatchRun::Key(v, es, d, i + 1), Action::Eval(k1))
            } else {
                match_body_exec(d)
            }
        },
        (MatchRun::Body(items, bs), Event::Evaluated(r)) => {
            let bs2 = block_on_result(&items, bs, r);
            match_run_body_exec(items, bs2)
        },
        _ => (MatchRun::Done, Action::Finish(Val::Unit)),
    }
}

// ---------------------------------------------------------------- runs

/// The actions a `for` run asks for in answer to a sequence of events.
pub open spec fn for_trace(s: SForState, evs: Seq<SEvent>) -> Seq<SAction>
    decreases evs.len(),
{
    if evs.len() == 0 {
        Seq::empty()
    } else {
        let (s2, a) = for_step_spec(s, evs[0]);
        seq![a] + for_trace(s2, evs.drop_first())
    }
}

/// The actions a `loop` run asks for in answer to a sequence of events.
pub open spec fn loop_trace(s: SLoopState, evs: Seq<SEvent>) -> Seq<SAction>
    decreases evs.len(),
{
    if evs.len() == 0 {
        Seq::empty()
    } else {
        let (s2, a) = loop_step_spec(s, evs[0]);
        seq![a] + loop_trace(s2, evs.drop_first())
    }
}

/// The actions a `match` run asks for in answer to a sequence of events.
pub open spec fn match_trace(s: SMatchRun, evs: Seq<SEvent>) -> Seq<SAction>
    decreases evs.len(),
{
    if evs.len() == 0 {
        Seq::empty()
    } else {
        let (s2, a) = match_step_spec(s, evs[0]);
        seq![a] + match_trace(s2, evs.drop_first())
    }
}

/// Each value evaluated in turn.
pub open spec fn evaluated(rs: Seq<SVal>) -> Seq<SEvent> {
    rs.map_values(|r: SVal| SEvent::Evaluated(r))
}

/// For each round of `for`: the bind succeeds, then the body gives `rs[k]`.
pub open spec fn bind_rounds(rs: Seq<SVal>) -> Seq<SEvent>
    decreases rs.len(),
{
    if rs.len() == 0 {
        Seq::empty()
    } else {
        seq![SEvent::Bound(true), SEvent::Evaluated(rs[0])] + bind_rounds(rs.drop_first())
    }
}

/// What `for` with a one-expression body asks for, starting right after the bind
/// of `vs[0]`: for each value, evaluate the body, then bind the next value, or
/// finish with unit after the last.
pub open spec fn for_body_rounds(name: Seq<char>, vs: Seq<SVal>, b: SVal) -> Seq<SAction>
    decreases vs.len(),
{
    if vs.len() == 0 {
        Seq::empty()
    } else {
        seq![
            SAction::Eval(b),
            if vs.len() > 1 {
                SAction::Bind(name, vs[1])
            } else {
                SAction::Finish(SVal::Unit)
            },
        ] + for_body_rounds(name, vs.drop_first(), b)
    }
}

/// For each round of `loop`: the condition holds, then the body gives `rs[k]`.
pub open spec fn loop_rounds(rs: Seq<SVal>) -> Seq<SEvent>
    decreases rs.len(),
{
    if rs.len() == 0 {
        Seq::empty()
    } else {
        seq![SEvent::Evaluated(SVal::Bit(true)), SEvent::Evaluated(rs[0])] + loop_rounds(rs.drop_first())
    }
}

/// What `loop` with a one-expression body asks for in `n` rounds: the body, then
/// the condition again.
pub open spec fn loop_body_rounds(c: SVal, b: SVal, n: nat) -> Seq<SAction>
    decreases n,
{
    if n == 0 {
        Seq::empty()
    } else {
        seq![SAction::Eval(b), SAction::Eval(c)] + loop_body_rounds(c, b, (n - 1) as nat)
    }
}

proof fn lemma_seq_head<A>(a: A, rest: Seq<A>)
    ensures
        (seq![a] + rest).len() == rest.len() + 1,
        (seq![a] + rest)[0] == a,
        (seq![a] + rest).drop_first() == rest,
{
    assert((seq![a] + rest).drop_first() =~= rest);
}

proof fn lemma_seq_two<A>(a: A, b: A, rest: Seq<A>)
    ensures
        seq![a, b] + rest == seq![a] + (seq![b] + rest),
{
    assert(seq![a, b] + rest =~= seq![a] + (seq![b] + rest));
}

proof fn lemma_for_trace_cons(s: SForState, e: SEvent, rest: Seq<SEvent>)
    ensures
        for_trace(s, seq![e] + rest) == seq![for_step_spec(s, e).1] + for_trace(for_step_spec(s, e).0, rest),
{
    lemma_seq_head(e, rest);
}

proof fn lemma_loop_trace_cons(s: SLoopState, e: SEvent, rest: Seq<SEvent>)
    ensures
        loop_trace(s, seq![e] + rest) == seq![loop_step_spec(s, e).1] + loop_trace(loop_step_spec(s, e).0, rest),
{
    lemma_seq_head(e, rest);
}

proof fn lemma_match_trace_cons(s: SMatchRun, e: SEvent, rest: Seq<SEvent>)
    ensures
        match_trace(s, seq![e] + rest) == seq![match_step_spec(s, e).1] + match_trace(match_step_spec(s, e).0, rest),
{
    lemma_seq_head(e, rest);
}

/// Two events in a row.
proof fn lemma_two_events(a: SEvent, b: SEvent)
    ensures
        seq![a, b] == seq![a] + (seq![b] + Seq::<SEvent>::empty()),
{
    assert(seq![a, b] =~= seq![a] + (seq![b] + Seq::<SEvent>::empty()));
}

proof fn lemma_for_rounds(name: Seq<char>, vs: Seq<SVal>, i: int, b: SVal, rs: Seq<SVal>)
    requires
        0 <= i < vs.len(),
        rs.len() == vs.len() - i,
    ensures
        for_trace(SForState::Binding(name, vs, i, seq![SBlockItem::Normal(b)]), bind_rounds(rs))
            == for_body_rounds(name, vs.subrange(i, vs.len() as int), b),
    decreases vs.len() - i,
{
    let items = seq![SBlockItem::Normal(b)];
    let rest = bind_rounds(rs.drop_first());
    let tail = seq![SEvent::Evaluated(rs[0])] + rest;
    lemma_seq_two(SEvent::Bound(true), SEvent::Evaluated(rs[0]), rest);
    lemma_seq_head(SEvent::Bound(true), tail);
    lemma_seq_head(SEvent::Evaluated(rs[0]), rest);
    let s1 = SForState::Body(name, vs, i, items, SBlockState::At(0, SVal::Unit));
    assert(for_step_spec(SForState::Binding(name, vs, i, items), SEvent::Bound(true)) == (s1, SAction::Eval(b)));
    lemma_for_trace_cons(SForState::Binding(name, vs, i, items), SEvent::Bound(true), tail);
    lemma_for_trace_cons(s1, SEvent::Evaluated(rs[0]), rest);
    let sub = vs.subrange(i, vs.len() as int);
    assert(sub.drop_first() =~= vs.subrange(i + 1, vs.len() as int));
    if i + 1 < vs.len() {
        let s2 = SForState::Binding(name, vs, i + 1, items);
        assert(for_step_spec(s1, SEvent::Evaluated(rs[0])) == (s2, SAction::Bind(name, vs[i + 1])));
        lemma_for_rounds(name, vs, i + 1, b, rs.drop_first());
        assert(for_trace(s2, rest) == for_body_rounds(name, sub.drop_first(), b));
    } else {
        assert(for_step_spec(s1, SEvent::Evaluated(rs[0])) == (SForState::Done, SAction::Finish(SVal::Unit)));
        assert(rs.drop_first().len() == 0);
        assert(rest == Seq::<SEvent>::empty());
        assert(sub.drop_first().len() == 0);
    }
    lemma_seq_two(SAction::Eval(b), if sub.len() > 1 { SAction::Bind(name, sub[1]) } else { SAction::Finish(SVal::Unit) }, for_body_rounds(name, sub.drop_first(), b));
}

/// `for` over a count with a one-expression body: the count is evaluated first;
/// then the name is bound to 0, 1, ..., n - 1 in turn, the body is evaluated
/// after each bind, and the run ends with unit. A count of 0 ends it at once.
pub proof fn lemma_for_count(e: SVal, name: Seq<char>, b: SVal, n: int, rs: Seq<SVal>)
    requires
        0 <= n <= usize::MAX,
        rs.len() == n,
        !(b is List),
    ensures
        for_start_spec(sval_pair(e, sval_pair(SVal::Symbol(name), b)))
            == (SForState::Iterable(sval_pair(SVal::Symbol(name), b)), SAction::Eval(e)),
        for_trace(
            SForState::Iterable(sval_pair(SVal::Symbol(name), b)),
            seq![SEvent::Evaluated(SVal::Int(n))] + bind_rounds(rs),
        ) == if n == 0 {
            seq![SAction::Finish(SVal::Unit)]
        } else {
            seq![SAction::Bind(name, SVal::Int(0))] + for_body_rounds(
                name,
                Seq::new(n as nat, |i: int| SVal::Int(i)),
                b,
            )
        },
{
    let vs = Seq::new(n as nat, |i: int| SVal::Int(i));
    let items = seq![SBlockItem::Normal(b)];
    let s0 = SForState::Iterable(sval_pair(SVal::Symbol(name), b));
    lemma_seq_head(SEvent::Evaluated(SVal::Int(n)), bind_rounds(rs));
    assert(for_values_spec(SVal::Int(n)) == Some(vs));
    assert(body_items_spec(b) == Some(items));
    if n == 0 {
        assert(rs.len() == 0);
        assert(bind_rounds(rs) == Seq::<SEvent>::empty());
        assert(for_step_spec(s0, SEvent::Evaluated(SVal::Int(n))).1 == SAction::Finish(SVal::Unit));
        assert(for_trace(for_step_spec(s0, SEvent::Evaluated(SVal::Int(n))).0, bind_rounds(rs)) == Seq::<SAction>::empty());
        assert(seq![SAction::Finish(SVal::Unit)] + Seq::<SAction>::empty() =~= seq![SAction::Finish(SVal::Unit)]);
    } else {
        let s1 = SForState::Binding(name, vs, 0, items);
        assert(for_step_spec(s0, SEvent::Evaluated(SVal::Int(n))) == (s1, SAction::Bind(name, vs[0])));
        lemma_for_rounds(name, vs, 0, b, rs);
        assert(vs.subrange(0, vs.len() as int) =~= vs);
    }
}

/// `break` in the body of `for` returns at once: once its condition is true, its
/// body is evaluated and its value ends the run, whatever values are left.
pub proof fn lemma_for_break(
    name: Seq<char>,
    vs: Seq<SVal>,
    i: int,
    items: Seq<SBlockItem>,
    k: int,
    out: SVal,
    c: SVal,
    bd: SVal,
    r: SVal,
)
    requires
        0 <= i < vs.len(),
        0 <= k < items.len(),
        items[k] == SBlockItem::Exit(Exit::Break, c, bd),
    ensures
        for_trace(
            SForState::Body(name, vs, i, items, SBlockState::At(k, out)),
            seq![SEvent::Evaluated(SVal::Bit(true)), SEvent::Evaluated(r)],
        ) == seq![SAction::Eval(bd), SAction::Finish(r)],
{
    let evs = seq![SEvent::Evaluated(SVal::Bit(true)), SEvent::Evaluated(r)];
    let s1 = SForState::Body(name, vs, i, items, SBlockState::Body(k, Exit::Break));
    lemma_two_events(SEvent::Evaluated(SVal::Bit(true)), SEvent::Evaluated(r));
    lemma_for_trace_cons(SForState::Body(name, vs, i, items, SBlockState::At(k, out)), evs[0], seq![SEvent::Evaluated(r)] + Seq::<SEvent>::empty());
    lemma_for_trace_cons(s1, SEvent::Evaluated(r), Seq::<SEvent>::empty());
    assert(evs.drop_first() =~= seq![SEvent::Evaluated(r)]);
    assert(seq![SEvent::Evaluated(r)].drop_first() =~= Seq::<SEvent>::empty());
    assert(for_step_spec(SForState::Body(name, vs, i, items, SBlockState::At(k, out)), evs[0]) == (s1, SAction::Eval(bd)));
    assert(for_step_spec(s1, SEvent::Evaluated(r)) == (SForState::Done, SAction::Finish(r)));
    assert(seq![SAction::Eval(bd)] + (seq![SAction::Finish(r)] + Seq::<SAction>::empty()) =~= seq![
        SAction::Eval(bd),
        SAction::Finish(r),
    ]);
}

proof fn lemma_loop_rounds(c: SVal, b: SVal, rs: Seq<SVal>)
    ensures
        loop_trace(SLoopState::Cond(c, seq![SBlockItem::Normal(b)]), loop_rounds(rs) + seq![SEvent::Evaluated(SVal::Bit(false))])
            == loop_body_rounds(c, b, rs.len()) + seq![SAction::Finish(SVal::Unit)],
    decreases rs.len(),
{
    let items = seq![SBlockItem::Normal(b)];
    let s0 = SLoopState::Cond(c, items);
    let last = seq![SEvent::Evaluated(SVal::Bit(false))];
    if rs.len() == 0 {
        assert(loop_rounds(rs) + last =~= last);
        lemma_seq_head(SEvent::Evaluated(SVal::Bit(false)), Seq::<SEvent>::empty());
        assert(last =~= seq![SEvent::Evaluated(SVal::Bit(false))] + Seq::<SEvent>::empty());
        assert(loop_step_spec(s0, SEvent::Evaluated(SVal::Bit(false))) == (SLoopState::Done, SAction::Finish(SVal::Unit)));
        lemma_loop_trace_cons(s0, SEvent::Evaluated(SVal::Bit(false)), Seq::<SEvent>::empty());
        assert(loop_body_rounds(c, b, 0) + seq![SAction::Finish(SVal::Unit)] =~= seq![SAction::Finish(SVal::Unit)] + Seq::<SAction>::empty());
    } else {
        let rest = loop_rounds(rs.drop_first()) + last;
        let evs = loop_rounds(rs) + last;
        assert(evs =~= seq![SEvent::Evaluated(SVal::Bit(true))] + (seq![SEvent::Evaluated(rs[0])] + rest));
        lemma_seq_head(SEvent::Evaluated(SVal::Bit(true)), seq![SEvent::Evaluated(rs[0])] + rest);
        lemma_seq_head(SEvent::Evaluated(rs[0]), rest);
        let s1 = SLoopState::Body(c, items, SBlockState::At(0, SVal::Unit));
        assert(loop_step_spec(s0, SEvent::Evaluated(SVal::Bit(true))) == (s1, SAction::Eval(b)));
        assert(loop_step_spec(s1, SEvent::Evaluated(rs[0])) == (s0, SAction::Eval(c)));
        lemma_loop_trace_cons(s0, SEvent::Evaluated(SVal::Bit(true)), seq![SEvent::Evaluated(rs[0])] + rest);
        lemma_loop_trace_cons(s1, SEvent::Evaluated(rs[0]), rest);
        lemma_loop_rounds(c, b, rs.drop_first());
        assert(loop_body_rounds(c, b, rs.len()) + seq![SAction::Finish(SVal::Unit)] =~= seq![SAction::Eval(b)] + (
        seq![SAction::Eval(c)] + (loop_body_rounds(c, b, rs.drop_first().len()) + seq![SAction::Finish(SVal::Unit)])));
    }
}

/// `loop` with a one-expression body: while the condition is true the body is
/// evaluated and then the condition again; a false condition ends the run with unit.
pub proof fn lemma_loop_run(c: SVal, b: SVal, rs: Seq<SVal>)
    requires
        !(b is List),
    ensures
        loop_start_spec(sval_pair(c, b)) == (SLoopState::Cond(c, seq![SBlockItem::Normal(b)]), SAction::Eval(c)),
        loop_trace(SLoopState::Cond(c, seq![SBlockItem::Normal(b)]), loop_rounds(rs) + seq![SEvent::Evaluated(SVal::Bit(false))])
            == loop_body_rounds(c, b, rs.len()) + seq![SAction::Finish(SVal::Unit)],
{
    lemma_loop_rounds(c, b, rs);
}

/// `break` in the body of `loop` returns at once with the value of its body.
pub proof fn lemma_loop_break(c: SVal, items: Seq<SBlockItem>, k: int, out: SVal, cond: SVal, bd: SVal, r: SVal)
    requires
        0 <= k < items.len(),
        items[k] == SBlockItem::Exit(Exit::Break, cond, bd),
    ensures
        loop_trace(
            SLoopState::Body(c, items, SBlockState::At(k, out)),
            seq![SEvent::Evaluated(SVal::Bit(true)), SEvent::Evaluated(r)],
        ) == seq![SAction::Eval(bd), SAction::Finish(r)],
{
    let evs = seq![SEvent::Evaluated(SVal::Bit(true)), SEvent::Evaluated(r)];
    let s1 = SLoopState::Body(c, items, SBlockState::Body(k, Exit::Break));
    lemma_two_events(SEvent::Evaluated(SVal::Bit(true)), SEvent::Evaluated(r));
    lemma_loop_trace_cons(SLoopState::Body(c, items, SBlockState::At(k, out)), evs[0], seq![SEvent::Evaluated(r)] + Seq::<SEvent>::empty());
    lemma_loop_trace_cons(s1, SEvent::Evaluated(r), Seq::<SEvent>::empty());
    assert(evs.drop_first() =~= seq![SEvent::Evaluated(r)]);
    assert(seq![SEvent::Evaluated(r)].drop_first() =~= Seq::<SEvent>::empty());
    assert(loop_step_spec(SLoopState::Body(c, items, SBlockState::At(k, out)), evs[0]) == (s1, SAction::Eval(bd)));
    assert(loop_step_spec(s1, SEvent::Evaluated(r)) == (SLoopState::Done, SAction::Finish(r)));
    assert(seq![SAction::Eval(bd)] + (seq![SAction::Finish(r)] + Seq::<SAction>::empty()) =~= seq![
        SAction::Eval(bd),
        SAction::Finish(r),
    ]);
}

/// `match` tries its keys in order: from key `i`, while the keys' values differ
/// from the matched value the next key is evaluated; the first equal one runs its
/// branch's body.
pub proof fn lemma_match_keys(v: SVal, es: Seq<(SVal, SVal)>, d: SVal, i: int, ks: Seq<SVal>)
    requires
        0 <= i,
        ks.len() >= 1,
        i + ks.len() <= es.len(),
        forall|j: int| 0 <= j < ks.len() - 1 ==> ks[j] != v,
        ks.last() == v,
    ensures
        match_trace(SMatchRun::Key(v, es, d, i), evaluated(ks)) == Seq::new(
            (ks.len() - 1) as nat,
            |j: int| SAction::Eval(es[i + j + 1].0),
        ).push(match_body(es[i + ks.len() - 1].1).1),
    decreases ks.len(),
{
    let evs = evaluated(ks);
    assert(evs =~= seq![SEvent::Evaluated(ks[0])] + evaluated(ks.drop_first()));
    lemma_seq_head(SEvent::Evaluated(ks[0]), evaluated(ks.drop_first()));
    let m = ks.len() - 1;
    if ks.len() == 1 {
        assert(ks[0] == v);
        let (s2, a) = match_body(es[i].1);
        assert(match_step_spec(SMatchRun::Key(v, es, d, i), SEvent::Evaluated(ks[0])) == (s2, a));
        lemma_match_trace_cons(SMatchRun::Key(v, es, d, i), SEvent::Evaluated(ks[0]), evaluated(ks.drop_first()));
        assert(evaluated(ks.drop_first()) =~= Seq::<SEvent>::empty());
        assert(Seq::new(0nat, |j: int| SAction::Eval(es[i + j + 1].0)).push(a) =~= seq![a] + Seq::<SAction>::empty());
    } else {
        assert(ks[0] != v);
        let s1 = SMatchRun::Key(v, es, d, i + 1);
        assert(match_step_spec(SMatchRun::Key(v, es, d, i), SEvent::Evaluated(ks[0])) == (s1, SAction::Eval(es[i + 1].0)));
        lemma_match_trace_cons(SMatchRun::Key(v, es, d, i), SEvent::Evaluated(ks[0]), evaluated(ks.drop_first()));
        let ks2 = ks.drop_first();
        assert(forall|j: int| 0 <= j < ks2.len() - 1 ==> ks2[j] == ks[j + 1]);
        lemma_match_keys(v, es, d, i + 1, ks2);
        let a = match_body(es[i + ks.len() - 1].1).1;
        assert(Seq::new(m as nat, |j: int| SAction::Eval(es[i + j + 1].0)).push(a) =~= seq![SAction::Eval(es[i + 1].0)]
            + Seq::new((ks2.len() - 1) as nat, |j: int| SAction::Eval(es[i + 1 + j + 1].0)).push(a));
    }
}

/// The block state after the results `rs` were handed in, one after another.
pub open spec fn block_after(items: Seq<SBlockItem>, bs: SBlockState, rs: Seq<SVal>) -> SBlockState
    decreases rs.len(),
{
    if rs.len() == 0 {
        bs
    } else {
        block_after(items, block_on_result_spec(items, bs, rs[0]), rs.drop_first())
    }
}

/// Every item is an ordinary expression.
pub open spec fn all_normal(items: Seq<SBlockItem>) -> bool {
    forall|j: int| 0 <= j < items.len() ==> #[trigger] items[j] is Normal
}

proof fn lemma_block_after_normal(items: Seq<SBlockItem>, i: int, out: SVal, rs: Seq<SVal>)
    requires
        all_normal(items),
        0 <= i,
        i + rs.len() <= items.len(),
    ensures
        block_after(items, SBlockState::At(i, out), rs) == SBlockState::At(
            i + rs.len(),
            if rs.len() == 0 { out } else { rs.last() },
        ),
    decreases rs.len(),
{
    if rs.len() > 0 {
        assert(items[i] is Normal);
        lemma_block_after_normal(items, i + 1, rs[0], rs.drop_first());
        if rs.len() > 1 {
            assert(rs.drop_first().last() == rs.last());
        }
    }
}

/// A block of expressions evaluates them in order, each once, and gives the value
/// of the last one (unit for an empty block), running to its end.
pub proof fn lemma_block_of_expressions(items: Seq<SBlockItem>, rs: Seq<SVal>)
    requires
        all_normal(items),
        rs.len() == items.len(),
    ensures
        forall|j: int|
            0 <= j < items.len() ==> block_task_spec(items, block_after(items, SBlockState::At(0, SVal::Unit), #[trigger] rs.take(j)))
                == SBlockTask::Eval(items[j]->Normal_0),
        block_task_spec(items, block_after(items, SBlockState::At(0, SVal::Unit), rs)) == SBlockTask::Finish(
            if rs.len() == 0 { SVal::Unit } else { rs.last() },
            CtrlFlow::Pass,
        ),
{
    assert forall|j: int|
        0 <= j < items.len() implies block_task_spec(items, block_after(items, SBlockState::At(0, SVal::Unit), #[trigger] rs.take(j)))
            == SBlockTask::Eval(items[j]->Normal_0) by {
        lemma_block_after_normal(items, 0, SVal::Unit, rs.take(j));
        assert(items[j] is Normal);
    }
    lemma_block_after_normal(items, 0, SVal::Unit, rs);
}

} // verus!
