//! The decisions of control flow: blocks with `break` and `continue`, the
//! branches of `?`, and what `for` iterates over. Evaluating expressions is left
//! to the caller: a block is run by asking `block_task` what to evaluate next and
//! handing the result to `block_on_result`. `flow` builds the runs of `for`,
//! `loop` and `match` on these steps.
use crate::types::bigint::{big_from_usize, big_to_usize, int_value};
use crate::types::copy::{copy_val, lemma_view_entries, lemma_view_list};
use crate::types::val::Contract;
use crate::types::vars::var_put;
use crate::types::val::{sval_pair, view_entries, view_list, view_val, PairVal, SVal, Val};
use vstd::prelude::*;

verus! {

/// How a block is left early.
#[derive(Clone, Copy, PartialEq, Eq, Structural)]
pub enum Exit {
    Continue,
    Break,
}

/// How a block ended: it ran to its end, it failed, or it was left early.
#[derive(Clone, Copy, PartialEq, Eq, Structural)]
pub enum CtrlFlow {
    Pass,
    Error,
    Exit(Exit),
}

/// An item of a block: an expression, or `break`/`continue` called on
/// `(condition, body)`.
pub enum BlockItem {
    Normal(Val),
    Exit(Exit, Val, Val),
}

pub enum SBlockItem {
    Normal(SVal),
    Exit(Exit, SVal, SVal),
}

pub open spec fn view_item(b: BlockItem) -> SBlockItem {
    match b {
        BlockItem::Normal(v) => SBlockItem::Normal(v@),
        BlockItem::Exit(e, c, b) => SBlockItem::Exit(e, c@, b@),
    }
}

pub open spec fn view_items(s: Seq<BlockItem>) -> Seq<SBlockItem> {
    s.map_values(|b: BlockItem| view_item(b))
}

pub open spec fn parse_exit_spec(s: Seq<char>) -> Option<Exit> {
    if s == "break"@ {
        Some(Exit::Break)
    } else if s == "continue"@ {
        Some(Exit::Continue)
    } else {
        None
    }
}

/// A call of `break` or `continue` is an exit and must take a pair; anything else
/// is an ordinary expression.
pub open spec fn parse_block_item_spec(v: SVal) -> Option<SBlockItem> {
    match v {
        SVal::Call(_, f, _, input) => match *f {
            SVal::Symbol(s) => match parse_exit_spec(s) {
                Some(e) => match *input {
                    SVal::Pair(c, b) => Some(SBlockItem::Exit(e, *c, *b)),
                    _ => None,
                },
                None => Some(SBlockItem::Normal(v)),
            },
            _ => Some(SBlockItem::Normal(v)),
        },
        _ => Some(SBlockItem::Normal(v)),
    }
}

pub open spec fn parse_block_spec(s: Seq<SVal>) -> Option<Seq<SBlockItem>>
    decreases s.len(),
{
    if s.len() == 0 {
        Some(Seq::empty())
    } else {
        match parse_block_spec(s.drop_last()) {
            Some(init) => match parse_block_item_spec(s.last()) {
                Some(b) => Some(init.push(b)),
                None => None,
            },
            None => None,
        }
    }
}

fn word_is(w: &String, lit: &str) -> (r: bool)
    ensures
        r == (w@ == lit@),
{
    *w == String::from_str(lit)
}

pub fn parse_exit(s: &String) -> (r: Option<Exit>)
    ensures
        r == parse_exit_spec(s@),
{
    if word_is(s, "break") {
        Some(Exit::Break)
    } else if word_is(s, "continue") {
        Some(Exit::Continue)
    } else {
        None
    }
}

pub fn parse_block_item(v: Val) -> (r: Option<BlockItem>)
    ensures
        match parse_block_item_spec(v@) {
            Some(b) => r matches Some(x) && view_item(x) == b,
            None => r is None,
        },
{
    proof {
        reveal_with_fuel(view_val, 2);
    }
    let exit = match &v {
        Val::Call(c) => match &c.func {
            Val::Symbol(s) => parse_exit(s),
            _ => None,
        },
        _ => None,
    };
    match exit {
        None => Some(BlockItem::Normal(v)),
        Some(e) => {
            let Val::Call(c) = v else {
                return None;
            };
            let c = *c;
            let Val::Pair(p) = c.input else {
                return None;
            };
            let p = *p;
            Some(BlockItem::Exit(e, p.first, p.second))
        },
    }
}

proof fn lemma_parse_block_prefix_none(s: Seq<SVal>, k: int)
    requires
        0 <= k <= s.len(),
        parse_block_spec(s.take(k)) is None,
    ensures
        parse_block_spec(s) is None,
    decreases s.len(),
{
    if k < s.len() {
        assert(s.drop_last().take(k) =~= s.take(k));
        lemma_parse_block_prefix_none(s.drop_last(), k);
    } else {
        assert(s.take(k) =~= s);
    }
}

/// The items of a block, when each of them is well formed.
pub fn parse_block(l: &Vec<Val>) -> (r: Option<Vec<BlockItem>>)
    ensures
        match parse_block_spec(view_list(l@)) {
            Some(bs) => r matches Some(x) && view_items(x@) == bs,
            None => r is None,
        },
{
    let ghost s = view_list(l@);
    proof {
        lemma_view_list(l@);
    }
    let mut out: Vec<BlockItem> = Vec::new();
    let mut i: usize = 0;
    assert(s.take(0) =~= Seq::<SVal>::empty());
    assert(view_items(out@) =~= Seq::<SBlockItem>::empty());
    while i < l.len()
        invariant
            i <= l@.len(),
            s == view_list(l@),
            s.len() == l@.len(),
            forall|j: int| 0 <= j < l@.len() ==> #[trigger] s[j] == view_val(l@[j]),
            parse_block_spec(s.take(i as int)) == Some(view_items(out@)),
        decreases l.len() - i,
    {
        proof {
            assert(s.take(i + 1).drop_last() =~= s.take(i as int));
            assert(s.take(i + 1).last() == s[i as int]);
        }
        match parse_block_item(copy_val(&l[i])) {
            Some(b) => {
                proof {
                    assert(view_items(out@.push(b)) =~= view_items(out@).push(view_item(b)));
                }
                out.push(b);
                i = i + 1;
            },
            None => {
                proof {
                    lemma_parse_block_prefix_none(s, i + 1);
                }
                return None;
            },
        }
    }
    assert(s.take(l.len() as int) =~= s);
    Some(out)
}

/// Where a block is: at an item with the output so far, at the body of an exit
/// whose condition held, or finished.
pub enum BlockState {
    At(usize, Val),
    Body(usize, Exit),
    Finished(Val, CtrlFlow),
}

/// What to do next: evaluate an expression, or finish with an output.
pub enum BlockTask {
    Eval(Val),
    Finish(Val, CtrlFlow),
}

pub enum SBlockTask {
    Eval(SVal),
    Finish(SVal, CtrlFlow),
}

pub enum SBlockState {
    At(int, SVal),
    Body(int, Exit),
    Finished(SVal, CtrlFlow),
}

pub open spec fn view_state(s: BlockState) -> SBlockState {
    match s {
        BlockState::At(i, v) => SBlockState::At(i as int, v@),
        BlockState::Body(i, e) => SBlockState::Body(i as int, e),
        BlockState::Finished(v, f) => SBlockState::Finished(v@, f),
    }
}

pub open spec fn view_task(t: BlockTask) -> SBlockTask {
    match t {
        BlockTask::Eval(v) => SBlockTask::Eval(v@),
        BlockTask::Finish(v, f) => SBlockTask::Finish(v@, f),
    }
}

/// A state that names an item of the block.
pub open spec fn state_valid(items: Seq<SBlockItem>, s: SBlockState) -> bool {
    match s {
        SBlockState::At(i, _) => 0 <= i <= items.len(),
        SBlockState::Body(i, _) => 0 <= i < items.len() && items[i] is Exit,
        SBlockState::Finished(..) => true,
    }
}

/// The next thing to do: an ordinary item is evaluated, an exit's condition is
/// evaluated, a held exit's body is evaluated; past the last item the block
/// finishes with the output of the last item.
pub open spec fn block_task_spec(items: Seq<SBlockItem>, s: SBlockState) -> SBlockTask {
    match s {
        SBlockState::At(i, out) => if i >= items.len() {
            SBlockTask::Finish(out, CtrlFlow::Pass)
        } else {
            match items[i] {
                SBlockItem::Normal(v) => SBlockTask::Eval(v),
                SBlockItem::Exit(_, c, _) => SBlockTask::Eval(c),
            }
        },
        SBlockState::Body(i, _) => match items[i] {
            SBlockItem::Exit(_, _, b) => SBlockTask::Eval(b),
            SBlockItem::Normal(v) => SBlockTask::Eval(v),
        },
        SBlockState::Finished(v, f) => SBlockTask::Finish(v, f),
    }
}

/// The state after the evaluation asked for gave `result`: an ordinary item's
/// result becomes the output; a condition must be a bit, true leads to the body
/// and false to the next item with unit as output; a body's result ends the block.
pub open spec fn block_on_result_spec(items: Seq<SBlockItem>, s: SBlockState, result: SVal) -> SBlockState {
    match s {
        SBlockState::At(i, out) => if i >= items.len() {
            s
        } else {
            match items[i] {
                SBlockItem::Normal(_) => SBlockState::At(i + 1, result),
                SBlockItem::Exit(e, _, _) => match result {
                    SVal::Bit(true) => SBlockState::Body(i, e),
                    SVal::Bit(false) => SBlockState::At(i + 1, SVal::Unit),
                    _ => SBlockState::Finished(SVal::Unit, CtrlFlow::Error),
                },
            }
        },
        SBlockState::Body(i, e) => SBlockState::Finished(result, CtrlFlow::Exit(e)),
        SBlockState::Finished(..) => s,
    }
}

pub fn block_task(items: &Vec<BlockItem>, s: &BlockState) -> (t: BlockTask)
    requires
        state_valid(view_items(items@), view_state(*s)),
    ensures
        view_task(t) == block_task_spec(view_items(items@), view_state(*s)),
{
    match s {
        BlockState::At(i, out) => {
            if *i >= items.len() {
                BlockTask::Finish(copy_val(out), CtrlFlow::Pass)
            } else {
                match &items[*i] {
                    BlockItem::Normal(v) => BlockTask::Eval(copy_val(v)),
                    BlockItem::Exit(_, c, _) => BlockTask::Eval(copy_val(c)),
                }
            }
        },
        BlockState::Body(i, _) => match &items[*i] {
            BlockItem::Exit(_, _, b) => BlockTask::Eval(copy_val(b)),
            BlockItem::Normal(v) => BlockTask::Eval(copy_val(v)),
        },
        BlockState::Finished(v, f) => BlockTask::Finish(copy_val(v), *f),
    }
}

pub fn block_on_result(items: &Vec<BlockItem>, s: BlockState, result: Val) -> (r: BlockState)
    requires
        state_valid(view_items(items@), view_state(s)),
    ensures
        view_state(r) == block_on_result_spec(view_items(items@), view_state(s), result@),
        state_valid(view_items(items@), view_state(r)),
{
    match s {
        BlockState::At(i, out) => {
            if i >= items.len() {
                BlockState::At(i, out)
            } else {
                match &items[i] {
                    BlockItem::Normal(_) => BlockState::At(i + 1, result),
                    BlockItem::Exit(e, _, _) => match result {
                        Val::Bit(true) => BlockState::Body(i, *e),
                        Val::Bit(false) => BlockState::At(i + 1, Val::Unit),
                        _ => BlockState::Finished(Val::Unit, CtrlFlow::Error),
                    },
                }
            }
        },
        BlockState::Body(_, e) => BlockState::Finished(result, CtrlFlow::Exit(e)),
        BlockState::Finished(v, f) => BlockState::Finished(v, f),
    }
}

/// What a loop does after one run of its block: go on (`None`) or stop with a
/// value. A failed block stops with unit; `break` stops with the block's output.
pub open spec fn loop_on_flow_spec(output: SVal, flow: CtrlFlow) -> Option<SVal> {
    match flow {
        CtrlFlow::Pass => None,
        CtrlFlow::Error => Some(SVal::Unit),
        CtrlFlow::Exit(Exit::Continue) => None,
        CtrlFlow::Exit(Exit::Break) => Some(output),
    }
}

pub fn loop_on_flow(output: Val, flow: CtrlFlow) -> (r: Option<Val>)
    ensures
        match loop_on_flow_spec(output@, flow) {
            Some(x) => r matches Some(y) && y@ == x,
            None => r is None,
        },
{
    match flow {
        CtrlFlow::Pass => None,
        CtrlFlow::Error => Some(Val::Unit),
        CtrlFlow::Exit(Exit::Continue) => None,
        CtrlFlow::Exit(Exit::Break) => Some(output),
    }
}

/// The values `for` binds in turn: the integers from 0 below a count, each byte,
/// each character of a symbol or a text, each list item, each map entry as a pair.
/// None for anything else, a negative count, or a count beyond `usize`.
pub open spec fn for_values_spec(v: SVal) -> Option<Seq<SVal>> {
    match v {
        SVal::Int(n) => if 0 <= n <= usize::MAX {
            Some(Seq::new(n as nat, |i: int| SVal::Int(i)))
        } else {
            None
        },
        SVal::Byte(bs) => Some(Seq::new(bs.len(), |i: int| SVal::Byte(seq![bs[i]]))),
        SVal::Symbol(s) => Some(Seq::new(s.len(), |i: int| SVal::Symbol(seq![s[i]]))),
        SVal::Text(t) => Some(Seq::new(t.len(), |i: int| SVal::Text(seq![t[i]]))),
        SVal::List(items) => Some(items),
        SVal::Dict(es) => Some(Seq::new(es.len(), |i: int| sval_pair(es[i].0, es[i].1))),
        _ => None,
    }
}

pub fn for_values(v: &Val) -> (r: Option<Vec<Val>>)
    ensures
        match for_values_spec(v@) {
            Some(xs) => r matches Some(ys) && view_list(ys@) == xs,
            None => r is None,
        },
{
    let mut out: Vec<Val> = Vec::new();
    let ghost mut target: Seq<SVal> = Seq::empty();
    match v {
        Val::Int(n) => {
            let Some(count) = big_to_usize(n) else {
                return None;
            };
            let mut i: usize = 0;
            while i < count
                invariant
                    i <= count,
                    out@.len() == i,
                    forall|j: int| 0 <= j < i ==> view_val(#[trigger] out@[j]) == SVal::Int(j),
                decreases count - i,
            {
                out.push(Val::Int(big_from_usize(i)));
                i = i + 1;
            }
            proof {
                target = Seq::new(count as nat, |j: int| SVal::Int(j));
            }
        },
        Val::Byte(bs) => {
            let mut i: usize = 0;
            while i < bs.len()
                invariant
                    i <= bs@.len(),
                    out@.len() == i,
                    forall|j: int| 0 <= j < i ==> view_val(#[trigger] out@[j]) == SVal::Byte(seq![bs@[j]]),
                decreases bs.len() - i,
            {
                let mut one: Vec<u8> = Vec::new();
                one.push(bs[i]);
                assert(one@ =~= seq![bs@[i as int]]);
                out.push(Val::Byte(one));
                i = i + 1;
            }
            proof {
                target = Seq::new(bs@.len(), |j: int| SVal::Byte(seq![bs@[j]]));
            }
        },
        Val::Symbol(s) => {
            let n = s.unicode_len();
            let mut i: usize = 0;
            while i < n
                invariant
                    n == s@.len(),
                    i <= n,
                    out@.len() == i,
                    forall|j: int| 0 <= j < i ==> view_val(#[trigger] out@[j]) == SVal::Symbol(seq![s@[j]]),
                decreases n - i,
            {
                let one = String::from_str(s.as_str().substring_char(i, i + 1));
                assert(one@ =~= seq![s@[i as int]]);
                out.push(Val::Symbol(one));
                i = i + 1;
            }
            proof {
                target = Seq::new(s@.len(), |j: int| SVal::Symbol(seq![s@[j]]));
            }
        },
        Val::Text(s) => {
            let n = s.unicode_len();
            let mut i: usize = 0;
            while i < n
                invariant
                    n == s@.len(),
                    i <= n,
                    out@.len() == i,
                    forall|j: int| 0 <= j < i ==> view_val(#[trigger] out@[j]) == SVal::Text(seq![s@[j]]),
                decreases n - i,
            {
                let one = String::from_str(s.as_str().substring_char(i, i + 1));
                assert(one@ =~= seq![s@[i as int]]);
                out.push(Val::Text(one));
                i = i + 1;
            }
            proof {
                target = Seq::new(s@.len(), |j: int| SVal::Text(seq![s@[j]]));
            }
        },
        Val::List(items) => {
            proof {
                lemma_view_list(items@);
            }
            let mut i: usize = 0;
            while i < items.len()
                invariant
                    i <= items@.len(),
                    out@.len() == i,
                    view_list(items@).len() == items@.len(),
                    forall|j: int| 0 <= j < items@.len() ==> #[trigger] view_list(items@)[j] == view_val(items@[j]),
                    forall|j: int| 0 <= j < i ==> view_val(#[trigger] out@[j]) == view_list(items@)[j],
                decreases items.len() - i,
            {
                out.push(copy_val(&items[i]));
                i = i + 1;
            }
            proof {
                target = view_list(items@);
            }
        },
        Val::Dict(m) => {
            proof {
                lemma_view_entries(m.entries@);
            }
            let mut i: usize = 0;
            while i < m.entries.len()
                invariant
                    i <= m.entries@.len(),
                    out@.len() == i,
                    view_entries(m.entries@).len() == m.entries@.len(),
                    forall|j: int|
                        0 <= j < m.entries@.len() ==> #[trigger] view_entries(m.entries@)[j] == (
                            view_val(m.entries@[j].first),
                            view_val(m.entries@[j].second),
                        ),
                    forall|j: int|
                        0 <= j < i ==> view_val(#[trigger] out@[j]) == sval_pair(
                            view_entries(m.entries@)[j].0,
                            view_entries(m.entries@)[j].1,
                        ),
                decreases m.entries.len() - i,
            {
                let e = &m.entries[i];
                out.push(Val::Pair(Box::new(PairVal { first: copy_val(&e.first), second: copy_val(&e.second) })));
                i = i + 1;
            }
            proof {
                let es = view_entries(m.entries@);
                target = Seq::new(es.len(), |j: int| sval_pair(es[j].0, es[j].1));
            }
        },
        _ => {
            return None;
        },
    }
    proof {
        lemma_view_list(out@);
        assert(view_list(out@) =~= target);
    }
    Some(out)
}


/// The two branches of `?`: the input must be `(condition, (then, else))`.
pub open spec fn if_branches_spec(input: SVal) -> Option<(SVal, SVal, SVal)> {
    match input {
        SVal::Pair(c, bs) => match *bs {
            SVal::Pair(t, e) => Some((*c, *t, *e)),
            _ => None,
        },
        _ => None,
    }
}

/// The branch `?` runs once its condition was evaluated: `then` on true, `else`
/// on false, none (the result is unit) when the condition is no bit.
pub open spec fn if_choose_spec(condition: SVal, then: SVal, else_: SVal) -> Option<SVal> {
    match condition {
        SVal::Bit(b) => Some(if b { then } else { else_ }),
        _ => None,
    }
}

/// Splits the input of `?` into the condition and the two branches.
pub fn if_branches(input: Val) -> (r: Option<(Val, Val, Val)>)
    ensures
        match if_branches_spec(input@) {
            Some((c, t, e)) => r matches Some((x, y, z)) && x@ == c && y@ == t && z@ == e,
            None => r is None,
        },
{
    proof {
        reveal_with_fuel(view_val, 2);
    }
    let Val::Pair(p) = input else {
        return None;
    };
    let p = *p;
    let Val::Pair(bs) = p.second else {
        return None;
    };
    let bs = *bs;
    Some((p.first, bs.first, bs.second))
}

pub fn if_choose(condition: &Val, then: Val, else_: Val) -> (r: Option<Val>)
    ensures
        match if_choose_spec(condition@, then@, else_@) {
            Some(x) => r matches Some(y) && y@ == x,
            None => r is None,
        },
{
    match condition {
        Val::Bit(b) => Some(if *b { then } else { else_ }),
        _ => None,
    }
}

/// How a block runs: a list is a block of items; anything else is one expression
/// evaluated on its own. None when an item of the list is malformed.
pub enum BlockStart {
    Single(Val),
    Items(Vec<BlockItem>),
}

pub fn start_block(input: Val) -> (r: Option<BlockStart>)
    ensures
        match input@ {
            SVal::List(l) => match parse_block_spec(l) {
                Some(bs) => r matches Some(BlockStart::Items(x)) && view_items(x@) == bs,
                None => r is None,
            },
            _ => r matches Some(BlockStart::Single(v)) && v@ == input@,
        },
{
    match input {
        Val::List(l) => match parse_block(&l) {
            Some(items) => Some(BlockStart::Items(items)),
            None => None,
        },
        _ => Some(BlockStart::Single(input)),
    }
}

} // verus!

verus! {

/// Binds a name to a value in the context, as a run of `for` asks for it
/// (`flow::Action::Bind`). False, with the context unchanged, when the context is
/// no context or the name's contract forbids assigning it.
pub fn for_bind(ctx: &mut Val, name: &String, v: Val) -> (ok: bool)
    ensures
        ok == (old(ctx)@ matches SVal::Ctx(vars) && var_put(vars, name@, v@, Contract::Open) is Some),
        ok ==> (old(ctx)@ matches SVal::Ctx(vars) && final(ctx)@ == SVal::Ctx(
            var_put(vars, name@, v@, Contract::Open).unwrap().0,
        )),
        !ok ==> final(ctx)@ == old(ctx)@,
{
    match ctx {
        Val::Ctx(c) => match c.put(name.clone(), v, Contract::Open) {
            Ok(_) => true,
            Err(_) => false,
        },
        _ => false,
    }
}

} // verus!
