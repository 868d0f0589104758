//! The adapters, each as a transition from its state and one input to its
//! next state and one order.
use vstd::prelude::*;
use crate::item::{Action, Fault, Item, Reply};

verus! {

/// Where a flattening adapter stands within one outer item.
#[derive(Clone, Copy, PartialEq, Eq, Debug)]
pub enum FlatPhase {
    Idle,
    /// Waiting for the transform of an outer value.
    Transforming,
    /// Waiting for a cursor over the inner sequence.
    Opening,
    /// Waiting for the inner cursor's next element.
    Advancing,
}

/// The state of one adapter. Upstreams are cell indices of the engine.
/// `held` fields keep the value under judgement while the host works on it.
#[derive(Clone, Copy, PartialEq, Eq, Debug)]
pub enum Node {
    Source { cursor: u64 },
    Apply { up: usize, f: u64 },
    Inspect { up: usize, f: u64, held: u64 },
    Filter { up: usize, pred: u64, held: u64 },
    FilterMap { up: usize, f: u64 },
    Enumerate { up: usize, index: usize },
    Chain { first: usize, second: usize, on_second: bool },
    Zip { left: usize, right: usize, pending: Option<Item> },
    StepBy { up: usize, step: usize, gap: usize },
    Skip { up: usize, remaining: usize },
    Take { up: usize, remaining: usize },
    SkipWhile { up: usize, pred: u64, skipping: bool, held: u64 },
    TakeWhile { up: usize, pred: u64, done: bool, held: u64 },
    Scan { up: usize, f: u64, state: u64, done: bool },
    Flatten { up: usize, via: Option<u64>, inner: Option<u64>, phase: FlatPhase },
    Fuse { up: usize, done: bool },
    Peekable { up: usize, slot: Option<Option<Item>>, peeking: bool },
}

/// What an adapter is told.
#[derive(Clone, Copy, PartialEq, Eq, Debug)]
pub enum Input {
    /// A pull begins.
    Start,
    /// A look-ahead begins (a peekable adapter keeps what it finds).
    Look,
    /// The upstream pull this adapter asked for has ended with this result.
    Upstream(Option<Item>),
    /// The host answered the action this adapter asked for.
    Reply(Reply),
}

/// What an adapter asks for next.
#[derive(Clone, Copy, PartialEq, Eq, Debug)]
pub enum Order {
    /// Host work.
    Ask(Action),
    /// One pull of the upstream cell with this index.
    Pull(usize),
    /// The pull ends with this result (`None`: clean exhaustion).
    Emit(Option<Item>),
}

pub open spec fn failed(e: u64) -> Order {
    Order::Emit(Some(Err(Fault::External(e))))
}

pub open spec fn malformed() -> Order {
    Order::Emit(Some(Err(Fault::MalformedCallableResult)))
}

pub open spec fn bump(i: usize) -> usize {
    if i < usize::MAX { (i + 1) as usize } else { i }
}

pub open spec fn less(i: usize) -> usize {
    if i > 0 { (i - 1) as usize } else { 0 }
}

/// The transition of every adapter.
pub open spec fn step_of(n: Node, i: Input) -> (Node, Order) {
    match n {
        Node::Source { cursor } => match i {
            Input::Reply(Reply::Value(v)) => (n, Order::Emit(Some(Ok(v)))),
            Input::Reply(Reply::Stop) => (n, Order::Emit(None)),
            Input::Reply(Reply::Fail(e)) => (n, failed(e)),
            Input::Reply(_) => (n, malformed()),
            Input::Upstream(_) => (n, malformed()),
            _ => (n, Order::Ask(Action::Advance(cursor))),
        },
        Node::Apply { up, f } => match i {
            Input::Upstream(Some(Ok(v))) => (n, Order::Ask(Action::Call(f, v))),
            Input::Upstream(r) => (n, Order::Emit(r)),
            Input::Reply(Reply::Value(w)) => (n, Order::Emit(Some(Ok(w)))),
            Input::Reply(Reply::Fail(e)) => (n, failed(e)),
            Input::Reply(_) => (n, malformed()),
            _ => (n, Order::Pull(up)),
        },
        Node::Inspect { up, f, held } => match i {
            Input::Upstream(Some(Ok(v))) => (Node::Inspect { up, f, held: v }, Order::Ask(Action::Call(f, v))),
            Input::Upstream(r) => (n, Order::Emit(r)),
            Input::Reply(Reply::Value(_)) => (n, Order::Emit(Some(Ok(held)))),
            Input::Reply(Reply::Fail(e)) => (n, failed(e)),
            Input::Reply(_) => (n, malformed()),
            _ => (n, Order::Pull(up)),
        },
        Node::Filter { up, pred, held } => match i {
            Input::Upstream(Some(Ok(v))) => (Node::Filter { up, pred, held: v }, Order::Ask(Action::Test(pred, v))),
            Input::Upstream(r) => (n, Order::Emit(r)),
            Input::Reply(Reply::Flag(false)) => (n, Order::Pull(up)),
            Input::Reply(_) => (n, Order::Emit(Some(Ok(held)))),
            _ => (n, Order::Pull(up)),
        },
        Node::FilterMap { up, f } => match i {
            Input::Upstream(Some(Ok(v))) => (n, Order::Ask(Action::Select(f, v))),
            Input::Upstream(r) => (n, Order::Emit(r)),
            Input::Reply(Reply::Value(w)) => (n, Order::Emit(Some(Ok(w)))),
            Input::Reply(Reply::Nothing) => (n, Order::Pull(up)),
            Input::Reply(Reply::Fail(e)) => (n, failed(e)),
            Input::Reply(_) => (n, malformed()),
            _ => (n, Order::Pull(up)),
        },
        Node::Enumerate { up, index } => match i {
            Input::Upstream(Some(Ok(v))) =>
                (Node::Enumerate { up, index: bump(index) }, Order::Ask(Action::Number(index, v))),
            Input::Upstream(Some(Err(e))) =>
                (Node::Enumerate { up, index: bump(index) }, Order::Emit(Some(Err(e)))),
            Input::Upstream(None) => (n, Order::Emit(None)),
            Input::Reply(Reply::Value(w)) => (n, Order::Emit(Some(Ok(w)))),
            Input::Reply(Reply::Fail(e)) => (n, failed(e)),
            Input::Reply(_) => (n, malformed()),
            _ => (n, Order::Pull(up)),
        },
        Node::Chain { first, second, on_second } => match i {
            Input::Upstream(None) =>
                if on_second {
                    (n, Order::Emit(None))
                } else {
                    (Node::Chain { first, second, on_second: true }, Order::Pull(second))
                },
            Input::Upstream(r) => (n, Order::Emit(r)),
            Input::Reply(_) => (n, malformed()),
            _ => (n, Order::Pull(if on_second { second } else { first })),
        },
        Node::Zip { left, right, pending } => match i {
            Input::Upstream(None) => (Node::Zip { left, right, pending: None }, Order::Emit(None)),
            Input::Upstream(Some(x)) => match pending {
                None => (Node::Zip { left, right, pending: Some(x) }, Order::Pull(right)),
                Some(h) => (Node::Zip { left, right, pending: None }, Order::Ask(Action::Pair(h, x))),
            },
            Input::Reply(Reply::Value(w)) => (n, Order::Emit(Some(Ok(w)))),
            Input::Reply(Reply::Fail(e)) => (n, failed(e)),
            Input::Reply(_) => (n, malformed()),
            _ => (Node::Zip { left, right, pending: None }, Order::Pull(left)),
        },
        Node::StepBy { up, step, gap } => match i {
            Input::Upstream(Some(x)) =>
                if gap == 0 {
                    (Node::StepBy { up, step, gap: less(step) }, Order::Emit(Some(x)))
                } else {
                    (Node::StepBy { up, step, gap: less(gap) }, Order::Pull(up))
                },
            Input::Upstream(None) => (n, Order::Emit(None)),
            Input::Reply(_) => (n, malformed()),
            _ => (n, Order::Pull(up)),
        },
        Node::Skip { up, remaining } => match i {
            Input::Upstream(Some(x)) =>
                if remaining > 0 {
                    (Node::Skip { up, remaining: less(remaining) }, Order::Pull(up))
                } else {
                    (n, Order::Emit(Some(x)))
                },
            Input::Upstream(None) => (n, Order::Emit(None)),
            Input::Reply(_) => (n, malformed()),
            _ => (n, Order::Pull(up)),
        },
        Node::Take { up, remaining } => match i {
            Input::Upstream(Some(x)) => (Node::Take { up, remaining: less(remaining) }, Order::Emit(Some(x))),
            Input::Upstream(None) => (n, Order::Emit(None)),
            Input::Reply(_) => (n, malformed()),
            _ => if remaining == 0 { (n, Order::Emit(None)) } else { (n, Order::Pull(up)) },
        },
        Node::SkipWhile { up, pred, skipping, held } => match i {
            Input::Upstream(Some(Ok(v))) =>
                if skipping {
                    (Node::SkipWhile { up, pred, skipping, held: v }, Order::Ask(Action::Test(pred, v)))
                } else {
                    (n, Order::Emit(Some(Ok(v))))
                },
            Input::Upstream(Some(Err(e))) =>
                (Node::SkipWhile { up, pred, skipping: false, held }, Order::Emit(Some(Err(e)))),
            Input::Upstream(None) => (n, Order::Emit(None)),
            Input::Reply(Reply::Flag(true)) => (n, Order::Pull(up)),
            Input::Reply(_) => (Node::SkipWhile { up, pred, skipping: false, held }, Order::Emit(Some(Ok(held)))),
            _ => (n, Order::Pull(up)),
        },
        Node::TakeWhile { up, pred, done, held } => match i {
            Input::Upstream(Some(Ok(v))) =>
                (Node::TakeWhile { up, pred, done, held: v }, Order::Ask(Action::Test(pred, v))),
            Input::Upstream(r) => (n, Order::Emit(r)),
            Input::Reply(Reply::Flag(false)) =>
                (Node::TakeWhile { up, pred, done: true, held }, Order::Emit(None)),
            Input::Reply(_) => (n, Order::Emit(Some(Ok(held)))),
            _ => if done { (n, Order::Emit(None)) } else { (n, Order::Pull(up)) },
        },
        Node::Scan { up, f, state, done } => match i {
            Input::Upstream(Some(Ok(v))) => (n, Order::Ask(Action::Step(f, state, v))),
            Input::Upstream(r) => (n, Order::Emit(r)),
            Input::Reply(Reply::Two(s, x)) => (Node::Scan { up, f, state: s, done }, Order::Emit(Some(Ok(x)))),
            Input::Reply(Reply::Nothing) => (Node::Scan { up, f, state, done: true }, Order::Emit(None)),
            Input::Reply(Reply::Fail(e)) => (Node::Scan { up, f, state, done: true }, failed(e)),
            Input::Reply(_) => (Node::Scan { up, f, state, done: true }, malformed()),
            _ => if done { (n, Order::Emit(None)) } else { (n, Order::Pull(up)) },
        },
        Node::Flatten { up, via, inner, phase } => match i {
            Input::Upstream(Some(Ok(v))) => match via {
                Some(g) => (Node::Flatten { up, via, inner, phase: FlatPhase::Transforming }, Order::Ask(Action::Call(g, v))),
                None => (Node::Flatten { up, via, inner, phase: FlatPhase::Opening }, Order::Ask(Action::Open(v))),
            },
            Input::Upstream(r) => (Node::Flatten { up, via, inner, phase: FlatPhase::Idle }, Order::Emit(r)),
            Input::Reply(rep) => match phase {
                FlatPhase::Transforming => match rep {
                    Reply::Value(w) => (Node::Flatten { up, via, inner, phase: FlatPhase::Opening }, Order::Ask(Action::Open(w))),
                    Reply::Fail(e) => (Node::Flatten { up, via, inner, phase: FlatPhase::Idle }, failed(e)),
                    _ => (Node::Flatten { up, via, inner, phase: FlatPhase::Idle }, malformed()),
                },
                FlatPhase::Opening => match rep {
                    Reply::Value(c) => (Node::Flatten { up, via, inner: Some(c), phase: FlatPhase::Advancing }, Order::Ask(Action::Advance(c))),
                    Reply::Fail(e) => (Node::Flatten { up, via, inner, phase: FlatPhase::Idle }, failed(e)),
                    _ => (Node::Flatten { up, via, inner, phase: FlatPhase::Idle }, malformed()),
                },
                FlatPhase::Advancing => match rep {
                    Reply::Value(w) => (Node::Flatten { up, via, inner, phase: FlatPhase::Idle }, Order::Emit(Some(Ok(w)))),
                    Reply::Stop => (Node::Flatten { up, via, inner: None, phase: FlatPhase::Idle }, Order::Pull(up)),
                    Reply::Fail(e) => (Node::Flatten { up, via, inner: None, phase: FlatPhase::Idle }, failed(e)),
                    _ => (Node::Flatten { up, via, inner: None, phase: FlatPhase::Idle }, malformed()),
                },
                FlatPhase::Idle => (n, malformed()),
            },
            _ => match inner {
                Some(c) => (Node::Flatten { up, via, inner, phase: FlatPhase::Advancing }, Order::Ask(Action::Advance(c))),
                None => (Node::Flatten { up, via, inner, phase: FlatPhase::Idle }, Order::Pull(up)),
            },
        },
        Node::Fuse { up, done } => match i {
            Input::Upstream(None) => (Node::Fuse { up, done: true }, Order::Emit(None)),
            Input::Upstream(r) => (n, Order::Emit(r)),
            Input::Reply(_) => (n, malformed()),
            _ => if done { (n, Order::Emit(None)) } else { (n, Order::Pull(up)) },
        },
        Node::Peekable { up, slot, peeking } => match i {
            Input::Start => match slot {
                Some(r) => (Node::Peekable { up, slot: None, peeking: false }, Order::Emit(r)),
                None => (Node::Peekable { up, slot, peeking: false }, Order::Pull(up)),
            },
            Input::Look => match slot {
                Some(r) => (n, Order::Emit(r)),
                None => (Node::Peekable { up, slot, peeking: true }, Order::Pull(up)),
            },
            Input::Upstream(r) =>
                if peeking {
                    (Node::Peekable { up, slot: Some(r), peeking: false }, Order::Emit(r))
                } else {
                    (n, Order::Emit(r))
                },
            Input::Reply(_) => (n, malformed()),
        },
    }
}

fn failed_exec(e: u64) -> (r: Order)
    ensures
        r == failed(e),
{
    Order::Emit(Some(Err(Fault::External(e))))
}

fn malformed_exec() -> (r: Order)
    ensures
        r == malformed(),
{
    Order::Emit(Some(Err(Fault::MalformedCallableResult)))
}

fn bump_exec(i: usize) -> (r: usize)
    ensures
        r == bump(i),
{
    if i < usize::MAX { i + 1 } else { i }
}

fn less_exec(i: usize) -> (r: usize)
    ensures
        r == less(i),
{
    if i > 0 { i - 1 } else { 0 }
}

/// Runs one transition of an adapter.
pub fn step(n: Node, i: Input) -> (r: (Node, Order))
    ensures
        r == step_of(n, i),
{
    match n {
        Node::Source { cursor } => match i {
            Input::Reply(Reply::Value(v)) => (n, Order::Emit(Some(Ok(v)))),
            Input::Reply(Reply::Stop) => (n, Order::Emit(None)),
            Input::Reply(Reply::Fail(e)) => (n, failed_exec(e)),
            Input::Reply(_) => (n, malformed_exec()),
            Input::Upstream(_) => (n, malformed_exec()),
            _ => (n, Order::Ask(Action::Advance(cursor))),
        },
        Node::Apply { up, f } => match i {
            Input::Upstream(Some(Ok(v))) => (n, Order::Ask(Action::Call(f, v))),
            Input::Upstream(r) => (n, Order::Emit(r)),
            Input::Reply(Reply::Value(w)) => (n, Order::Emit(Some(Ok(w)))),
            Input::Reply(Reply::Fail(e)) => (n, failed_exec(e)),
            Input::Reply(_) => (n, malformed_exec()),
            _ => (n, Order::Pull(up)),
        },
        Node::Inspect { up, f, held } => match i {
            Input::Upstream(Some(Ok(v))) => (Node::Inspect { up, f, held: v }, Order::Ask(Action::Call(f, v))),
            Input::Upstream(r) => (n, Order::Emit(r)),
            Input::Reply(Reply::Value(_)) => (n, Order::Emit(Some(Ok(held)))),
            Input::Reply(Reply::Fail(e)) => (n, failed_exec(e)),
            Input::Reply(_) => (n, malformed_exec()),
            _ => (n, Order::Pull(up)),
        },
        Node::Filter { up, pred, held } => match i {
            Input::Upstream(Some(Ok(v))) => (Node::Filter { up, pred, held: v }, Order::Ask(Action::Test(pred, v))),
            Input::Upstream(r) => (n, Order::Emit(r)),
            Input::Reply(Reply::Flag(false)) => (n, Order::Pull(up)),
            Input::Reply(_) => (n, Order::Emit(Some(Ok(held)))),
            _ => (n, Order::Pull(up)),
        },
        Node::FilterMap { up, f } => match i {
            Input::Upstream(Some(Ok(v))) => (n, Order::Ask(Action::Select(f, v))),
            Input::Upstream(r) => (n, Order::Emit(r)),
            Input::Reply(Reply::Value(w)) => (n, Order::Emit(Some(Ok(w)))),
            Input::Reply(Reply::Nothing) => (n, Order::Pull(up)),
            Input::Reply(Reply::Fail(e)) => (n, failed_exec(e)),
            Input::Reply(_) => (n, malformed_exec()),
            _ => (n, Order::Pull(up)),
        },
        Node::Enumerate { up, index } => match i {
            Input::Upstream(Some(Ok(v))) =>
                (Node::Enumerate { up, index: bump_exec(index) }, Order::Ask(Action::Number(index, v))),
            Input::Upstream(Some(Err(e))) =>
                (Node::Enumerate { up, index: bump_exec(index) }, Order::Emit(Some(Err(e)))),
            Input::Upstream(None) => (n, Order::Emit(None)),
            Input::Reply(Reply::Value(w)) => (n, Order::Emit(Some(Ok(w)))),
            Input::Reply(Reply::Fail(e)) => (n, failed_exec(e)),
            Input::Reply(_) => (n, malformed_exec()),
            _ => (n, Order::Pull(up)),
        },
        Node::Chain { first, second, on_second } => match i {
            Input::Upstream(None) =>
                if on_second {
                    (n, Order::Emit(None))
                } else {
                    (Node::Chain { first, second, on_second: true }, Order::Pull(second))
                },
            Input::Upstream(r) => (n, Order::Emit(r)),
            Input::Reply(_) => (n, malformed_exec()),
            _ => (n, Order::Pull(if on_second { second } else { first })),
        },
        Node::Zip { left, right, pending } => match i {
            Input::Upstream(None) => (Node::Zip { left, right, pending: None }, Order::Emit(None)),
            Input::Upstream(Some(x)) => match pending {
                None => (Node::Zip { left, right, pending: Some(x) }, Order::Pull(right)),
                Some(h) => (Node::Zip { left, right, pending: None }, Order::Ask(Action::Pair(h, x))),
            },
            Input::Reply(Reply::Value(w)) => (n, Order::Emit(Some(Ok(w)))),
            Input::Reply(Reply::Fail(e)) => (n, failed_exec(e)),
            Input::Reply(_) => (n, malformed_exec()),
            _ => (Node::Zip { left, right, pending: None }, Order::Pull(left)),
        },
        Node::StepBy { up, step, gap } => match i {
            Input::Upstream(Some(x)) =>
                if gap == 0 {
                    (Node::StepBy { up, step, gap: less_exec(step) }, Order::Emit(Some(x)))
                } else {
                    (Node::StepBy { up, step, gap: less_exec(gap) }, Order::Pull(up))
                },
            Input::Upstream(None) => (n, Order::Emit(None)),
            Input::Reply(_) => (n, malformed_exec()),
            _ => (n, Order::Pull(up)),
        },
        Node::Skip { up, remaining } => match i {
            Input::Upstream(Some(x)) =>
                if remaining > 0 {
                    (Node::Skip { up, remaining: less_exec(remaining) }, Order::Pull(up))
                } else {
                    (n, Order::Emit(Some(x)))
                },
            Input::Upstream(None) => (n, Order::Emit(None)),
            Input::Reply(_) => (n, malformed_exec()),
            _ => (n, Order::Pull(up)),
        },
        Node::Take { up, remaining } => match i {
            Input::Upstream(Some(x)) => (Node::Take { up, remaining: less_exec(remaining) }, Order::Emit(Some(x))),
            Input::Upstream(None) => (n, Order::Emit(None)),
            Input::Reply(_) => (n, malformed_exec()),
            _ => if remaining == 0 { (n, Order::Emit(None)) } else { (n, Order::Pull(up)) },
        },
        Node::SkipWhile { up, pred, skipping, held } => match i {
            Input::Upstream(Some(Ok(v))) =>
                if skipping {
                    (Node::SkipWhile { up, pred, skipping, held: v }, Order::Ask(Action::Test(pred, v)))
                } else {
                    (n, Order::Emit(Some(Ok(v))))
                },
            Input::Upstream(Some(Err(e))) =>
                (Node::SkipWhile { up, pred, skipping: false, held }, Order::Emit(Some(Err(e)))),
            Input::Upstream(None) => (n, Order::Emit(None)),
            Input::Reply(Reply::Flag(true)) => (n, Order::Pull(up)),
            Input::Reply(_) => (Node::SkipWhile { up, pred, skipping: false, held }, Order::Emit(Some(Ok(held)))),
            _ => (n, Order::Pull(up)),
        },
        Node::TakeWhile { up, pred, done, held } => match i {
            Input::Upstream(Some(Ok(v))) =>
                (Node::TakeWhile { up, pred, done, held: v }, Order::Ask(Action::Test(pred, v))),
            Input::Upstream(r) => (n, Order::Emit(r)),
            Input::Reply(Reply::Flag(false)) =>
                (Node::TakeWhile { up, pred, done: true, held }, Order::Emit(None)),
            Input::Reply(_) => (n, Order::Emit(Some(Ok(held)))),
            _ => if done { (n, Order::Emit(None)) } else { (n, Order::Pull(up)) },
        },
        Node::Scan { up, f, state, done } => match i {
            Input::Upstream(Some(Ok(v))) => (n, Order::Ask(Action::Step(f, state, v))),
            Input::Upstream(r) => (n, Order::Emit(r)),
            Input::Reply(Reply::Two(s, x)) => (Node::Scan { up, f, state: s, done }, Order::Emit(Some(Ok(x)))),
            Input::Reply(Reply::Nothing) => (Node::Scan { up, f, state, done: true }, Order::Emit(None)),
            Input::Reply(Reply::Fail(e)) => (Node::Scan { up, f, state, done: true }, failed_exec(e)),
            Input::Reply(_) => (Node::Scan { up, f, state, done: true }, malformed_exec()),
            _ => if done { (n, Order::Emit(None)) } else { (n, Order::Pull(up)) },
        },
        Node::Flatten { up, via, inner, phase } => match i {
            Input::Upstream(Some(Ok(v))) => match via {
                Some(g) => (Node::Flatten { up, via, inner, phase: FlatPhase::Transforming }, Order::Ask(Action::Call(g, v))),
                None => (Node::Flatten { up, via, inner, phase: FlatPhase::Opening }, Order::Ask(Action::Open(v))),
            },
            Input::Upstream(r) => (Node::Flatten { up, via, inner, phase: FlatPhase::Idle }, Order::Emit(r)),
            Input::Reply(rep) => match phase {
                FlatPhase::Transforming => match rep {
                    Reply::Value(w) => (Node::Flatten { up, via, inner, phase: FlatPhase::Opening }, Order::Ask(Action::Open(w))),
                    Reply::Fail(e) => (Node::Flatten { up, via, inner, phase: FlatPhase::Idle }, failed_exec(e)),
                    _ => (Node::Flatten { up, via, inner, phase: FlatPhase::Idle }, malformed_exec()),
                },
                FlatPhase::Opening => match rep {
                    Reply::Value(c) => (Node::Flatten { up, via, inner: Some(c), phase: FlatPhase::Advancing }, Order::Ask(Action::Advance(c))),
                    Reply::Fail(e) => (Node::Flatten { up, via, inner, phase: FlatPhase::Idle }, failed_exec(e)),
                    _ => (Node::Flatten { up, via, inner, phase: FlatPhase::Idle }, malformed_exec()),
                },
                FlatPhase::Advancing => match rep {
                    Reply::Value(w) => (Node::Flatten { up, via, inner, phase: FlatPhase::Idle }, Order::Emit(Some(Ok(w)))),
                    Reply::Stop => (Node::Flatten { up, via, inner: None, phase: FlatPhase::Idle }, Order::Pull(up)),
                    Reply::Fail(e) => (Node::Flatten { up, via, inner: None, phase: FlatPhase::Idle }, failed_exec(e)),
                    _ => (Node::Flatten { up, via, inner: None, phase: FlatPhase::Idle }, malformed_exec()),
                },
                FlatPhase::Idle => (n, malformed_exec()),
            },
            _ => match inner {
                Some(c) => (Node::Flatten { up, via, inner, phase: FlatPhase::Advancing }, Order::Ask(Action::Advance(c))),
                None => (Node::Flatten { up, via, inner, phase: FlatPhase::Idle }, Order::Pull(up)),
            },
        },
        Node::Fuse { up, done } => match i {
            Input::Upstream(None) => (Node::Fuse { up, done: true }, Order::Emit(None)),
            Input::Upstream(r) => (n, Order::Emit(r)),
            Input::Reply(_) => (n, malformed_exec()),
            _ => if done { (n, Order::Emit(None)) } else { (n, Order::Pull(up)) },
        },
        Node::Peekable { up, slot, peeking } => match i {
            Input::Start => match slot {
                Some(r) => (Node::Peekable { up, slot: None, peeking: false }, Order::Emit(r)),
                None => (Node::Peekable { up, slot, peeking: false }, Order::Pull(up)),
            },
            Input::Look => match slot {
                Some(r) => (n, Order::Emit(r)),
                None => (Node::Peekable { up, slot, peeking: true }, Order::Pull(up)),
            },
            Input::Upstream(r) =>
                if peeking {
                    (Node::Peekable { up, slot: Some(r), peeking: false }, Order::Emit(r))
                } else {
                    (n, Order::Emit(r))
                },
            Input::Reply(_) => (n, malformed_exec()),
        },
    }
}

} // verus!
