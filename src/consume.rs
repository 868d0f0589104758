//! Terminal consumers: they pull a cell until they can answer, and stop at
//! the first error they meet.
use vstd::prelude::*;
use crate::adapt::{bump, less};
use crate::item::{Action, Fault, Item, Reply};

verus! {

/// The state of a terminal consumer.
#[derive(Clone, Copy, PartialEq, Eq, Debug)]
pub enum Consumer {
    /// Counts the items up to clean exhaustion.
    Count { seen: usize },
    /// Keeps the latest value up to clean exhaustion.
    Last { latest: Option<u64> },
    /// Passes over `remaining` items, errors included, then answers the next.
    Nth { remaining: usize },
    /// Folds the values with host callable `f` into `acc`.
    Fold { f: u64, acc: u64 },
    /// Adds the values into `acc` by the host's addition.
    Sum { acc: u64 },
    /// Shows every value to host callable `f`; the first failure ends it.
    ForEach { f: u64 },
}

/// What a consumer asks for next.
#[derive(Clone, Copy, PartialEq, Eq, Debug)]
pub enum Verdict {
    /// Pull the cell once more and feed the result.
    Again,
    /// Perform this action and answer it.
    Ask(Action),
    /// The count is done.
    Counted(usize),
    /// The answer: a value or none, or the first failure met.
    Finish(Result<Option<u64>, Fault>),
}

pub open spec fn answer_of(r: Reply) -> Fault {
    match r {
        Reply::Fail(e) => Fault::External(e),
        _ => Fault::MalformedCallableResult,
    }
}

/// A consumer takes the result of one pull.
pub open spec fn feed_of(c: Consumer, r: Option<Item>) -> (Consumer, Verdict) {
    match r {
        Some(Err(e)) => match c {
            Consumer::Nth { remaining } =>
                if remaining == 0 {
                    (c, Verdict::Finish(Err(e)))
                } else {
                    (Consumer::Nth { remaining: less(remaining) }, Verdict::Again)
                },
            _ => (c, Verdict::Finish(Err(e))),
        },
        Some(Ok(v)) => match c {
            Consumer::Count { seen } => (Consumer::Count { seen: bump(seen) }, Verdict::Again),
            Consumer::Last { .. } => (Consumer::Last { latest: Some(v) }, Verdict::Again),
            Consumer::Nth { remaining } =>
                if remaining == 0 {
                    (c, Verdict::Finish(Ok(Some(v))))
                } else {
                    (Consumer::Nth { remaining: less(remaining) }, Verdict::Again)
                },
            Consumer::Fold { f, acc } => (c, Verdict::Ask(Action::Fold(f, acc, v))),
            Consumer::Sum { acc } => (c, Verdict::Ask(Action::Add(acc, v))),
            Consumer::ForEach { f } => (c, Verdict::Ask(Action::Call(f, v))),
        },
        None => match c {
            Consumer::Count { seen } => (c, Verdict::Counted(seen)),
            Consumer::Last { latest } => (c, Verdict::Finish(Ok(latest))),
            Consumer::Nth { .. } => (c, Verdict::Finish(Ok(None))),
            Consumer::Fold { acc, .. } => (c, Verdict::Finish(Ok(Some(acc)))),
            Consumer::Sum { acc } => (c, Verdict::Finish(Ok(Some(acc)))),
            Consumer::ForEach { .. } => (c, Verdict::Finish(Ok(None))),
        },
    }
}

/// A consumer takes the host's answer to its action.
pub open spec fn answer_into(c: Consumer, r: Reply) -> (Consumer, Verdict) {
    match (c, r) {
        (Consumer::Fold { f, .. }, Reply::Value(w)) => (Consumer::Fold { f, acc: w }, Verdict::Again),
        (Consumer::Sum { .. }, Reply::Value(w)) => (Consumer::Sum { acc: w }, Verdict::Again),
        (Consumer::ForEach { .. }, Reply::Value(_)) => (c, Verdict::Again),
        _ => (c, Verdict::Finish(Err(answer_of(r)))),
    }
}

/// Feeds one pull result to a consumer.
pub fn feed(c: Consumer, r: Option<Item>) -> (out: (Consumer, Verdict))
    ensures
        out == feed_of(c, r),
{
    match r {
        Some(Err(e)) => match c {
            Consumer::Nth { remaining } =>
                if remaining == 0 {
                    (c, Verdict::Finish(Err(e)))
                } else {
                    (Consumer::Nth { remaining: remaining - 1 }, Verdict::Again)
                },
            _ => (c, Verdict::Finish(Err(e))),
        },
        Some(Ok(v)) => match c {
            Consumer::Count { seen } => {
                let s = if seen < usize::MAX { seen + 1 } else { seen };
                (Consumer::Count { seen: s }, Verdict::Again)
            },
            Consumer::Last { .. } => (Consumer::Last { latest: Some(v) }, Verdict::Again),
            Consumer::Nth { remaining } =>
                if remaining == 0 {
                    (c, Verdict::Finish(Ok(Some(v))))
                } else {
                    (Consumer::Nth { remaining: remaining - 1 }, Verdict::Again)
                },
            Consumer::Fold { f, acc } => (c, Verdict::Ask(Action::Fold(f, acc, v))),
            Consumer::Sum { acc } => (c, Verdict::Ask(Action::Add(acc, v))),
            Consumer::ForEach { f } => (c, Verdict::Ask(Action::Call(f, v))),
        },
        None => match c {
            Consumer::Count { seen } => (c, Verdict::Counted(seen)),
            Consumer::Last { latest } => (c, Verdict::Finish(Ok(latest))),
            Consumer::Nth { .. } => (c, Verdict::Finish(Ok(None))),
            Consumer::Fold { acc, .. } => (c, Verdict::Finish(Ok(Some(acc)))),
            Consumer::Sum { acc } => (c, Verdict::Finish(Ok(Some(acc)))),
            Consumer::ForEach { .. } => (c, Verdict::Finish(Ok(None))),
        },
    }
}

/// Hands the host's answer to a consumer's action.
pub fn answer(c: Consumer, r: Reply) -> (out: (Consumer, Verdict))
    ensures
        out == answer_into(c, r),
{
    match (c, r) {
        (Consumer::Fold { f, .. }, Reply::Value(w)) => (Consumer::Fold { f, acc: w }, Verdict::Again),
        (Consumer::Sum { .. }, Reply::Value(w)) => (Consumer::Sum { acc: w }, Verdict::Again),
        (Consumer::ForEach { .. }, Reply::Value(_)) => (c, Verdict::Again),
        _ => {
            let e = match r {
                Reply::Fail(e) => Fault::External(e),
                _ => Fault::MalformedCallableResult,
            };
            (c, Verdict::Finish(Err(e)))
        },
    }
}

} // verus!
