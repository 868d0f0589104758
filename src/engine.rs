//! Shared iteration cells in one arena, and the pull machine that drives them.
use vstd::prelude::*;
use crate::adapt::{bump, less, step, step_of, FlatPhase, Input, Node, Order};
use crate::item::{Action, Fault, Item, Reply};

verus! {

/// One shared iteration cell: an adapter state and its pull bookkeeping.
#[derive(Clone, Copy, PartialEq, Eq, Debug)]
pub struct Cell {
    pub node: Node,
    /// A pull of this cell is in flight.
    pub busy: bool,
    /// This cell waits for the host's reply to its action.
    pub waiting: bool,
    /// The cell whose pull asked for this one's, if any.
    pub caller: Option<usize>,
    /// How many handles and adapters refer to this cell (diagnostics only).
    pub shares: usize,
}

/// What the engine needs from its driver after a call.
#[derive(Clone, Copy, PartialEq, Eq, Debug)]
pub enum Signal {
    /// Perform this action for the cell and hand the answer to `reply`.
    Host(usize, Action),
    /// Call `proceed` to go on.
    Proceed,
    /// The pull is over, with this result (`None`: clean exhaustion).
    Yielded(Option<Item>),
    /// The call did not fit the engine's state, which is unchanged.
    Refused,
}

/// The arena of cells; a handle is the index of a cell.
/// `agenda` is the one internal step that is due, if any.
pub struct Engine {
    pub cells: Vec<Cell>,
    pub agenda: Option<(usize, Input)>,
}

/// The engine's mathematical state: its cells and its due step.
pub type State = (Seq<Cell>, Option<(usize, Input)>);

/// Every upstream of `n` is a cell below index `k`.
pub open spec fn links_within(n: Node, k: int) -> bool {
    match n {
        Node::Source { .. } => true,
        Node::Apply { up, .. } => up < k,
        Node::Inspect { up, .. } => up < k,
        Node::Filter { up, .. } => up < k,
        Node::FilterMap { up, .. } => up < k,
        Node::Enumerate { up, .. } => up < k,
        Node::Chain { first, second, .. } => first < k && second < k,
        Node::Zip { left, right, .. } => left < k && right < k,
        Node::StepBy { up, .. } => up < k,
        Node::Skip { up, .. } => up < k,
        Node::Take { up, .. } => up < k,
        Node::SkipWhile { up, .. } => up < k,
        Node::TakeWhile { up, .. } => up < k,
        Node::Scan { up, .. } => up < k,
        Node::Flatten { up, .. } => up < k,
        Node::Fuse { up, .. } => up < k,
        Node::Peekable { up, .. } => up < k,
    }
}

pub open spec fn due_at(ag: Option<(usize, Input)>, c: int) -> bool {
    ag is Some && ag.unwrap().0 == c
}

/// The engine's invariant. Cells only refer to older cells; a waiting or due
/// cell is in flight; the cells of one pull's path are linked by `caller`,
/// each in flight, and each cell has at most one upstream pull in flight.
pub open spec fn well_formed(s: State) -> bool {
    let cs = s.0;
    let ag = s.1;
    &&& forall|i: int| 0 <= i < cs.len() ==> links_within(#[trigger] cs[i].node, i)
    &&& forall|i: int| 0 <= i < cs.len() && #[trigger] cs[i].waiting ==> cs[i].busy
    &&& ag is Some ==> {
        let c = ag.unwrap().0 as int;
        0 <= c < cs.len() && cs[c].busy && !cs[c].waiting
    }
    &&& forall|i: int| 0 <= i < cs.len() && (#[trigger] cs[i].caller) is Some ==> {
        let p = cs[i].caller.unwrap() as int;
        &&& 0 <= p < cs.len()
        &&& cs[i].busy
        &&& cs[p].busy
        &&& !cs[p].waiting
        &&& !due_at(ag, p)
    }
    &&& forall|i: int, j: int|
        0 <= i < cs.len() && 0 <= j < cs.len() && (#[trigger] cs[i].caller) is Some
            && #[trigger] cs[j].caller == cs[i].caller ==> i == j
}

/// One internal step: the due cell takes its input and its order is carried out.
pub open spec fn proceed_of(s: State) -> (State, Signal) {
    let cs = s.0;
    match s.1 {
        None => (s, Signal::Refused),
        Some((c, inp)) => {
            let cl = cs[c as int];
            let (n2, ord) = step_of(cl.node, inp);
            match ord {
                Order::Ask(a) => (
                    (cs.update(c as int, Cell { node: n2, waiting: true, ..cl }), None),
                    Signal::Host(c, a),
                ),
                Order::Pull(u) =>
                    if cs[u as int].busy {
                        (
                            (
                                cs.update(c as int, Cell { node: n2, ..cl }),
                                Some((c, Input::Upstream(Some(Err(Fault::ReentrantAccess))))),
                            ),
                            Signal::Proceed,
                        )
                    } else {
                        (
                            (
                                cs.update(c as int, Cell { node: n2, ..cl }).update(
                                    u as int,
                                    Cell { busy: true, caller: Some(c), ..cs[u as int] },
                                ),
                                Some((u, Input::Start)),
                            ),
                            Signal::Proceed,
                        )
                    },
                Order::Emit(r) => {
                    let cs2 = cs.update(c as int, Cell { node: n2, busy: false, caller: None, ..cl });
                    match cl.caller {
                        Some(p) => ((cs2, Some((p, Input::Upstream(r)))), Signal::Proceed),
                        None => ((cs2, None), Signal::Yielded(r)),
                    }
                },
            }
        },
    }
}

/// A pull (`look == false`) or a peek (`look == true`) of cell `c` begins.
pub open spec fn start_of(s: State, c: usize, look: bool) -> (State, Signal) {
    let cs = s.0;
    if s.1 is Some || c >= cs.len() || (look && !(cs[c as int].node is Peekable)) {
        (s, Signal::Refused)
    } else if cs[c as int].busy {
        (s, Signal::Yielded(Some(Err(Fault::ReentrantAccess))))
    } else {
        (
            (
                cs.update(c as int, Cell { busy: true, caller: None, ..cs[c as int] }),
                Some((c, if look { Input::Look } else { Input::Start })),
            ),
            Signal::Proceed,
        )
    }
}

/// The host answers the action that cell `c` waits on.
pub open spec fn reply_of(s: State, c: usize, r: Reply) -> (State, Signal) {
    let cs = s.0;
    if s.1 is Some || c >= cs.len() || !cs[c as int].waiting {
        (s, Signal::Refused)
    } else {
        ((cs.update(c as int, Cell { waiting: false, ..cs[c as int] }), Some((c, Input::Reply(r)))), Signal::Proceed)
    }
}

pub open spec fn fresh(n: Node) -> Cell {
    Cell { node: n, busy: false, waiting: false, caller: None, shares: 1 }
}

/// Cell `c` gains one share.
pub open spec fn share_in(cs: Seq<Cell>, c: usize) -> Seq<Cell> {
    cs.update(c as int, Cell { shares: bump(cs[c as int].shares), ..cs[c as int] })
}

/// Cell `c` loses one share.
pub open spec fn release_in(cs: Seq<Cell>, c: usize) -> Seq<Cell> {
    cs.update(c as int, Cell { shares: less(cs[c as int].shares), ..cs[c as int] })
}

fn fresh_cell(n: Node) -> (r: Cell)
    ensures
        r == fresh(n),
{
    Cell { node: n, busy: false, waiting: false, caller: None, shares: 1 }
}

pub proof fn lemma_step_links(n: Node, i: Input, k: int)
    requires
        links_within(n, k),
    ensures
        links_within(step_of(n, i).0, k),
        step_of(n, i).1 is Pull ==> step_of(n, i).1->Pull_0 < k,
{
}

impl Engine {
    pub open spec fn state(&self) -> State {
        (self.cells@, self.agenda)
    }

    pub open spec fn wf(&self) -> bool {
        well_formed(self.state())
    }

    /// An engine with no cells.
    pub fn new() -> (r: Engine)
        ensures
            r.wf(),
            r.state() == (Seq::<Cell>::empty(), None::<(usize, Input)>),
    {
        Engine { cells: Vec::new(), agenda: None }
    }

    /// Adds a cell to the arena.
    fn attach(&mut self, n: Node) -> (r: usize)
        requires
            old(self).wf(),
            links_within(n, old(self).cells@.len() as int),
        ensures
            final(self).wf(),
            r == old(self).cells@.len(),
            final(self).state() == (old(self).cells@.push(fresh(n)), old(self).agenda),
    {
        let r = self.cells.len();
        self.cells.push(fresh_cell(n));
        proof {
            assert(forall|i: int| 0 <= i < r ==> self.cells@[i] == old(self).cells@[i]);
        }
        r
    }

    /// Counts one more handle or adapter on cell `c`.
    pub fn share(&mut self, c: usize)
        requires
            old(self).wf(),
            c < old(self).cells@.len(),
        ensures
            final(self).wf(),
            final(self).state() == (share_in(old(self).cells@, c), old(self).agenda),
    {
        let cl = self.cells[c];
        let n = if cl.shares < usize::MAX { cl.shares + 1 } else { cl.shares };
        self.cells.set(c, Cell { shares: n, ..cl });
    }

    /// Counts one handle or adapter less on cell `c`.
    pub fn release(&mut self, c: usize)
        requires
            old(self).wf(),
            c < old(self).cells@.len(),
        ensures
            final(self).wf(),
            final(self).state() == (release_in(old(self).cells@, c), old(self).agenda),
    {
        let cl = self.cells[c];
        let n = if cl.shares > 0 { cl.shares - 1 } else { 0 };
        self.cells.set(c, Cell { shares: n, ..cl });
    }

    /// How many handles and adapters refer to cell `c`.
    pub fn ref_count(&self, c: usize) -> (r: usize)
        requires
            c < self.cells@.len(),
        ensures
            r == self.cells@[c as int].shares,
    {
        self.cells[c].shares
    }

    /// A cell over a host cursor.
    pub fn source(&mut self, cursor: u64) -> (r: usize)
        requires
            old(self).wf(),
        ensures
            final(self).wf(),
            r == old(self).cells@.len(),
            final(self).state() == (old(self).cells@.push(fresh(Node::Source { cursor })), old(self).agenda),
    {
        self.attach(Node::Source { cursor })
    }

    /// Yields every item of `a`, then, once `a` is cleanly exhausted, every
    /// item of `b`.
    pub fn chain(&mut self, a: usize, b: usize) -> (r: usize)
        requires
            old(self).wf(),
            a < old(self).cells@.len(),
            b < old(self).cells@.len(),
        ensures
            final(self).wf(),
            r == old(self).cells@.len(),
            final(self).state() == (
                share_in(share_in(old(self).cells@, a), b).push(fresh(Node::Chain { first: a, second: b, on_second: false })),
                old(self).agenda,
            ),
    {
        self.share(a);
        self.share(b);
        self.attach(Node::Chain { first: a, second: b, on_second: false })
    }

    /// Pairs the items of `a` and `b`, and ends as soon as either ends.
    pub fn zip(&mut self, a: usize, b: usize) -> (r: usize)
        requires
            old(self).wf(),
            a < old(self).cells@.len(),
            b < old(self).cells@.len(),
        ensures
            final(self).wf(),
            r == old(self).cells@.len(),
            final(self).state() == (
                share_in(share_in(old(self).cells@, a), b).push(fresh(Node::Zip { left: a, right: b, pending: None })),
                old(self).agenda,
            ),
    {
        self.share(a);
        self.share(b);
        self.attach(Node::Zip { left: a, right: b, pending: None })
    }

    /// Yields the first pulled item and then every `step`-th one.
    pub fn step_by(&mut self, c: usize, step: usize) -> (r: usize)
        requires
            old(self).wf(),
            c < old(self).cells@.len(),
            step > 0,
        ensures
            final(self).wf(),
            r == old(self).cells@.len(),
            final(self).state() == (share_in(old(self).cells@, c).push(fresh(Node::StepBy { up: c, step, gap: 0 })), old(self).agenda),
    {
        self.share(c);
        self.attach(Node::StepBy { up: c, step, gap: 0 })
    }

    /// Applies host callable `f` to each value; failures become error items.
    /// Returns the new cell, which holds a share of cell `c`.
    pub fn map(&mut self, c: usize, f: u64) -> (r: usize)
        requires
            old(self).wf(),
            c < old(self).cells@.len(),
        ensures
            final(self).wf(),
            r == old(self).cells@.len(),
            final(self).state() == (share_in(old(self).cells@, c).push(fresh(Node::Apply { up: c, f })), old(self).agenda),
    {
        self.share(c);
        self.attach(Node::Apply { up: c, f })
    }

    /// Shows each value to host callable `f`, passing it on unchanged unless `f` fails.
    /// Returns the new cell, which holds a share of cell `c`.
    pub fn inspect(&mut self, c: usize, f: u64) -> (r: usize)
        requires
            old(self).wf(),
            c < old(self).cells@.len(),
        ensures
            final(self).wf(),
            r == old(self).cells@.len(),
            final(self).state() == (share_in(old(self).cells@, c).push(fresh(Node::Inspect { up: c, f, held: 0 })), old(self).agenda),
    {
        self.share(c);
        self.attach(Node::Inspect { up: c, f, held: 0 })
    }

    /// Keeps the values that `pred` holds true of; errors, and values on which `pred` fails, are kept.
    /// Returns the new cell, which holds a share of cell `c`.
    pub fn filter(&mut self, c: usize, pred: u64) -> (r: usize)
        requires
            old(self).wf(),
            c < old(self).cells@.len(),
        ensures
            final(self).wf(),
            r == old(self).cells@.len(),
            final(self).state() == (share_in(old(self).cells@, c).push(fresh(Node::Filter { up: c, pred, held: 0 })), old(self).agenda),
    {
        self.share(c);
        self.attach(Node::Filter { up: c, pred, held: 0 })
    }

    /// Applies `f` to each value, dropping those for which it gives the host's nothing.
    /// Returns the new cell, which holds a share of cell `c`.
    pub fn filter_map(&mut self, c: usize, f: u64) -> (r: usize)
        requires
            old(self).wf(),
            c < old(self).cells@.len(),
        ensures
            final(self).wf(),
            r == old(self).cells@.len(),
            final(self).state() == (share_in(old(self).cells@, c).push(fresh(Node::FilterMap { up: c, f })), old(self).agenda),
    {
        self.share(c);
        self.attach(Node::FilterMap { up: c, f })
    }

    /// Pairs each value with its zero-based position; errors count as positions.
    /// Returns the new cell, which holds a share of cell `c`.
    pub fn enumerate(&mut self, c: usize) -> (r: usize)
        requires
            old(self).wf(),
            c < old(self).cells@.len(),
        ensures
            final(self).wf(),
            r == old(self).cells@.len(),
            final(self).state() == (share_in(old(self).cells@, c).push(fresh(Node::Enumerate { up: c, index: 0 })), old(self).agenda),
    {
        self.share(c);
        self.attach(Node::Enumerate { up: c, index: 0 })
    }

    /// Passes over the first `n` pulled items, errors included.
    /// Returns the new cell, which holds a share of cell `c`.
    pub fn skip(&mut self, c: usize, n: usize) -> (r: usize)
        requires
            old(self).wf(),
            c < old(self).cells@.len(),
        ensures
            final(self).wf(),
            r == old(self).cells@.len(),
            final(self).state() == (share_in(old(self).cells@, c).push(fresh(Node::Skip { up: c, remaining: n })), old(self).agenda),
    {
        self.share(c);
        self.attach(Node::Skip { up: c, remaining: n })
    }

    /// Yields at most the first `n` pulled items, errors included.
    /// Returns the new cell, which holds a share of cell `c`.
    pub fn take(&mut self, c: usize, n: usize) -> (r: usize)
        requires
            old(self).wf(),
            c < old(self).cells@.len(),
        ensures
            final(self).wf(),
            r == old(self).cells@.len(),
            final(self).state() == (share_in(old(self).cells@, c).push(fresh(Node::Take { up: c, remaining: n })), old(self).agenda),
    {
        self.share(c);
        self.attach(Node::Take { up: c, remaining: n })
    }

    /// Passes over values while `pred` holds; an error, or a failure of `pred`, ends the skipping.
    /// Returns the new cell, which holds a share of cell `c`.
    pub fn skip_while(&mut self, c: usize, pred: u64) -> (r: usize)
        requires
            old(self).wf(),
            c < old(self).cells@.len(),
        ensures
            final(self).wf(),
            r == old(self).cells@.len(),
            final(self).state() == (share_in(old(self).cells@, c).push(fresh(Node::SkipWhile { up: c, pred, skipping: true, held: 0 })), old(self).agenda),
    {
        self.share(c);
        self.attach(Node::SkipWhile { up: c, pred, skipping: true, held: 0 })
    }

    /// Yields values while `pred` holds; an error, or a failure of `pred`, is still yielded.
    /// Returns the new cell, which holds a share of cell `c`.
    pub fn take_while(&mut self, c: usize, pred: u64) -> (r: usize)
        requires
            old(self).wf(),
            c < old(self).cells@.len(),
        ensures
            final(self).wf(),
            r == old(self).cells@.len(),
            final(self).state() == (share_in(old(self).cells@, c).push(fresh(Node::TakeWhile { up: c, pred, done: false, held: 0 })), old(self).agenda),
    {
        self.share(c);
        self.attach(Node::TakeWhile { up: c, pred, done: false, held: 0 })
    }

    /// Threads a host state through callable `f`, which answers `(new_state, element)`; its nothing, or its failure, ends the scan.
    /// Returns the new cell, which holds a share of cell `c`.
    pub fn scan(&mut self, c: usize, init: u64, f: u64) -> (r: usize)
        requires
            old(self).wf(),
            c < old(self).cells@.len(),
        ensures
            final(self).wf(),
            r == old(self).cells@.len(),
            final(self).state() == (share_in(old(self).cells@, c).push(fresh(Node::Scan { up: c, f, state: init, done: false })), old(self).agenda),
    {
        self.share(c);
        self.attach(Node::Scan { up: c, f, state: init, done: false })
    }

    /// Yields the elements of the host sequence that `f` gives for each value.
    /// A failure of `f`, or of opening or pulling a nested sequence, is yielded
    /// once as an error, and the next outer item follows.
    /// Returns the new cell, which holds a share of cell `c`.
    pub fn flat_map(&mut self, c: usize, f: u64) -> (r: usize)
        requires
            old(self).wf(),
            c < old(self).cells@.len(),
        ensures
            final(self).wf(),
            r == old(self).cells@.len(),
            final(self).state() == (share_in(old(self).cells@, c).push(fresh(Node::Flatten { up: c, via: Some(f), inner: None, phase: FlatPhase::Idle })), old(self).agenda),
    {
        self.share(c);
        self.attach(Node::Flatten { up: c, via: Some(f), inner: None, phase: FlatPhase::Idle })
    }

    /// Yields the elements of each value, itself a host sequence. A failure of
    /// opening or pulling a nested sequence is yielded once as an error, and
    /// the next outer item follows.
    /// Returns the new cell, which holds a share of cell `c`.
    pub fn flatten(&mut self, c: usize) -> (r: usize)
        requires
            old(self).wf(),
            c < old(self).cells@.len(),
        ensures
            final(self).wf(),
            r == old(self).cells@.len(),
            final(self).state() == (share_in(old(self).cells@, c).push(fresh(Node::Flatten { up: c, via: None, inner: None, phase: FlatPhase::Idle })), old(self).agenda),
    {
        self.share(c);
        self.attach(Node::Flatten { up: c, via: None, inner: None, phase: FlatPhase::Idle })
    }

    /// Once clean exhaustion is seen, reports it on every later pull without asking upstream again.
    /// Returns the new cell, which holds a share of cell `c`.
    pub fn fuse(&mut self, c: usize) -> (r: usize)
        requires
            old(self).wf(),
            c < old(self).cells@.len(),
        ensures
            final(self).wf(),
            r == old(self).cells@.len(),
            final(self).state() == (share_in(old(self).cells@, c).push(fresh(Node::Fuse { up: c, done: false })), old(self).agenda),
    {
        self.share(c);
        self.attach(Node::Fuse { up: c, done: false })
    }

    /// Buffers at most one item ahead, so that a peek does not consume it.
    /// Returns the new cell, which holds a share of cell `c`.
    pub fn peekable(&mut self, c: usize) -> (r: usize)
        requires
            old(self).wf(),
            c < old(self).cells@.len(),
        ensures
            final(self).wf(),
            r == old(self).cells@.len(),
            final(self).state() == (share_in(old(self).cells@, c).push(fresh(Node::Peekable { up: c, slot: None, peeking: false })), old(self).agenda),
    {
        self.share(c);
        self.attach(Node::Peekable { up: c, slot: None, peeking: false })
    }

    /// Whether `c` names a cell of this engine.
    pub fn has(&self, c: usize) -> (r: bool)
        ensures
            r == (c < self.cells@.len()),
    {
        c < self.cells.len()
    }

    /// A pull of cell `c` begins. A cell whose pull is already in flight
    /// is not disturbed: the pull fails at once with `ReentrantAccess`.
    pub fn pull(&mut self, c: usize) -> (s: Signal)
        requires
            old(self).wf(),
        ensures
            final(self).wf(),
            (final(self).state(), s) == start_of(old(self).state(), c, false),
    {
        self.start(c, false)
    }

    /// A look-ahead of peekable cell `c` begins: the item found stays for the
    /// next pull.
    pub fn peek(&mut self, c: usize) -> (s: Signal)
        requires
            old(self).wf(),
        ensures
            final(self).wf(),
            (final(self).state(), s) == start_of(old(self).state(), c, true),
    {
        self.start(c, true)
    }

    fn start(&mut self, c: usize, look: bool) -> (s: Signal)
        requires
            old(self).wf(),
        ensures
            final(self).wf(),
            (final(self).state(), s) == start_of(old(self).state(), c, look),
    {
        if self.agenda.is_some() || c >= self.cells.len() {
            return Signal::Refused;
        }
        let cl = self.cells[c];
        if look && !matches!(cl.node, Node::Peekable { .. }) {
            return Signal::Refused;
        }
        if cl.busy {
            return Signal::Yielded(Some(Err(Fault::ReentrantAccess)));
        }
        self.cells.set(c, Cell { busy: true, caller: None, ..cl });
        self.agenda = Some((c, if look { Input::Look } else { Input::Start }));
        Signal::Proceed
    }

    /// The host's answer to the action that cell `c` asked for.
    pub fn reply(&mut self, c: usize, r: Reply) -> (s: Signal)
        requires
            old(self).wf(),
        ensures
            final(self).wf(),
            (final(self).state(), s) == reply_of(old(self).state(), c, r),
    {
        if self.agenda.is_some() || c >= self.cells.len() {
            return Signal::Refused;
        }
        let cl = self.cells[c];
        if !cl.waiting {
            return Signal::Refused;
        }
        self.cells.set(c, Cell { waiting: false, ..cl });
        self.agenda = Some((c, Input::Reply(r)));
        Signal::Proceed
    }

    /// Carries out the due internal step.
    pub fn proceed(&mut self) -> (s: Signal)
        requires
            old(self).wf(),
        ensures
            final(self).wf(),
            (final(self).state(), s) == proceed_of(old(self).state()),
    {
        let ghost s0 = self.state();
        match self.agenda {
            None => Signal::Refused,
            Some((c, inp)) => {
                let cl = self.cells[c];
                let (n2, ord) = step(cl.node, inp);
                proof {
                    lemma_step_links(cl.node, inp, c as int);
                }
                match ord {
                    Order::Ask(a) => {
                        self.cells.set(c, Cell { node: n2, waiting: true, ..cl });
                        self.agenda = None;
                        Signal::Host(c, a)
                    },
                    Order::Pull(u) => {
                        let cu = self.cells[u];
                        if cu.busy {
                            self.cells.set(c, Cell { node: n2, ..cl });
                            self.agenda = Some((c, Input::Upstream(Some(Err(Fault::ReentrantAccess)))));
                        } else {
                            self.cells.set(c, Cell { node: n2, ..cl });
                            self.cells.set(u, Cell { busy: true, caller: Some(c), ..cu });
                            self.agenda = Some((u, Input::Start));
                        }
                        Signal::Proceed
                    },
                    Order::Emit(r) => {
                        self.cells.set(c, Cell { node: n2, busy: false, caller: None, ..cl });
                        match cl.caller {
                            Some(p) => {
                                self.agenda = Some((p, Input::Upstream(r)));
                                Signal::Proceed
                            },
                            None => {
                                self.agenda = None;
                                Signal::Yielded(r)
                            },
                        }
                    },
                }
            },
        }
    }
}

} // verus!
