//! Laws that relate several pulls, several adapters or every state.
use vstd::prelude::*;
use crate::adapt::{step_of, Input, Node, Order};
use crate::consume::{feed_of, Consumer, Verdict};
use crate::engine::{proceed_of, start_of, well_formed, Cell, State, Signal};
use crate::item::{Action, Fault, Item, Reply};

verus! {

/// The first item of a finite upstream, or clean exhaustion.
pub open spec fn next_of(q: Seq<Item>) -> Option<Item> {
    if q.len() == 0 { None } else { Some(q[0]) }
}

/// What is left of a finite upstream after one pull.
pub open spec fn rest_of(q: Seq<Item>) -> Seq<Item> {
    if q.len() == 0 { q } else { q.subrange(1, q.len() as int) }
}

/// One pull of an adapter, given input `i`, whose upstream cell `x` yields
/// the items of `a` and whose other upstream yields those of `b`, each then
/// cleanly exhausted, while `host` answers its actions. `fuel` bounds the
/// upstream pulls and host actions taken; answers the adapter's next state,
/// the pull's result and what is left of `a` and `b`.
pub open spec fn serve(
    n: Node,
    i: Input,
    a: Seq<Item>,
    b: Seq<Item>,
    x: usize,
    host: spec_fn(Action) -> Reply,
    fuel: nat,
) -> (Node, Option<Item>, Seq<Item>, Seq<Item>)
    decreases fuel,
{
    let (n2, ord) = step_of(n, i);
    match ord {
        Order::Emit(r) => (n2, r, a, b),
        Order::Pull(u) =>
            if fuel == 0 {
                (n2, None, a, b)
            } else if u == x {
                serve(n2, Input::Upstream(next_of(a)), rest_of(a), b, x, host, (fuel - 1) as nat)
            } else {
                serve(n2, Input::Upstream(next_of(b)), a, rest_of(b), x, host, (fuel - 1) as nat)
            },
        Order::Ask(act) =>
            if fuel == 0 {
                (n2, None, a, b)
            } else {
                serve(n2, Input::Reply(host(act)), a, b, x, host, (fuel - 1) as nat)
            },
    }
}

/// The results of `k` successive pulls of such an adapter.
pub open spec fn outputs(
    n: Node,
    a: Seq<Item>,
    b: Seq<Item>,
    x: usize,
    host: spec_fn(Action) -> Reply,
    k: nat,
) -> Seq<Option<Item>>
    decreases k,
{
    if k == 0 {
        Seq::empty()
    } else {
        let (n2, r, a2, b2) = serve(n, Input::Start, a, b, x, host, 4);
        seq![r] + outputs(n2, a2, b2, x, host, (k - 1) as nat)
    }
}

/// Every item of `q`, as pull results.
pub open spec fn somes(q: Seq<Item>) -> Seq<Option<Item>> {
    Seq::new(q.len(), |i: int| Some(q[i]))
}

/// The item an adapter yields for the host's answer to the action it asked.
pub open spec fn reply_item(r: Reply) -> Option<Item> {
    match r {
        Reply::Value(w) => Some(Ok(w)),
        Reply::Fail(e) => Some(Err(Fault::External(e))),
        _ => Some(Err(Fault::MalformedCallableResult)),
    }
}

proof fn lemma_chain_tail(
    first: usize,
    second: usize,
    b: Seq<Item>,
    host: spec_fn(Action) -> Reply,
)
    requires
        first != second,
    ensures
        outputs(Node::Chain { first, second, on_second: true }, Seq::empty(), b, first, host, b.len() + 1)
            == somes(b).push(None),
    decreases b.len(),
{
    let n = Node::Chain { first, second, on_second: true };
    reveal_with_fuel(serve, 3);
    if b.len() == 0 {
        assert(outputs(n, Seq::empty(), b, first, host, 0) == Seq::<Option<Item>>::empty());
        assert(somes(b).push(None) =~= seq![None]);
    } else {
        let rest = rest_of(b);
        lemma_chain_tail(first, second, rest, host);
        assert(serve(n, Input::Start, Seq::empty(), b, first, host, 4) == (n, Some(b[0]), Seq::<Item>::empty(), rest));
        assert(somes(b).push(None) =~= seq![Some(b[0])] + somes(rest).push(None));
    }
}

proof fn lemma_chain_head(
    first: usize,
    second: usize,
    a: Seq<Item>,
    b: Seq<Item>,
    host: spec_fn(Action) -> Reply,
)
    requires
        first != second,
    ensures
        outputs(Node::Chain { first, second, on_second: false }, a, b, first, host, a.len() + b.len() + 1)
            == somes(a) + somes(b).push(None),
    decreases a.len(),
{
    let n = Node::Chain { first, second, on_second: false };
    let m = Node::Chain { first, second, on_second: true };
    reveal_with_fuel(serve, 4);
    if a.len() == 0 {
        lemma_chain_tail(first, second, b, host);
        assert(serve(n, Input::Start, a, b, first, host, 4) == serve(m, Input::Start, a, b, first, host, 4));
        assert(a =~= Seq::<Item>::empty());
        assert(somes(a) + somes(b).push(None) =~= somes(b).push(None));
    } else {
        let rest = rest_of(a);
        lemma_chain_head(first, second, rest, b, host);
        assert(serve(n, Input::Start, a, b, first, host, 4) == (n, Some(a[0]), rest, b));
        assert(somes(a) + somes(b).push(None) =~= seq![Some(a[0])] + (somes(rest) + somes(b).push(None)));
    }
}

/// Chaining two upstreams yields every item of the first, in order, then
/// every item of the second, in order, and then clean exhaustion: `m + n`
/// items in all.
pub proof fn chain_yields_both(
    first: usize,
    second: usize,
    a: Seq<Item>,
    b: Seq<Item>,
    host: spec_fn(Action) -> Reply,
)
    requires
        first != second,
    ensures
        outputs(Node::Chain { first, second, on_second: false }, a, b, first, host, a.len() + b.len() + 1)
            == somes(a) + somes(b).push(None),
{
    lemma_chain_head(first, second, a, b, host);
}

/// Zipping two upstreams yields one pair for each of the first
/// `min(len(a), len(b))` positions, and then clean exhaustion.
pub proof fn zip_stops_at_shorter(
    left: usize,
    right: usize,
    a: Seq<Item>,
    b: Seq<Item>,
    host: spec_fn(Action) -> Reply,
)
    requires
        left != right,
    ensures
        ({
            let k = if a.len() <= b.len() { a.len() } else { b.len() };
            outputs(Node::Zip { left, right, pending: None }, a, b, left, host, k + 1)
                == Seq::new(k, |i: int| reply_item(host(Action::Pair(a[i], b[i])))).push(None)
        }),
    decreases a.len(),
{
    let n = Node::Zip { left, right, pending: None };
    let k = if a.len() <= b.len() { a.len() } else { b.len() };
    reveal_with_fuel(serve, 5);
    if k == 0 {
        assert(outputs(n, rest_of(a), rest_of(b), left, host, 0) == Seq::<Option<Item>>::empty());
        let t = serve(n, Input::Start, a, b, left, host, 4);
        assert(t.1 == None::<Item>);
        assert(outputs(t.0, t.2, t.3, left, host, 0) == Seq::<Option<Item>>::empty());
        assert(outputs(n, a, b, left, host, 1) =~= seq![None]);
        assert(Seq::new(k, |i: int| reply_item(host(Action::Pair(a[i], b[i])))).push(None) =~= seq![None]);
    } else {
        let ra = rest_of(a);
        let rb = rest_of(b);
        zip_stops_at_shorter(left, right, ra, rb, host);
        assert(serve(n, Input::Start, a, b, left, host, 4) == (
            n,
            reply_item(host(Action::Pair(a[0], b[0]))),
            ra,
            rb,
        ));
        let k2 = if ra.len() <= rb.len() { ra.len() } else { rb.len() };
        assert(k2 == k - 1);
        assert(Seq::new(k, |i: int| reply_item(host(Action::Pair(a[i], b[i])))).push(None) =~= seq![
            reply_item(host(Action::Pair(a[0], b[0]))),
        ] + Seq::new(k2, |i: int| reply_item(host(Action::Pair(ra[i], rb[i])))).push(None));
    }
}

/// A peek that finds the buffer empty pulls upstream once and keeps what it
/// finds; a second peek gives the identical item without pulling; the next
/// pull gives that same item and empties the buffer.
pub proof fn peek_is_stable(up: usize, peeking: bool, r: Option<Item>)
    ensures
        step_of(Node::Peekable { up, slot: None, peeking }, Input::Look)
            == (Node::Peekable { up, slot: None, peeking: true }, Order::Pull(up)),
        step_of(Node::Peekable { up, slot: None, peeking: true }, Input::Upstream(r))
            == (Node::Peekable { up, slot: Some(r), peeking: false }, Order::Emit(r)),
        step_of(Node::Peekable { up, slot: Some(r), peeking: false }, Input::Look)
            == (Node::Peekable { up, slot: Some(r), peeking: false }, Order::Emit(r)),
        step_of(Node::Peekable { up, slot: Some(r), peeking: false }, Input::Start)
            == (Node::Peekable { up, slot: None, peeking: false }, Order::Emit(r)),
{
}

/// Through a whole engine: while a peekable cell holds an item, a peek of it
/// gives that item and leaves the engine exactly as it was, asking neither
/// the host nor any upstream; the next pull gives the same item and empties
/// the buffer.
pub proof fn buffered_peek(s: State, p: usize)
    requires
        well_formed(s),
        s.1 is None,
        p < s.0.len(),
        !s.0[p as int].busy,
        s.0[p as int].node is Peekable,
        s.0[p as int].node->Peekable_slot is Some,
    ensures
        ({
            let r = s.0[p as int].node->Peekable_slot.unwrap();
            let up = s.0[p as int].node->Peekable_up;
            let look = start_of(s, p, true);
            let take = start_of(s, p, false);
            &&& look.1 == Signal::Proceed
            &&& proceed_of(look.0) == (s, Signal::Yielded(r))
            &&& take.1 == Signal::Proceed
            &&& proceed_of(take.0).1 == Signal::Yielded(r)
            &&& proceed_of(take.0).0.0[p as int].node == Node::Peekable { up, slot: None, peeking: false }
            &&& proceed_of(take.0).0.1 is None
        }),
{
    let c = s.0[p as int];
    assert(c.caller is None);
    assert(!c.waiting);
    let look = start_of(s, p, true);
    assert(proceed_of(look.0).0.0 =~= s.0);
}

/// An error item reaches every adapter that judges values (map, inspect,
/// filter, filter-map, skip-while, take-while, scan) and passes on unchanged
/// as that pull's result, without any host callable being invoked.
pub proof fn errors_pass_unjudged(n: Node, e: Fault)
    requires
        n is Apply || n is Inspect || n is Filter || n is FilterMap || n is SkipWhile
            || n is TakeWhile || n is Scan,
    ensures
        step_of(n, Input::Upstream(Some(Err(e)))).1 == Order::Emit(Some(Err(e))),
{
}

/// A filter keeps a value unless its predicate answers false: a failure of
/// the predicate keeps the value.
pub proof fn filter_keeps_unless_false(up: usize, pred: u64, held: u64, r: Reply)
    ensures
        r != Reply::Flag(false) ==> step_of(Node::Filter { up, pred, held }, Input::Reply(r)).1
            == Order::Emit(Some(Ok::<u64, Fault>(held))),
        step_of(Node::Filter { up, pred, held }, Input::Reply(Reply::Flag(false))).1 == Order::Pull(up),
{
}

/// Once a fused adapter has seen clean exhaustion, every later pull or peek
/// reports clean exhaustion at once, without pulling upstream again, whatever
/// the upstream would now yield.
pub proof fn fuse_stays_exhausted(up: usize, i: Input)
    requires
        i is Start || i is Look,
    ensures
        step_of(Node::Fuse { up, done: false }, Input::Upstream(None))
            == (Node::Fuse { up, done: true }, Order::Emit(None::<Item>)),
        step_of(Node::Fuse { up, done: true }, i) == (Node::Fuse { up, done: true }, Order::Emit(None::<Item>)),
{
}

/// Through a whole engine: a pull of a fused cell that has seen clean
/// exhaustion reports it again and leaves the engine exactly as it was,
/// pulling no upstream and asking nothing of the host.
pub proof fn fused_cell_stays_exhausted(s: State, c: usize)
    requires
        well_formed(s),
        s.1 is None,
        c < s.0.len(),
        !s.0[c as int].busy,
        s.0[c as int].node is Fuse,
        s.0[c as int].node->Fuse_done,
    ensures
        start_of(s, c, false).1 == Signal::Proceed,
        proceed_of(start_of(s, c, false).0) == (s, Signal::Yielded(None)),
{
    assert(s.0[c as int].caller is None);
    let t = start_of(s, c, false);
    assert(proceed_of(t.0).0.0 =~= s.0);
}

/// The cell `k` caller links above cell `w`: the pulls that wait on `w`'s.
pub open spec fn above(cs: Seq<Cell>, w: int, k: nat) -> int
    decreases k,
{
    if k == 0 {
        w
    } else {
        let p = above(cs, w, (k - 1) as nat);
        if 0 <= p < cs.len() && cs[p].caller is Some {
            cs[p].caller.unwrap() as int
        } else {
            p
        }
    }
}

/// While a cell waits for the host (as it does while a host callable runs on
/// behalf of its pull), that cell and every cell whose pull waits on it are
/// in flight, and a pull of any of them fails with `ReentrantAccess` and
/// changes nothing.
pub proof fn reentrant_pull_fails(s: State, w: usize, k: nat)
    requires
        well_formed(s),
        s.1 is None,
        w < s.0.len(),
        s.0[w as int].waiting,
    ensures
        0 <= above(s.0, w as int, k) < s.0.len(),
        s.0[above(s.0, w as int, k)].busy,
        start_of(s, above(s.0, w as int, k) as usize, false)
            == (s, Signal::Yielded(Some(Err(Fault::ReentrantAccess)))),
    decreases k,
{
    if k > 0 {
        reentrant_pull_fails(s, w, (k - 1) as nat);
    }
}

/// The results of a run of pulls: each value, then clean exhaustion.
pub open spec fn run_of(vs: Seq<u64>) -> Seq<Option<Item>> {
    Seq::new(vs.len(), |i: int| Some(Ok(vs[i]))).push(None)
}

/// Feeds pull results to a consumer in order, as long as it asks for more.
pub open spec fn drain(c: Consumer, rs: Seq<Option<Item>>) -> Verdict
    decreases rs.len(),
{
    if rs.len() == 0 {
        Verdict::Again
    } else {
        let (c2, v) = feed_of(c, rs[0]);
        if v is Again {
            drain(c2, rs.subrange(1, rs.len() as int))
        } else {
            v
        }
    }
}

proof fn lemma_count_from(seen: usize, vs: Seq<u64>)
    requires
        seen + vs.len() <= usize::MAX,
    ensures
        drain(Consumer::Count { seen }, run_of(vs)) == Verdict::Counted((seen + vs.len()) as usize),
    decreases vs.len(),
{
    if vs.len() > 0 {
        let rest = vs.subrange(1, vs.len() as int);
        lemma_count_from((seen + 1) as usize, rest);
        assert(run_of(vs).subrange(1, run_of(vs).len() as int) =~= run_of(rest));
    } else {
        assert(run_of(vs).subrange(1, run_of(vs).len() as int) =~= Seq::<Option<Item>>::empty());
    }
}

/// Counting a run of pulls gives the number of values that pulling the same
/// run one by one yields before clean exhaustion.
pub proof fn count_matches_iteration(vs: Seq<u64>)
    requires
        vs.len() <= usize::MAX,
    ensures
        drain(Consumer::Count { seen: 0 }, run_of(vs)) == Verdict::Counted(vs.len() as usize),
{
    lemma_count_from(0, vs);
}

} // verus!
