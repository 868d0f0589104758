use itrs::{answer, feed, Action, Consumer, Engine, Fault, Item, Reply, Signal, Verdict};
use std::collections::HashMap;

#[derive(Clone, Copy)]
enum Entry {
    V(u64),
    F(u64),
    S,
}

const DOUBLE: u64 = 1;
const IS_EVEN: u64 = 2;
const RUNNING_SUM: u64 = 3;
const HALF_IF_EVEN: u64 = 4;
const ALWAYS_FAILS: u64 = 5;
const BELOW_THREE: u64 = 6;
const REENTER: u64 = 7;
const NOT_A_PAIR: u64 = 8;
const SUM_UNTIL_THREE: u64 = 9;
const SHIFT_TO_LIST: u64 = 10;
const TIMES_TEN_PLUS: u64 = 11;

struct Host {
    cursors: Vec<(Vec<Entry>, usize)>,
    lists: HashMap<u64, Vec<Entry>>,
    reenter: usize,
    seen: Vec<Option<Item>>,
    calls: usize,
}

impl Host {
    fn new() -> Host {
        Host { cursors: Vec::new(), lists: HashMap::new(), reenter: 0, seen: Vec::new(), calls: 0 }
    }

    fn cursor(&mut self, entries: Vec<Entry>) -> u64 {
        self.cursors.push((entries, 0));
        (self.cursors.len() - 1) as u64
    }

    fn act(&mut self, e: &mut Engine, a: Action) -> Reply {
        self.calls += 1;
        match a {
            Action::Advance(c) => {
                let (entries, pos) = &mut self.cursors[c as usize];
                if *pos >= entries.len() {
                    return Reply::Stop;
                }
                let x = entries[*pos];
                *pos += 1;
                match x {
                    Entry::V(v) => Reply::Value(v),
                    Entry::F(f) => Reply::Fail(f),
                    Entry::S => Reply::Stop,
                }
            }
            Action::Open(obj) => match self.lists.get(&obj) {
                Some(entries) => {
                    let entries = entries.clone();
                    Reply::Value(self.cursor(entries))
                }
                None => Reply::Fail(obj),
            },
            Action::Call(DOUBLE, v) => Reply::Value(2 * v),
            Action::Call(SHIFT_TO_LIST, v) => Reply::Value(v + 100),
            Action::Call(REENTER, v) => {
                let target = self.reenter;
                let r = next(e, self, target);
                self.seen.push(r);
                Reply::Value(v)
            }
            Action::Call(_, _) => Reply::Fail(555),
            Action::Select(HALF_IF_EVEN, v) => {
                if v % 2 == 0 {
                    Reply::Value(v / 2)
                } else {
                    Reply::Nothing
                }
            }
            Action::Select(_, _) => Reply::Fail(555),
            Action::Test(IS_EVEN, v) => Reply::Flag(v % 2 == 0),
            Action::Test(BELOW_THREE, v) => Reply::Flag(v < 3),
            Action::Test(_, _) => Reply::Fail(555),
            Action::Step(RUNNING_SUM, s, v) => Reply::Two(s + v, s + v),
            Action::Step(SUM_UNTIL_THREE, s, v) => {
                if v >= 3 {
                    Reply::Nothing
                } else {
                    Reply::Two(s + v, s + v)
                }
            }
            Action::Step(NOT_A_PAIR, _, _) => Reply::Value(0),
            Action::Step(_, _, _) => Reply::Fail(555),
            Action::Number(i, v) => Reply::Value(i as u64 * 100 + v),
            Action::Pair(x, y) => {
                let code = |i: Item| match i {
                    Ok(v) => v,
                    Err(_) => 99,
                };
                Reply::Value(code(x) * 100 + code(y))
            }
            Action::Fold(TIMES_TEN_PLUS, acc, v) => Reply::Value(acc * 10 + v),
            Action::Fold(_, _, _) => Reply::Fail(555),
            Action::Add(acc, v) => Reply::Value(acc + v),
        }
    }
}

fn drive(e: &mut Engine, h: &mut Host, mut s: Signal) -> Option<Item> {
    loop {
        s = match s {
            Signal::Proceed => e.proceed(),
            Signal::Host(c, a) => {
                let r = h.act(e, a);
                e.reply(c, r)
            }
            Signal::Yielded(r) => return r,
            Signal::Refused => panic!("the engine refused a call"),
        }
    }
}

fn next(e: &mut Engine, h: &mut Host, c: usize) -> Option<Item> {
    let s = e.pull(c);
    drive(e, h, s)
}

fn peek(e: &mut Engine, h: &mut Host, c: usize) -> Option<Item> {
    let s = e.peek(c);
    drive(e, h, s)
}

fn collect(e: &mut Engine, h: &mut Host, c: usize) -> Vec<Item> {
    let mut out = Vec::new();
    while let Some(x) = next(e, h, c) {
        out.push(x);
        assert!(out.len() < 1000);
    }
    out
}

fn consume(e: &mut Engine, h: &mut Host, c: usize, mut k: Consumer) -> Verdict {
    loop {
        let r = next(e, h, c);
        let (k2, mut v) = feed(k, r);
        k = k2;
        loop {
            match v {
                Verdict::Again => break,
                Verdict::Ask(a) => {
                    let rep = h.act(e, a);
                    let (k3, v3) = answer(k, rep);
                    k = k3;
                    v = v3;
                }
                other => return other,
            }
        }
    }
}

fn values(vs: &[u64]) -> Vec<Entry> {
    vs.iter().map(|v| Entry::V(*v)).collect()
}

fn oks(vs: &[u64]) -> Vec<Item> {
    vs.iter().map(|v| Ok(*v)).collect()
}

fn source(e: &mut Engine, h: &mut Host, entries: Vec<Entry>) -> usize {
    let cur = h.cursor(entries);
    e.source(cur)
}

#[test]
fn it_works() {
    assert_eq!(2 + 2, 4);
}

#[test]
fn source_yields_values_then_exhaustion() {
    let (mut e, mut h) = (Engine::new(), Host::new());
    let s = source(&mut e, &mut h, vec![Entry::V(4), Entry::F(9), Entry::V(5)]);
    assert_eq!(collect(&mut e, &mut h, s), vec![Ok(4), Err(Fault::External(9)), Ok(5)]);
}

#[test]
fn bare_source_asks_again_after_exhaustion() {
    let (mut e, mut h) = (Engine::new(), Host::new());
    let s = source(&mut e, &mut h, vec![Entry::V(1), Entry::S, Entry::V(2)]);
    assert_eq!(next(&mut e, &mut h, s), Some(Ok(1)));
    assert_eq!(next(&mut e, &mut h, s), None);
    assert_eq!(next(&mut e, &mut h, s), Some(Ok(2)));
}

#[test]
fn count_equals_manual_iteration() {
    let (mut e, mut h) = (Engine::new(), Host::new());
    let s = source(&mut e, &mut h, values(&[1, 2, 3, 4, 5, 6]));
    let f = e.filter(s, IS_EVEN);
    let m = e.map(f, DOUBLE);
    let manual = collect(&mut e, &mut h, m);
    assert_eq!(manual, oks(&[4, 8, 12]));

    let s2 = source(&mut e, &mut h, values(&[1, 2, 3, 4, 5, 6]));
    let f2 = e.filter(s2, IS_EVEN);
    let m2 = e.map(f2, DOUBLE);
    assert_eq!(consume(&mut e, &mut h, m2, Consumer::Count { seen: 0 }), Verdict::Counted(manual.len()));
}

#[test]
fn count_stops_at_first_error() {
    let (mut e, mut h) = (Engine::new(), Host::new());
    let s = source(&mut e, &mut h, vec![Entry::V(1), Entry::F(7), Entry::V(2)]);
    assert_eq!(consume(&mut e, &mut h, s, Consumer::Count { seen: 0 }), Verdict::Finish(Err(Fault::External(7))));
}

#[test]
fn chain_yields_all_of_both_in_order() {
    let (mut e, mut h) = (Engine::new(), Host::new());
    let a = source(&mut e, &mut h, values(&[1, 2]));
    let b = source(&mut e, &mut h, values(&[3, 4, 5]));
    let c = e.chain(a, b);
    assert_eq!(collect(&mut e, &mut h, c), oks(&[1, 2, 3, 4, 5]));
}

#[test]
fn chain_does_not_switch_on_error() {
    let (mut e, mut h) = (Engine::new(), Host::new());
    let a = source(&mut e, &mut h, vec![Entry::F(8), Entry::V(1)]);
    let b = source(&mut e, &mut h, values(&[3]));
    let c = e.chain(a, b);
    assert_eq!(collect(&mut e, &mut h, c), vec![Err(Fault::External(8)), Ok(1), Ok(3)]);
}

#[test]
fn zip_stops_after_shorter() {
    let (mut e, mut h) = (Engine::new(), Host::new());
    let a = source(&mut e, &mut h, values(&[1, 2, 3]));
    let b = source(&mut e, &mut h, values(&[10, 20]));
    let z = e.zip(a, b);
    assert_eq!(collect(&mut e, &mut h, z), oks(&[110, 220]));
}

#[test]
fn zip_keeps_each_side_of_a_pair() {
    let (mut e, mut h) = (Engine::new(), Host::new());
    let a = source(&mut e, &mut h, vec![Entry::F(4), Entry::V(2)]);
    let b = source(&mut e, &mut h, values(&[7, 8]));
    let z = e.zip(a, b);
    assert_eq!(collect(&mut e, &mut h, z), oks(&[9907, 208]));
}

#[test]
fn filter_never_drops_errors() {
    let (mut e, mut h) = (Engine::new(), Host::new());
    let s = source(&mut e, &mut h, vec![Entry::V(1), Entry::F(42), Entry::V(2)]);
    let f = e.filter(s, IS_EVEN);
    assert_eq!(collect(&mut e, &mut h, f), vec![Err(Fault::External(42)), Ok(2)]);
}

#[test]
fn filter_keeps_value_when_predicate_fails() {
    let (mut e, mut h) = (Engine::new(), Host::new());
    let s = source(&mut e, &mut h, values(&[1, 2]));
    let f = e.filter(s, ALWAYS_FAILS);
    assert_eq!(collect(&mut e, &mut h, f), oks(&[1, 2]));
}

#[test]
fn peek_twice_then_next() {
    let (mut e, mut h) = (Engine::new(), Host::new());
    let s = source(&mut e, &mut h, values(&[5, 6]));
    let p = e.peekable(s);
    assert_eq!(peek(&mut e, &mut h, p), Some(Ok(5)));
    let calls = h.calls;
    assert_eq!(peek(&mut e, &mut h, p), Some(Ok(5)));
    assert_eq!(h.calls, calls);
    assert_eq!(next(&mut e, &mut h, p), Some(Ok(5)));
    assert_eq!(next(&mut e, &mut h, p), Some(Ok(6)));
    assert_eq!(peek(&mut e, &mut h, p), None);
    assert_eq!(next(&mut e, &mut h, p), None);
}

#[test]
fn peek_of_plain_cell_is_refused() {
    let (mut e, mut h) = (Engine::new(), Host::new());
    let s = source(&mut e, &mut h, values(&[5]));
    assert_eq!(e.peek(s), Signal::Refused);
    assert_eq!(e.peek(s + 1), Signal::Refused);
}

#[test]
fn scan_running_sum() {
    let (mut e, mut h) = (Engine::new(), Host::new());
    let s = source(&mut e, &mut h, values(&[1, 2, 3]));
    let sc = e.scan(s, 0, RUNNING_SUM);
    assert_eq!(collect(&mut e, &mut h, sc), oks(&[1, 3, 6]));
}

#[test]
fn scan_nothing_ends_the_scan() {
    let (mut e, mut h) = (Engine::new(), Host::new());
    let s = source(&mut e, &mut h, values(&[1, 2, 3, 1]));
    let sc = e.scan(s, 0, SUM_UNTIL_THREE);
    assert_eq!(collect(&mut e, &mut h, sc), oks(&[1, 3]));
    assert_eq!(next(&mut e, &mut h, sc), None);
}

#[test]
fn scan_malformed_result() {
    let (mut e, mut h) = (Engine::new(), Host::new());
    let s = source(&mut e, &mut h, values(&[1, 2]));
    let sc = e.scan(s, 0, NOT_A_PAIR);
    assert_eq!(collect(&mut e, &mut h, sc), vec![Err(Fault::MalformedCallableResult)]);
}

#[test]
fn scan_forwards_upstream_error() {
    let (mut e, mut h) = (Engine::new(), Host::new());
    let s = source(&mut e, &mut h, vec![Entry::V(1), Entry::F(3), Entry::V(2)]);
    let sc = e.scan(s, 10, RUNNING_SUM);
    assert_eq!(collect(&mut e, &mut h, sc), vec![Ok(11), Err(Fault::External(3)), Ok(13)]);
}

#[test]
fn scan_callable_failure_ends_the_scan() {
    let (mut e, mut h) = (Engine::new(), Host::new());
    let s = source(&mut e, &mut h, values(&[1, 2]));
    let sc = e.scan(s, 0, ALWAYS_FAILS);
    assert_eq!(collect(&mut e, &mut h, sc), vec![Err(Fault::External(555))]);
}

#[test]
fn flatten_nested() {
    let (mut e, mut h) = (Engine::new(), Host::new());
    h.lists.insert(101, values(&[1, 2]));
    h.lists.insert(102, values(&[3]));
    let s = source(&mut e, &mut h, values(&[101, 102]));
    let f = e.flatten(s);
    assert_eq!(collect(&mut e, &mut h, f), oks(&[1, 2, 3]));
}

#[test]
fn flatten_inner_open_fails() {
    let (mut e, mut h) = (Engine::new(), Host::new());
    h.lists.insert(101, values(&[1, 2]));
    let s = source(&mut e, &mut h, values(&[101, 102]));
    let f = e.flatten(s);
    assert_eq!(collect(&mut e, &mut h, f), vec![Ok(1), Ok(2), Err(Fault::External(102))]);
}

#[test]
fn flatten_continues_after_inner_failure() {
    let (mut e, mut h) = (Engine::new(), Host::new());
    h.lists.insert(101, vec![Entry::V(1), Entry::F(6), Entry::V(2)]);
    h.lists.insert(103, values(&[3]));
    let s = source(&mut e, &mut h, vec![Entry::V(101), Entry::F(9), Entry::V(103)]);
    let f = e.flatten(s);
    assert_eq!(
        collect(&mut e, &mut h, f),
        vec![Ok(1), Err(Fault::External(6)), Err(Fault::External(9)), Ok(3)]
    );
}

#[test]
fn flat_map_transforms_then_flattens() {
    let (mut e, mut h) = (Engine::new(), Host::new());
    h.lists.insert(101, values(&[7]));
    h.lists.insert(102, values(&[8, 9]));
    let s = source(&mut e, &mut h, values(&[1, 2]));
    let f = e.flat_map(s, SHIFT_TO_LIST);
    assert_eq!(collect(&mut e, &mut h, f), oks(&[7, 8, 9]));
    let s2 = source(&mut e, &mut h, values(&[1]));
    let g = e.flat_map(s2, ALWAYS_FAILS);
    assert_eq!(collect(&mut e, &mut h, g), vec![Err(Fault::External(555))]);
}

#[test]
fn reentrant_pull_fails() {
    let (mut e, mut h) = (Engine::new(), Host::new());
    let s = source(&mut e, &mut h, values(&[1, 2, 3]));
    let m = e.map(s, REENTER);
    h.reenter = m;
    assert_eq!(next(&mut e, &mut h, m), Some(Ok(1)));
    assert_eq!(h.seen, vec![Some(Err(Fault::ReentrantAccess))]);
    h.reenter = s;
    assert_eq!(next(&mut e, &mut h, m), Some(Ok(2)));
    assert_eq!(h.seen[1], Some(Ok(3)));
    assert_eq!(next(&mut e, &mut h, m), None);
}

#[test]
fn reentrant_pull_of_upstream_in_flight_fails() {
    let (mut e, mut h) = (Engine::new(), Host::new());
    let s = source(&mut e, &mut h, values(&[1, 2, 3]));
    let m = e.map(s, REENTER);
    let outer = e.map(m, DOUBLE);
    h.reenter = outer;
    assert_eq!(next(&mut e, &mut h, outer), Some(Ok(2)));
    assert_eq!(h.seen, vec![Some(Err(Fault::ReentrantAccess))]);
}

#[test]
fn fuse_stays_exhausted_after_resurrection() {
    let (mut e, mut h) = (Engine::new(), Host::new());
    let s = source(&mut e, &mut h, vec![Entry::V(1), Entry::S, Entry::V(2), Entry::V(3)]);
    let f = e.fuse(s);
    assert_eq!(next(&mut e, &mut h, f), Some(Ok(1)));
    assert_eq!(next(&mut e, &mut h, f), None);
    let calls = h.calls;
    assert_eq!(next(&mut e, &mut h, f), None);
    assert_eq!(next(&mut e, &mut h, f), None);
    assert_eq!(h.calls, calls);
    assert_eq!(next(&mut e, &mut h, s), Some(Ok(2)));
}

#[test]
fn map_inspect_filter_map() {
    let (mut e, mut h) = (Engine::new(), Host::new());
    let s = source(&mut e, &mut h, vec![Entry::V(3), Entry::F(1), Entry::V(4)]);
    let m = e.map(s, DOUBLE);
    assert_eq!(collect(&mut e, &mut h, m), vec![Ok(6), Err(Fault::External(1)), Ok(8)]);

    let s = source(&mut e, &mut h, values(&[3, 4]));
    let i = e.inspect(s, DOUBLE);
    assert_eq!(collect(&mut e, &mut h, i), oks(&[3, 4]));
    let s = source(&mut e, &mut h, values(&[3]));
    let i = e.inspect(s, ALWAYS_FAILS);
    assert_eq!(collect(&mut e, &mut h, i), vec![Err(Fault::External(555))]);

    let s = source(&mut e, &mut h, values(&[1, 2, 3, 4]));
    let fm = e.filter_map(s, HALF_IF_EVEN);
    assert_eq!(collect(&mut e, &mut h, fm), oks(&[1, 2]));
}

#[test]
fn enumerate_counts_errors_too() {
    let (mut e, mut h) = (Engine::new(), Host::new());
    let s = source(&mut e, &mut h, vec![Entry::V(7), Entry::F(2), Entry::V(9)]);
    let en = e.enumerate(s);
    assert_eq!(collect(&mut e, &mut h, en), vec![Ok(7), Err(Fault::External(2)), Ok(209)]);
}

#[test]
fn positional_adapters() {
    let (mut e, mut h) = (Engine::new(), Host::new());
    let s = source(&mut e, &mut h, values(&[0, 1, 2, 3, 4, 5, 6]));
    let st = e.step_by(s, 3);
    assert_eq!(collect(&mut e, &mut h, st), oks(&[0, 3, 6]));

    let s = source(&mut e, &mut h, vec![Entry::F(1), Entry::V(1), Entry::V(2)]);
    let sk = e.skip(s, 2);
    assert_eq!(collect(&mut e, &mut h, sk), oks(&[2]));

    let s = source(&mut e, &mut h, vec![Entry::F(1), Entry::V(1), Entry::V(2)]);
    let tk = e.take(s, 2);
    assert_eq!(collect(&mut e, &mut h, tk), vec![Err(Fault::External(1)), Ok(1)]);
    let calls = h.calls;
    assert_eq!(next(&mut e, &mut h, tk), None);
    assert_eq!(h.calls, calls);
}

#[test]
fn skip_while_and_take_while() {
    let (mut e, mut h) = (Engine::new(), Host::new());
    let s = source(&mut e, &mut h, values(&[1, 2, 3, 1]));
    let sw = e.skip_while(s, BELOW_THREE);
    assert_eq!(collect(&mut e, &mut h, sw), oks(&[3, 1]));

    let s = source(&mut e, &mut h, vec![Entry::V(1), Entry::F(5), Entry::V(2)]);
    let sw = e.skip_while(s, BELOW_THREE);
    assert_eq!(collect(&mut e, &mut h, sw), vec![Err(Fault::External(5)), Ok(2)]);

    let s = source(&mut e, &mut h, values(&[1, 2]));
    let sw = e.skip_while(s, ALWAYS_FAILS);
    assert_eq!(collect(&mut e, &mut h, sw), oks(&[1, 2]));

    let s = source(&mut e, &mut h, vec![Entry::V(1), Entry::F(5), Entry::V(2), Entry::V(3), Entry::V(1)]);
    let tw = e.take_while(s, BELOW_THREE);
    assert_eq!(collect(&mut e, &mut h, tw), vec![Ok(1), Err(Fault::External(5)), Ok(2)]);
    assert_eq!(next(&mut e, &mut h, tw), None);

    let s = source(&mut e, &mut h, values(&[4, 5]));
    let tw = e.take_while(s, ALWAYS_FAILS);
    assert_eq!(collect(&mut e, &mut h, tw), oks(&[4, 5]));
}

#[test]
fn terminal_consumers() {
    let (mut e, mut h) = (Engine::new(), Host::new());
    let s = source(&mut e, &mut h, values(&[1, 2, 3]));
    assert_eq!(consume(&mut e, &mut h, s, Consumer::Last { latest: None }), Verdict::Finish(Ok(Some(3))));
    let s = source(&mut e, &mut h, vec![]);
    assert_eq!(consume(&mut e, &mut h, s, Consumer::Last { latest: None }), Verdict::Finish(Ok(None)));
    let s = source(&mut e, &mut h, vec![Entry::F(2), Entry::V(5), Entry::V(6)]);
    assert_eq!(consume(&mut e, &mut h, s, Consumer::Nth { remaining: 1 }), Verdict::Finish(Ok(Some(5))));
    let s = source(&mut e, &mut h, values(&[5]));
    assert_eq!(consume(&mut e, &mut h, s, Consumer::Nth { remaining: 3 }), Verdict::Finish(Ok(None)));
    let s = source(&mut e, &mut h, values(&[1, 2, 3]));
    assert_eq!(
        consume(&mut e, &mut h, s, Consumer::Fold { f: TIMES_TEN_PLUS, acc: 4 }),
        Verdict::Finish(Ok(Some(4123)))
    );
    let s = source(&mut e, &mut h, vec![Entry::V(1), Entry::F(8), Entry::V(3)]);
    assert_eq!(
        consume(&mut e, &mut h, s, Consumer::Fold { f: TIMES_TEN_PLUS, acc: 4 }),
        Verdict::Finish(Err(Fault::External(8)))
    );
    let s = source(&mut e, &mut h, values(&[1, 2, 3]));
    assert_eq!(consume(&mut e, &mut h, s, Consumer::Sum { acc: 10 }), Verdict::Finish(Ok(Some(16))));
    let s = source(&mut e, &mut h, values(&[1, 2, 3]));
    assert_eq!(consume(&mut e, &mut h, s, Consumer::ForEach { f: DOUBLE }), Verdict::Finish(Ok(None)));
}

#[test]
fn for_each_stops_at_first_failure() {
    let (mut e, mut h) = (Engine::new(), Host::new());
    let s = source(&mut e, &mut h, values(&[1, 2, 3]));
    assert_eq!(
        consume(&mut e, &mut h, s, Consumer::ForEach { f: ALWAYS_FAILS }),
        Verdict::Finish(Err(Fault::External(555)))
    );
    assert_eq!(next(&mut e, &mut h, s), Some(Ok(2)));
}

#[test]
fn shares_and_protocol_guards() {
    let (mut e, mut h) = (Engine::new(), Host::new());
    let s = source(&mut e, &mut h, values(&[1]));
    assert_eq!(e.ref_count(s), 1);
    let m = e.map(s, DOUBLE);
    let z = e.zip(s, m);
    assert_eq!(e.ref_count(s), 3);
    assert_eq!(e.ref_count(z), 1);
    e.release(z);
    assert_eq!(e.ref_count(z), 0);
    e.share(m);
    assert_eq!(e.ref_count(m), 3);
    assert!(e.has(z));
    assert!(!e.has(z + 1));
    assert_eq!(e.reply(s, Reply::Value(1)), Signal::Refused);
    assert_eq!(e.proceed(), Signal::Refused);
    assert_eq!(e.pull(z + 1), Signal::Refused);
    assert_eq!(e.pull(s), Signal::Proceed);
    assert_eq!(e.pull(m), Signal::Refused);
    assert_eq!(e.proceed(), Signal::Host(s, Action::Advance(0)));
    assert_eq!(e.pull(s), Signal::Yielded(Some(Err(Fault::ReentrantAccess))));
    let sig = e.reply(s, Reply::Value(1));
    assert_eq!(drive(&mut e, &mut h, sig), Some(Ok(1)));
}
