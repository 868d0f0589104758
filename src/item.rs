use vstd::prelude::*;

verus! {

/// Why a pulled position holds no value.
#[derive(Clone, Copy, PartialEq, Eq, Debug)]
pub enum Fault {
    /// A failure raised by the host source or a host callable; the payload
    /// is the host's handle to its error object, passed through unchanged.
    External(u64),
    /// A pull was attempted on a cell whose previous pull is still in flight.
    ReentrantAccess,
    /// A host callable returned something other than its contracted shape.
    MalformedCallableResult,
}

/// One pulled position: a host value handle, or why there is none.
pub type Item = Result<u64, Fault>;

/// Host work that a pull needs before it can go on.
#[derive(Clone, Copy, PartialEq, Eq, Debug)]
pub enum Action {
    /// Ask the host cursor for its next element: `Value`, `Stop` or `Fail`.
    Advance(u64),
    /// Obtain a forward cursor over a host object: `Value(cursor)` or `Fail`.
    Open(u64),
    /// Invoke callable `.0` with the value `.1`: `Value` or `Fail`.
    Call(u64, u64),
    /// Invoke callable `.0` with `.1`, telling the host's nothing apart:
    /// `Value`, `Nothing` or `Fail`.
    Select(u64, u64),
    /// Invoke predicate `.0` with `.1` and take its truth: `Flag` or `Fail`.
    Test(u64, u64),
    /// Invoke a scan callable `.0` with state `.1` and value `.2`:
    /// `Two(new_state, element)`, `Nothing`, or `Fail`; any other shape is
    /// malformed.
    Step(u64, u64, u64),
    /// Build the host pair `(index, value)`: `Value` or `Fail`.
    Number(usize, u64),
    /// Build the host pair of two pulled positions: `Value` or `Fail`.
    Pair(Item, Item),
    /// Invoke fold callable `.0` with accumulator `.1` and value `.2`.
    Fold(u64, u64, u64),
    /// Combine accumulator `.0` with value `.1` by the host's addition.
    Add(u64, u64),
}

/// The host's answer to an [`Action`].
#[derive(Clone, Copy, PartialEq, Eq, Debug)]
pub enum Reply {
    /// A host value (never the host's nothing when the action tells it apart).
    Value(u64),
    /// The host's nothing.
    Nothing,
    /// A host pair, taken apart.
    Two(u64, u64),
    /// A truth value.
    Flag(bool),
    /// Clean exhaustion of a host cursor.
    Stop,
    /// A host failure, with the host's handle to its error object.
    Fail(u64),
}

} // verus!
