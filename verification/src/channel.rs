//! The broadcast cell: a single-slot, versioned, latest-value-only channel
//! from one producer to any number of subscribers.
//!
//! The cell never queues. A publish overwrites the value and bumps the
//! version; a subscriber compares the version it last saw with the cell's and
//! either finds nothing new or reads the newest value, however many publishes
//! it slept through.

use vstd::prelude::*;

verus! {

/// What a cell holds, as mathematics.
pub struct CellState {
    /// The message published last.
    pub value: Seq<char>,
    /// How many publishes the cell has taken.
    pub version: nat,
    /// Whether the producer side is gone for good.
    pub closed: bool,
}

/// What one look at the cell tells a subscriber.
pub enum Observation {
    /// Nothing new and the producer is still there: suspend and look again.
    Pending,
    /// The newest value, unseen until now.
    Changed(Seq<char>),
    /// Nothing new and nothing will ever come.
    Closed,
}

/// The cell after a publish of `value`: a closed cell stays as it is, an open
/// one holds `value` under the next version.
pub open spec fn published(cell: CellState, value: Seq<char>) -> CellState {
    if cell.closed {
        cell
    } else {
        CellState { value, version: cell.version + 1, closed: false }
    }
}

/// The cell after the producer is dropped.
pub open spec fn shut(cell: CellState) -> CellState {
    CellState { closed: true, ..cell }
}

/// What a subscriber that last saw version `seen` observes on `cell`.
pub open spec fn observation(cell: CellState, seen: nat) -> Observation {
    if seen < cell.version {
        Observation::Changed(cell.value)
    } else if cell.closed {
        Observation::Closed
    } else {
        Observation::Pending
    }
}

/// The version a subscriber holds after looking at `cell`.
pub open spec fn advanced(cell: CellState, seen: nat) -> nat {
    if seen < cell.version {
        cell.version
    } else {
        seen
    }
}

/// The error of a publish on a closed cell.
#[derive(Clone, Copy, Debug, PartialEq, Eq, Structural)]
pub struct ChannelClosed;

/// The outcome of one non-suspending look at the cell.
#[derive(Debug, PartialEq, Eq)]
pub enum Polled {
    /// Nothing new yet.
    Pending,
    /// The newest message.
    Changed(String),
    /// The channel is closed and the subscriber has seen its last value.
    Closed,
}

impl View for Polled {
    type V = Observation;

    open spec fn view(&self) -> Observation {
        match self {
            Polled::Pending => Observation::Pending,
            Polled::Changed(message) => Observation::Changed(message@),
            Polled::Closed => Observation::Closed,
        }
    }
}

/// A subscriber's position: the version it saw last.
#[derive(Debug)]
pub struct Cursor {
    seen: u64,
}

impl View for Cursor {
    type V = nat;

    closed spec fn view(&self) -> nat {
        self.seen as nat
    }
}

impl Cursor {
    /// The version this cursor saw last.
    pub fn seen_version(&self) -> (version: u64)
        ensures
            version == self@,
    {
        self.seen
    }
}

/// The cell itself. Only the publisher holds it mutably.
#[derive(Debug)]
pub struct BroadcastCell {
    value: String,
    version: u64,
    closed: bool,
}

impl View for BroadcastCell {
    type V = CellState;

    closed spec fn view(&self) -> CellState {
        CellState { value: self.value@, version: self.version as nat, closed: self.closed }
    }
}

impl BroadcastCell {
    /// An open cell at version 0 that holds `initial`.
    pub fn new(initial: String) -> (cell: Self)
        ensures
            cell@ == (CellState { value: initial@, version: 0, closed: false }),
    {
        BroadcastCell { value: initial, version: 0, closed: false }
    }

    /// Replaces the current value and makes it visible to every subscriber.
    /// Fails, and changes nothing, only on a closed cell.
    pub fn publish(&mut self, value: String) -> (sent: Result<(), ChannelClosed>)
        requires
            !old(self)@.closed ==> old(self)@.version < u64::MAX,
        ensures
            final(self)@ == published(old(self)@, value@),
            sent is Err <==> old(self)@.closed,
    {
        if self.closed {
            Err(ChannelClosed)
        } else {
            self.value = value;
            self.version = self.version + 1;
            Ok(())
        }
    }

    /// Closes the producer side for good. Value and version stay.
    pub fn close(&mut self)
        ensures
            final(self)@ == shut(old(self)@),
    {
        self.closed = true;
    }

    /// A cursor that has seen everything published so far.
    pub fn subscribe(&self) -> (cursor: Cursor)
        ensures
            cursor@ == self@.version,
    {
        Cursor { seen: self.version }
    }

    /// One attempt at waiting for a change, without suspending. A cursor that
    /// is behind reads the newest value and catches up; one that is not learns
    /// whether to wait or that the channel is closed, and stays where it is.
    pub fn poll_change(&self, cursor: &mut Cursor) -> (polled: Polled)
        ensures
            polled@ == observation(self@, old(cursor)@),
            final(cursor)@ == advanced(self@, old(cursor)@),
    {
        if cursor.seen < self.version {
            cursor.seen = self.version;
            Polled::Changed(self.value.clone())
        } else if self.closed {
            Polled::Closed
        } else {
            Polled::Pending
        }
    }

    /// The version of the current value.
    pub fn version(&self) -> (version: u64)
        ensures
            version == self@.version,
    {
        self.version
    }

    /// Whether the producer side is closed.
    pub fn is_closed(&self) -> (closed: bool)
        ensures
            closed == self@.closed,
    {
        self.closed
    }

    /// The current value.
    pub fn latest(&self) -> (value: &String)
        ensures
            value@ == self@.value,
    {
        &self.value
    }
}

/// The cell after each of `values` was published in turn.
pub open spec fn published_all(cell: CellState, values: Seq<Seq<char>>) -> CellState
    decreases values.len(),
{
    if values.len() == 0 {
        cell
    } else {
        published(published_all(cell, values.drop_last()), values.last())
    }
}

/// Publishing to an open cell leaves it open and counts every publish.
pub proof fn lemma_published_all_open(cell: CellState, values: Seq<Seq<char>>)
    requires
        !cell.closed,
    ensures
        !published_all(cell, values).closed,
        published_all(cell, values).version == cell.version + values.len(),
        values.len() > 0 ==> published_all(cell, values).value == values.last(),
    decreases values.len(),
{
    if values.len() > 0 {
        lemma_published_all_open(cell, values.drop_last());
    }
}

/// Latest wins: after any number of publishes that a subscriber did not look
/// at, its next look returns the value published last, never an earlier one,
/// and brings it up to the cell's version.
pub proof fn lemma_latest_wins(cell: CellState, seen: nat, values: Seq<Seq<char>>)
    requires
        !cell.closed,
        seen <= cell.version,
        values.len() > 0,
    ensures
        observation(published_all(cell, values), seen) == Observation::Changed(values.last()),
        advanced(published_all(cell, values), seen) == cell.version + values.len(),
{
    lemma_published_all_open(cell, values);
}

/// What can happen to a cell and one of its subscribers.
pub enum CellOp {
    /// The producer publishes a value.
    Publish(Seq<char>),
    /// The producer is dropped.
    Close,
    /// The subscriber looks at the cell.
    Poll,
}

/// The cell after `op`.
pub open spec fn cell_after(cell: CellState, op: CellOp) -> CellState {
    match op {
        CellOp::Publish(value) => published(cell, value),
        CellOp::Close => shut(cell),
        CellOp::Poll => cell,
    }
}

/// The subscriber's version after `op`.
pub open spec fn seen_after(cell: CellState, seen: nat, op: CellOp) -> nat {
    match op {
        CellOp::Poll => advanced(cell, seen),
        _ => seen,
    }
}

/// The cell after `ops`.
pub open spec fn cell_after_all(cell: CellState, seen: nat, ops: Seq<CellOp>) -> CellState
    decreases ops.len(),
{
    if ops.len() == 0 {
        cell
    } else {
        cell_after(cell_after_all(cell, seen, ops.drop_last()), ops.last())
    }
}

/// The subscriber's version after `ops`.
pub open spec fn seen_after_all(cell: CellState, seen: nat, ops: Seq<CellOp>) -> nat
    decreases ops.len(),
{
    if ops.len() == 0 {
        seen
    } else {
        seen_after(
            cell_after_all(cell, seen, ops.drop_last()),
            seen_after_all(cell, seen, ops.drop_last()),
            ops.last(),
        )
    }
}

/// The versions under which the subscriber received a value during `ops`, in
/// the order in which it received them.
pub open spec fn versions_observed(cell: CellState, seen: nat, ops: Seq<CellOp>) -> Seq<nat>
    decreases ops.len(),
{
    if ops.len() == 0 {
        Seq::empty()
    } else {
        let before = versions_observed(cell, seen, ops.drop_last());
        let cell_before = cell_after_all(cell, seen, ops.drop_last());
        let seen_before = seen_after_all(cell, seen, ops.drop_last());
        if ops.last() is Poll && observation(cell_before, seen_before) is Changed {
            before.push(cell_before.version)
        } else {
            before
        }
    }
}

/// Monotonic versions: whatever the producer and a subscriber do, in whatever
/// order, the subscriber never gets ahead of the cell, and the versions under
/// which it receives values are strictly increasing, all of them later than
/// the one it subscribed at and none later than the one it holds at the end.
pub proof fn lemma_versions_strictly_increase(cell: CellState, seen: nat, ops: Seq<CellOp>)
    requires
        seen <= cell.version,
    ensures
        seen <= seen_after_all(cell, seen, ops) <= cell_after_all(cell, seen, ops).version,
        forall|i: int|
            0 <= i < versions_observed(cell, seen, ops).len() ==> seen < (
            #[trigger] versions_observed(cell, seen, ops)[i]) <= seen_after_all(cell, seen, ops),
        forall|i: int, j: int|
            0 <= i < j < versions_observed(cell, seen, ops).len() ==> versions_observed(
                cell,
                seen,
                ops,
            )[i] < versions_observed(cell, seen, ops)[j],
    decreases ops.len(),
{
    if ops.len() > 0 {
        let earlier = ops.drop_last();
        lemma_versions_strictly_increase(cell, seen, earlier);
        let before = versions_observed(cell, seen, earlier);
        let now = versions_observed(cell, seen, ops);
        let seen_before = seen_after_all(cell, seen, earlier);
        let seen_now = seen_after_all(cell, seen, ops);
        assert(seen_before <= seen_now);
        assert forall|i: int| 0 <= i < now.len() implies seen < #[trigger] now[i] <= seen_now by {
            if i < before.len() {
                assert(now[i] == before[i]);
            }
        }
        assert forall|i: int, j: int| 0 <= i < j < now.len() implies now[i] < now[j] by {
            if j < before.len() {
                assert(now[i] == before[i] && now[j] == before[j]);
            } else {
                assert(now[i] == before[i]);
                assert(before[i] <= seen_before);
            }
        }
    }
}

/// The values under which the cell changed during `ops`, in order: those
/// of the publishes that found it open. The first of them has the version
/// after the one that `cell` started with, the next the one after that.
pub open spec fn publications(cell: CellState, seen: nat, ops: Seq<CellOp>) -> Seq<Seq<char>>
    decreases ops.len(),
{
    if ops.len() == 0 {
        Seq::empty()
    } else {
        let before = publications(cell, seen, ops.drop_last());
        match ops.last() {
            CellOp::Publish(value) => if cell_after_all(cell, seen, ops.drop_last()).closed {
                before
            } else {
                before.push(value)
            },
            _ => before,
        }
    }
}

/// The values that the subscriber received during `ops`, in the order in
/// which it received them.
pub open spec fn values_observed(cell: CellState, seen: nat, ops: Seq<CellOp>) -> Seq<Seq<char>>
    decreases ops.len(),
{
    if ops.len() == 0 {
        Seq::empty()
    } else {
        let before = values_observed(cell, seen, ops.drop_last());
        let cell_before = cell_after_all(cell, seen, ops.drop_last());
        let seen_before = seen_after_all(cell, seen, ops.drop_last());
        if ops.last() is Poll && observation(cell_before, seen_before) is Changed {
            before.push(cell_before.value)
        } else {
            before
        }
    }
}

/// What is received was published, unchanged: whatever the producer and a
/// subscriber do, in whatever order, each value that the subscriber
/// receives is exactly the value that was published under the version it
/// receives it at. Only a subscriber that was behind at the start can
/// receive the value that the cell started with.
pub proof fn lemma_received_as_published(cell: CellState, seen: nat, ops: Seq<CellOp>)
    requires
        seen <= cell.version,
    ensures
        values_observed(cell, seen, ops).len() == versions_observed(cell, seen, ops).len(),
        cell_after_all(cell, seen, ops).version == cell.version + publications(
            cell,
            seen,
            ops,
        ).len(),
        forall|i: int|
            0 <= i < versions_observed(cell, seen, ops).len() ==> {
                let version = #[trigger] versions_observed(cell, seen, ops)[i];
                let value = values_observed(cell, seen, ops)[i];
                if version == cell.version {
                    seen < cell.version && value == cell.value
                } else {
                    &&& cell.version < version <= cell.version + publications(cell, seen, ops).len()
                    &&& value == publications(cell, seen, ops)[version - cell.version - 1]
                }
            },
    decreases ops.len(),
{
    lemma_current_value_is_latest_publication(cell, seen, ops);
    if ops.len() > 0 {
        let earlier = ops.drop_last();
        lemma_received_as_published(cell, seen, earlier);
        lemma_current_value_is_latest_publication(cell, seen, earlier);
        lemma_versions_strictly_increase(cell, seen, earlier);
        let versions = versions_observed(cell, seen, ops);
        let values = values_observed(cell, seen, ops);
        let versions_before = versions_observed(cell, seen, earlier);
        let values_before = values_observed(cell, seen, earlier);
        let published_before = publications(cell, seen, earlier);
        let published_now = publications(cell, seen, ops);
        assert(published_before.len() <= published_now.len());
        assert forall|k: int| 0 <= k < published_before.len() implies published_now[k]
            == published_before[k] by {}
        assert forall|i: int| 0 <= i < versions.len() implies {
            let version = #[trigger] versions[i];
            let value = values[i];
            if version == cell.version {
                seen < cell.version && value == cell.value
            } else {
                &&& cell.version < version <= cell.version + published_now.len()
                &&& value == published_now[version - cell.version - 1]
            }
        } by {
            if i < versions_before.len() {
                assert(versions[i] == versions_before[i]);
                assert(values[i] == values_before[i]);
            }
        }
    }
}

/// The cell holds what it started with until the first publication, and the
/// latest publication from then on.
proof fn lemma_current_value_is_latest_publication(cell: CellState, seen: nat, ops: Seq<CellOp>)
    ensures
        cell_after_all(cell, seen, ops).version == cell.version + publications(
            cell,
            seen,
            ops,
        ).len(),
        publications(cell, seen, ops).len() == 0 ==> cell_after_all(cell, seen, ops).value
            == cell.value,
        publications(cell, seen, ops).len() > 0 ==> cell_after_all(cell, seen, ops).value
            == publications(cell, seen, ops).last(),
    decreases ops.len(),
{
    if ops.len() > 0 {
        lemma_current_value_is_latest_publication(cell, seen, ops.drop_last());
    }
}

} // verus!
