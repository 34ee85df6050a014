//! The connection gateway: what one client connection does from upgrade to
//! close.
//!
//! A connection registers, runs an outbound relay and an inbound drain side
//! by side, and closes as soon as either of them ends: the other is
//! cancelled and the connection deregisters, once.

use crate::channel::{
    advanced, lemma_latest_wins, lemma_published_all_open, observation, published_all,
    BroadcastCell, CellState, Cursor, Observation, Polled,
};
use crate::registry::{lemma_live_sessions_push, live_sessions, SessionEvent, SessionRegistry};
use vstd::prelude::*;

verus! {

/// Where a connection stands in its life.
#[derive(Clone, Copy, Debug, PartialEq, Eq, Structural)]
pub enum Phase {
    /// Accepted, not yet registered.
    Connecting,
    /// Registered; both loops run.
    Active,
    /// One loop has ended and the other is cancelled; still registered.
    Closing,
    /// Deregistered.
    Closed,
}

/// The two loops of a connection.
#[derive(Clone, Copy, Debug, PartialEq, Eq, Structural)]
pub enum LoopKind {
    /// Forwards every update of the broadcast cell to the client.
    Outbound,
    /// Reads and discards what the client sends.
    Inbound,
}

/// The other loop of the pair.
pub open spec fn sibling(which: LoopKind) -> LoopKind {
    match which {
        LoopKind::Outbound => LoopKind::Inbound,
        LoopKind::Inbound => LoopKind::Outbound,
    }
}

/// What can be reported to a connection.
pub enum GatewayOp {
    /// The transport handed over the upgraded stream.
    Activate,
    /// One of the loops has ended.
    LoopEnded(LoopKind),
    /// The surviving loop has been told to stop.
    Close,
}

/// The phase after `op`. An operation that does not fit the phase changes
/// nothing.
pub open spec fn phase_after(phase: Phase, op: GatewayOp) -> Phase {
    match (phase, op) {
        (Phase::Connecting, GatewayOp::Activate) => Phase::Active,
        (Phase::Active, GatewayOp::LoopEnded(_)) => Phase::Closing,
        (Phase::Closing, GatewayOp::Close) => Phase::Closed,
        _ => phase,
    }
}

/// The mutation of the session registry that `op` brings about, if any.
pub open spec fn registry_event(phase: Phase, op: GatewayOp) -> Option<SessionEvent> {
    match (phase, op) {
        (Phase::Connecting, GatewayOp::Activate) => Some(SessionEvent::Connect),
        (Phase::Closing, GatewayOp::Close) => Some(SessionEvent::Disconnect),
        _ => None,
    }
}

/// The loop that `op` has cancelled, if any: the sibling of the first loop
/// that ends.
pub open spec fn cancellation(phase: Phase, op: GatewayOp) -> Option<LoopKind> {
    match (phase, op) {
        (Phase::Active, GatewayOp::LoopEnded(which)) => Some(sibling(which)),
        _ => None,
    }
}

/// A registry history with `event` appended, if there is one.
pub open spec fn recorded(history: Seq<SessionEvent>, event: Option<SessionEvent>) -> Seq<
    SessionEvent,
> {
    match event {
        Some(event) => history.push(event),
        None => history,
    }
}

/// What the outbound relay does next.
#[derive(Debug, PartialEq, Eq)]
pub enum RelayAction {
    /// Nothing new: suspend until the cell changes, then ask again.
    Wait,
    /// Write this message to the client, then report how the write went.
    Send(String),
    /// Leave the loop.
    Stop,
}

/// The view of a relay action.
pub enum RelayStep {
    /// Suspend until the cell changes.
    Wait,
    /// Write this message to the client.
    Send(Seq<char>),
    /// Leave the loop.
    Stop,
}

impl View for RelayAction {
    type V = RelayStep;

    open spec fn view(&self) -> RelayStep {
        match self {
            RelayAction::Wait => RelayStep::Wait,
            RelayAction::Send(message) => RelayStep::Send(message@),
            RelayAction::Stop => RelayStep::Stop,
        }
    }
}

/// What the relay does on an observation of the cell: it forwards a new
/// value, waits where there is none, and stops on a closed channel.
pub open spec fn relay_step(seen: Observation) -> RelayStep {
    match seen {
        Observation::Pending => RelayStep::Wait,
        Observation::Changed(message) => RelayStep::Send(message),
        Observation::Closed => RelayStep::Stop,
    }
}

/// The outbound relay of one connection: its cursor into the broadcast
/// cell, and whether it has ended.
#[derive(Debug)]
pub struct OutboundRelay {
    cursor: Cursor,
    stopped: bool,
}

impl OutboundRelay {
    /// The version that this relay forwarded last, or subscribed at.
    pub closed spec fn seen(&self) -> nat {
        self.cursor@
    }

    /// Whether the relay has ended.
    pub closed spec fn stopped(&self) -> bool {
        self.stopped
    }

    /// Whether the relay has ended.
    pub fn is_stopped(&self) -> (stopped: bool)
        ensures
            stopped == self.stopped(),
    {
        self.stopped
    }

    /// Looks at the cell and says what to do. A relay that has ended stays
    /// ended, whatever the cell holds.
    pub fn next(&mut self, cell: &BroadcastCell) -> (action: RelayAction)
        ensures
            old(self).stopped() ==> action@ == RelayStep::Stop && final(self).stopped()
                && final(self).seen() == old(self).seen(),
            !old(self).stopped() ==> {
                &&& action@ == relay_step(observation(cell@, old(self).seen()))
                &&& final(self).seen() == advanced(cell@, old(self).seen())
                &&& final(self).stopped() == (observation(cell@, old(self).seen()) is Closed)
            },
    {
        if self.stopped {
            return RelayAction::Stop;
        }
        match cell.poll_change(&mut self.cursor) {
            Polled::Pending => RelayAction::Wait,
            Polled::Changed(message) => RelayAction::Send(message),
            Polled::Closed => {
                self.stopped = true;
                RelayAction::Stop
            },
        }
    }

    /// Reports how the write of a forwarded message went. A failed write
    /// ends the relay. Returns whether the loop goes on.
    pub fn written(&mut self, delivered: bool) -> (go_on: bool)
        ensures
            final(self).seen() == old(self).seen(),
            final(self).stopped() == (old(self).stopped() || !delivered),
            go_on == !final(self).stopped(),
    {
        if !delivered {
            self.stopped = true;
        }
        !self.stopped
    }
}

/// What a read on the inbound half yielded.
#[derive(Debug, PartialEq, Eq)]
pub enum InboundRead {
    /// A message, of whatever kind, with its payload.
    Message(Vec<u8>),
    /// The client closed the stream.
    EndOfStream,
    /// The read failed.
    Failed,
}

/// What the inbound drain does next.
#[derive(Clone, Copy, Debug, PartialEq, Eq, Structural)]
pub enum DrainAction {
    /// Read the next message.
    Continue,
    /// Leave the loop.
    Stop,
}

/// One step of the inbound drain: a message is dropped unread and the loop
/// goes on; the end of the stream or a failed read ends it.
pub fn drain(read: InboundRead) -> (action: DrainAction)
    ensures
        action is Continue <==> read is Message,
{
    match read {
        InboundRead::Message(_) => DrainAction::Continue,
        InboundRead::EndOfStream => DrainAction::Stop,
        InboundRead::Failed => DrainAction::Stop,
    }
}

/// The supervisor of one connection.
#[derive(Debug)]
pub struct Connection {
    phase: Phase,
}

impl Connection {
    /// Where the connection stands.
    pub closed spec fn phase(&self) -> Phase {
        self.phase
    }

    /// A connection that has been accepted and nothing more.
    pub fn new() -> (connection: Self)
        ensures
            connection.phase() == Phase::Connecting,
    {
        Connection { phase: Phase::Connecting }
    }

    /// Where the connection stands.
    pub fn current_phase(&self) -> (phase: Phase)
        ensures
            phase == self.phase(),
    {
        self.phase
    }

    /// The stream is upgraded: a connecting connection registers and
    /// subscribes, and hands out the relay that its outbound loop runs. Any
    /// other connection is left alone and gets no relay.
    pub fn activate(&mut self, registry: &mut SessionRegistry, cell: &BroadcastCell) -> (relay:
        Option<OutboundRelay>)
        requires
            old(self).phase() is Connecting ==> old(registry).count() < u64::MAX,
        ensures
            final(self).phase() == phase_after(old(self).phase(), GatewayOp::Activate),
            final(registry)@ == recorded(
                old(registry)@,
                registry_event(old(self).phase(), GatewayOp::Activate),
            ),
            final(registry).count() == old(registry).count() + if old(self).phase()
                is Connecting {
                1nat
            } else {
                0nat
            },
            relay is Some <==> old(self).phase() is Connecting,
            relay matches Some(relay) ==> relay.seen() == cell@.version && !relay.stopped(),
    {
        match self.phase {
            Phase::Connecting => {
                registry.increment();
                self.phase = Phase::Active;
                Some(OutboundRelay { cursor: cell.subscribe(), stopped: false })
            },
            _ => None,
        }
    }

    /// The loop `which` has ended. On an active connection this starts the
    /// close, and the result names the loop to cancel: the other one. Once
    /// the close has started, the end of a loop changes nothing.
    pub fn loop_ended(&mut self, which: LoopKind) -> (cancel: Option<LoopKind>)
        ensures
            final(self).phase() == phase_after(old(self).phase(), GatewayOp::LoopEnded(which)),
            cancel == cancellation(old(self).phase(), GatewayOp::LoopEnded(which)),
    {
        match self.phase {
            Phase::Active => {
                self.phase = Phase::Closing;
                Some(
                    match which {
                        LoopKind::Outbound => LoopKind::Inbound,
                        LoopKind::Inbound => LoopKind::Outbound,
                    },
                )
            },
            _ => None,
        }
    }

    /// Finishes the close: a closing connection deregisters, whether or not
    /// the cancelled loop has stopped yet. Returns whether it deregistered;
    /// a second call finds the connection closed and does nothing.
    pub fn close(&mut self, registry: &mut SessionRegistry) -> (deregistered: bool)
        requires
            old(self).phase() is Closing ==> old(registry).count() > 0,
        ensures
            final(self).phase() == phase_after(old(self).phase(), GatewayOp::Close),
            final(registry)@ == recorded(
                old(registry)@,
                registry_event(old(self).phase(), GatewayOp::Close),
            ),
            final(registry).count() == old(registry).count() - if old(self).phase() is Closing {
                1nat
            } else {
                0nat
            },
            deregistered == old(self).phase() is Closing,
    {
        match self.phase {
            Phase::Closing => {
                registry.decrement();
                self.phase = Phase::Closed;
                true
            },
            _ => false,
        }
    }
}

/// The phase of a new connection after `ops`.
pub open spec fn phase_after_all(ops: Seq<GatewayOp>) -> Phase
    decreases ops.len(),
{
    if ops.len() == 0 {
        Phase::Connecting
    } else {
        phase_after(phase_after_all(ops.drop_last()), ops.last())
    }
}

/// The registry mutations that `ops` bring about on a new connection, in
/// order.
pub open spec fn registry_events(ops: Seq<GatewayOp>) -> Seq<SessionEvent>
    decreases ops.len(),
{
    if ops.len() == 0 {
        Seq::empty()
    } else {
        recorded(
            registry_events(ops.drop_last()),
            registry_event(phase_after_all(ops.drop_last()), ops.last()),
        )
    }
}

/// The loops that `ops` cancel on a new connection, in order.
pub open spec fn cancellations(ops: Seq<GatewayOp>) -> Seq<LoopKind>
    decreases ops.len(),
{
    if ops.len() == 0 {
        Seq::empty()
    } else {
        match cancellation(phase_after_all(ops.drop_last()), ops.last()) {
            Some(which) => cancellations(ops.drop_last()).push(which),
            None => cancellations(ops.drop_last()),
        }
    }
}

/// Paired lifecycle: whatever is reported to a connection, in whatever
/// order and however often, it registers at most once, deregisters only
/// after it has registered and at most once, and cancels at most one loop.
/// It is registered exactly while it is active or closing; once a loop has
/// ended, one loop has been cancelled; once closed, it has deregistered.
pub proof fn lemma_paired_lifecycle(ops: Seq<GatewayOp>)
    ensures
        match phase_after_all(ops) {
            Phase::Connecting => registry_events(ops) == Seq::<SessionEvent>::empty()
                && cancellations(ops).len() == 0,
            Phase::Active => registry_events(ops) == seq![SessionEvent::Connect] && cancellations(
                ops,
            ).len() == 0,
            Phase::Closing => registry_events(ops) == seq![SessionEvent::Connect] && cancellations(
                ops,
            ).len() == 1,
            Phase::Closed => registry_events(ops) == seq![
                SessionEvent::Connect,
                SessionEvent::Disconnect,
            ] && cancellations(ops).len() == 1,
        },
    decreases ops.len(),
{
    if ops.len() > 0 {
        lemma_paired_lifecycle(ops.drop_last());
        let before = registry_events(ops.drop_last());
        match (phase_after_all(ops.drop_last()), ops.last()) {
            (Phase::Connecting, GatewayOp::Activate) => {
                assert(before.push(SessionEvent::Connect) =~= seq![SessionEvent::Connect]);
            },
            (Phase::Closing, GatewayOp::Close) => {
                assert(before.push(SessionEvent::Disconnect) =~= seq![
                    SessionEvent::Connect,
                    SessionEvent::Disconnect,
                ]);
            },
            _ => {},
        }
    }
}

/// The first loop to end decides which loop is cancelled: its sibling.
pub proof fn lemma_first_end_cancels_sibling(ops: Seq<GatewayOp>, n: int, which: LoopKind)
    requires
        0 <= n < ops.len(),
        ops[n] == GatewayOp::LoopEnded(which),
        phase_after_all(ops.take(n)) is Active,
    ensures
        cancellations(ops) == seq![sibling(which)],
{
    lemma_paired_lifecycle(ops.take(n));
    assert(ops.take(n + 1).drop_last() =~= ops.take(n));
    assert(ops.take(n + 1).last() == ops[n]);
    assert(cancellations(ops.take(n + 1)) =~= seq![sibling(which)]);
    lemma_cancellations_settled(ops, n + 1);
}

/// Once the close has started, nothing more is cancelled.
proof fn lemma_cancellations_settled(ops: Seq<GatewayOp>, n: int)
    requires
        0 <= n <= ops.len(),
        phase_after_all(ops.take(n)) is Closing || phase_after_all(ops.take(n)) is Closed,
    ensures
        cancellations(ops) == cancellations(ops.take(n)),
        phase_after_all(ops) is Closing || phase_after_all(ops) is Closed,
    decreases ops.len() - n,
{
    if n == ops.len() {
        assert(ops.take(n) =~= ops);
    } else {
        assert(ops.take(n + 1).drop_last() =~= ops.take(n));
        assert(ops.take(n + 1).last() == ops[n]);
        lemma_cancellations_settled(ops, n + 1);
    }
}

/// Counted while registered: a connection that starts on a registry with
/// the history `history`, and is the only one to touch it, leaves the count
/// one above where it found it from the moment it is active until it has
/// closed, and exactly where it found it before and after: one increment,
/// one decrement, whichever loop ended first and whatever else is reported.
pub proof fn lemma_counted_while_registered(history: Seq<SessionEvent>, ops: Seq<GatewayOp>)
    ensures
        live_sessions(history + registry_events(ops)) == live_sessions(history) + if phase_after_all(
            ops,
        ) is Active || phase_after_all(ops) is Closing {
            1int
        } else {
            0int
        },
{
    lemma_paired_lifecycle(ops);
    let registered = history.push(SessionEvent::Connect);
    lemma_live_sessions_push(history, SessionEvent::Connect);
    lemma_live_sessions_push(registered, SessionEvent::Disconnect);
    match phase_after_all(ops) {
        Phase::Connecting => {
            assert(history + registry_events(ops) =~= history);
        },
        Phase::Active => {
            assert(history + registry_events(ops) =~= registered);
        },
        Phase::Closing => {
            assert(history + registry_events(ops) =~= registered);
        },
        Phase::Closed => {
            assert(history + registry_events(ops) =~= registered.push(SessionEvent::Disconnect));
        },
    }
}

/// The relay forwards the latest: after any number of publishes that an
/// active relay did not look at, on a channel that is still open, the next
/// message it writes is the value published last, unmodified, and it has
/// nothing more to write until the next publish: none of the values it
/// slept through is written later.
pub proof fn lemma_relay_forwards_latest(cell: CellState, seen: nat, values: Seq<Seq<char>>)
    requires
        !cell.closed,
        seen <= cell.version,
        values.len() > 0,
    ensures
        relay_step(observation(published_all(cell, values), seen)) == RelayStep::Send(
            values.last(),
        ),
        relay_step(
            observation(
                published_all(cell, values),
                advanced(published_all(cell, values), seen),
            ),
        ) == RelayStep::Wait,
{
    lemma_latest_wins(cell, seen, values);
    lemma_published_all_open(cell, values);
}

} // verus!
