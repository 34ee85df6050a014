//! The snapshot publisher: the one producer of the broadcast cell.
//!
//! The publisher alternates between two things it has to wait for, the pause
//! between cycles and the health probe, and decides after each what comes
//! next. Whoever drives it performs the waiting and reports back.

use crate::channel::{published, BroadcastCell, CellState};
use crate::clock::Timestamp;
use crate::registry::SessionRegistry;
use crate::wire::{
    encode, json_string, message_view, wire_message, wire_text, EncodeError, Snapshot,
};
use vstd::prelude::*;

verus! {

/// Seconds between two publish cycles unless configured otherwise.
pub const DEFAULT_INTERVAL_SECS: u64 = 15;

/// How a health probe ended.
#[derive(Clone, Copy, Debug, PartialEq, Eq, Structural)]
pub enum ProbeOutcome {
    /// The exchange completed; `status` is the HTTP status it returned.
    Completed { status: u16 },
    /// The request failed below HTTP: timeout, refused connection, TLS.
    TransportError,
}

/// Upstream counts as healthy exactly when the exchange completed. The status
/// is not looked at: an error status is still a completed exchange.
pub open spec fn healthy(outcome: ProbeOutcome) -> bool {
    outcome is Completed
}

/// Classifies a probe.
pub fn is_healthy(outcome: ProbeOutcome) -> (up: bool)
    ensures
        up == healthy(outcome),
{
    match outcome {
        ProbeOutcome::Completed { .. } => true,
        ProbeOutcome::TransportError => false,
    }
}

/// The snapshot of a cycle that found `clients` clients connected, at the
/// instant `at`, after a probe that ended as `outcome`.
pub open spec fn snapshot_of(clients: nat, at: Timestamp, outcome: ProbeOutcome) -> Snapshot {
    Snapshot {
        connected_clients: clients as u64,
        timestamp: at,
        upstream_healthy: healthy(outcome),
    }
}

/// Builds the snapshot of a cycle.
pub fn take_snapshot(clients: u64, at: Timestamp, outcome: ProbeOutcome) -> (snapshot: Snapshot)
    ensures
        snapshot == snapshot_of(clients as nat, at, outcome),
{
    Snapshot { connected_clients: clients, timestamp: at, upstream_healthy: is_healthy(outcome) }
}

/// What the publisher is waiting for.
#[derive(Clone, Copy, Debug, PartialEq, Eq, Structural)]
pub enum PublisherPhase {
    /// The pause before the next cycle.
    Sleeping,
    /// The result of the health probe.
    Probing,
    /// Nothing: the channel is closed and the loop has ended.
    Stopped,
}

/// What the driver of the publisher has to do next.
#[derive(Clone, Copy, Debug, PartialEq, Eq, Structural)]
pub enum PublisherAction {
    /// Sleep for `secs` seconds, then report `woke`.
    Sleep { secs: u64 },
    /// Probe the health endpoint, then report `probed`.
    Probe,
    /// Leave the loop.
    Stop,
}

/// How a publish cycle ended.
#[derive(Clone, Copy, Debug, PartialEq, Eq, Structural)]
pub enum CycleOutcome {
    /// The snapshot was published.
    Published,
    /// The snapshot could not be encoded; nothing was published.
    Failed(EncodeError),
    /// The channel is closed; nothing was published and the publisher stops.
    Closed,
    /// The publisher was not waiting for a probe; nothing happened.
    Ignored,
}

/// The action that goes with a phase.
pub open spec fn action_for(phase: PublisherPhase, interval_secs: u64) -> PublisherAction {
    match phase {
        PublisherPhase::Sleeping => PublisherAction::Sleep { secs: interval_secs },
        PublisherPhase::Probing => PublisherAction::Probe,
        PublisherPhase::Stopped => PublisherAction::Stop,
    }
}

/// The phase after the pause is over.
pub open spec fn phase_after_wake(phase: PublisherPhase) -> PublisherPhase {
    match phase {
        PublisherPhase::Sleeping => PublisherPhase::Probing,
        other => other,
    }
}

/// How a cycle ends that encoded its snapshot as `message` and found the cell
/// as `cell`.
pub open spec fn cycle_outcome(cell: CellState, message: Result<Seq<char>, EncodeError>)
    -> CycleOutcome {
    match message {
        Err(error) => CycleOutcome::Failed(error),
        Ok(_) => if cell.closed {
            CycleOutcome::Closed
        } else {
            CycleOutcome::Published
        },
    }
}

/// The cell after that cycle: a message is published, an error changes
/// nothing.
pub open spec fn cycle_cell(cell: CellState, message: Result<Seq<char>, EncodeError>)
    -> CellState {
    match message {
        Err(_) => cell,
        Ok(text) => published(cell, text),
    }
}

/// The phase after that cycle: only a closed channel stops the publisher; an
/// encoding error costs the cycle and no more.
pub open spec fn cycle_phase(cell: CellState, message: Result<Seq<char>, EncodeError>)
    -> PublisherPhase {
    match message {
        Err(_) => PublisherPhase::Sleeping,
        Ok(_) => if cell.closed {
            PublisherPhase::Stopped
        } else {
            PublisherPhase::Sleeping
        },
    }
}

/// Whether outcome, cell and phase are those of a cycle that encoded its
/// snapshot as `message`.
pub open spec fn cycle_ran(
    before: CellState,
    message: Result<Seq<char>, EncodeError>,
    outcome: CycleOutcome,
    after: CellState,
    phase: PublisherPhase,
) -> bool {
    &&& outcome == cycle_outcome(before, message)
    &&& after == cycle_cell(before, message)
    &&& phase == cycle_phase(before, message)
}

/// The publisher: its configured pause and what it is waiting for.
#[derive(Debug)]
pub struct Publisher {
    interval_secs: u64,
    phase: PublisherPhase,
}

impl Publisher {
    /// The pause between cycles, in seconds.
    pub closed spec fn interval(&self) -> u64 {
        self.interval_secs
    }

    /// What the publisher is waiting for.
    pub closed spec fn phase(&self) -> PublisherPhase {
        self.phase
    }

    /// A publisher with the default pause, about to sleep.
    pub fn new() -> (publisher: Self)
        ensures
            publisher.interval() == DEFAULT_INTERVAL_SECS,
            publisher.phase() == PublisherPhase::Sleeping,
    {
        Publisher { interval_secs: DEFAULT_INTERVAL_SECS, phase: PublisherPhase::Sleeping }
    }

    /// A publisher with a pause of `interval_secs` seconds, about to sleep.
    pub fn with_interval(interval_secs: u64) -> (publisher: Self)
        ensures
            publisher.interval() == interval_secs,
            publisher.phase() == PublisherPhase::Sleeping,
    {
        Publisher { interval_secs, phase: PublisherPhase::Sleeping }
    }

    /// The configured pause.
    pub fn interval_secs(&self) -> (secs: u64)
        ensures
            secs == self.interval(),
    {
        self.interval_secs
    }

    /// The current phase.
    pub fn current_phase(&self) -> (phase: PublisherPhase)
        ensures
            phase == self.phase(),
    {
        self.phase
    }

    /// Whether the loop is still running.
    pub fn is_running(&self) -> (running: bool)
        ensures
            running == !(self.phase() is Stopped),
    {
        match self.phase {
            PublisherPhase::Stopped => false,
            _ => true,
        }
    }

    /// What the driver has to do next.
    pub fn next_action(&self) -> (action: PublisherAction)
        ensures
            action == action_for(self.phase(), self.interval()),
    {
        match self.phase {
            PublisherPhase::Sleeping => PublisherAction::Sleep { secs: self.interval_secs },
            PublisherPhase::Probing => PublisherAction::Probe,
            PublisherPhase::Stopped => PublisherAction::Stop,
        }
    }

    /// The pause is over: a sleeping publisher goes on to probe.
    pub fn woke(&mut self)
        ensures
            final(self).interval() == old(self).interval(),
            final(self).phase() == phase_after_wake(old(self).phase()),
    {
        match self.phase {
            PublisherPhase::Sleeping => {
                self.phase = PublisherPhase::Probing;
            },
            _ => {},
        }
    }

    /// Ends a cycle with the encoding of its snapshot: a message is published,
    /// an error is reported and costs only this cycle, and a closed channel
    /// stops the publisher. Outside a cycle nothing happens.
    pub fn publish_encoded(
        &mut self,
        cell: &mut BroadcastCell,
        message: Result<String, EncodeError>,
    ) -> (outcome: CycleOutcome)
        requires
            old(self).phase() is Probing && message is Ok && !old(cell)@.closed ==> old(
                cell,
            )@.version < u64::MAX,
        ensures
            final(self).interval() == old(self).interval(),
            old(self).phase() is Probing ==> cycle_ran(
                old(cell)@,
                message_view(message),
                outcome,
                final(cell)@,
                final(self).phase(),
            ),
            !(old(self).phase() is Probing) ==> outcome is Ignored && final(cell)@ == old(cell)@
                && final(self).phase() == old(self).phase(),
    {
        match self.phase {
            PublisherPhase::Probing => {},
            _ => {
                return CycleOutcome::Ignored;
            },
        }
        match message {
            Err(error) => {
                self.phase = PublisherPhase::Sleeping;
                CycleOutcome::Failed(error)
            },
            Ok(text) => match cell.publish(text) {
                Ok(()) => {
                    self.phase = PublisherPhase::Sleeping;
                    CycleOutcome::Published
                },
                Err(_) => {
                    self.phase = PublisherPhase::Stopped;
                    CycleOutcome::Closed
                },
            },
        }
    }

    /// The probe of this cycle ended as `probe` at the instant `now`: reads
    /// the client count, builds the snapshot, encodes and publishes it. A
    /// failed probe only clears the health flag of the snapshot. On an open
    /// channel every cycle at an instant that has a text publishes. Outside a
    /// cycle nothing happens.
    pub fn probed_at(
        &mut self,
        probe: ProbeOutcome,
        registry: &SessionRegistry,
        cell: &mut BroadcastCell,
        now: Timestamp,
    ) -> (outcome: CycleOutcome)
        requires
            old(self).phase() is Probing && !old(cell)@.closed ==> old(cell)@.version
                < u64::MAX,
        ensures
            final(self).interval() == old(self).interval(),
            old(self).phase() is Probing ==> cycle_ran(
                old(cell)@,
                wire_message(snapshot_of(registry.count(), now, probe)),
                outcome,
                final(cell)@,
                final(self).phase(),
            ),
            old(self).phase() is Probing && now.is_plain() && !old(cell)@.closed ==> outcome
                is Published,
            !(old(self).phase() is Probing) ==> outcome is Ignored && final(cell)@ == old(cell)@
                && final(self).phase() == old(self).phase(),
    {
        match self.phase {
            PublisherPhase::Probing => {},
            _ => {
                return CycleOutcome::Ignored;
            },
        }
        let snapshot = take_snapshot(registry.snapshot_count(), now, probe);
        let message = encode(&snapshot);
        self.publish_encoded(cell, message)
    }
}

/// Health flag independence: a cycle whose probe failed runs like any other.
/// On an open channel, at an instant that has a text, it publishes one
/// complete snapshot, which carries the client count as it was read and a
/// health flag that is off. The publisher then pauses and probes afresh.
pub proof fn lemma_probe_failure_absorbed(
    clients: u64,
    now: Timestamp,
    interval_secs: u64,
    before: CellState,
    outcome: CycleOutcome,
    after: CellState,
    phase: PublisherPhase,
)
    requires
        !before.closed,
        now.iso8601() is Some,
        cycle_ran(
            before,
            wire_message(snapshot_of(clients as nat, now, ProbeOutcome::TransportError)),
            outcome,
            after,
            phase,
        ),
    ensures
        outcome is Published,
        after == (CellState {
            value: wire_text(clients as nat, json_string(now.iso8601()->0), false),
            version: before.version + 1,
            closed: false,
        }),
        action_for(phase, interval_secs) == (PublisherAction::Sleep { secs: interval_secs }),
        action_for(phase_after_wake(phase), interval_secs) == PublisherAction::Probe,
{
}

/// Every cycle publishes: on an open channel, at an instant that has a
/// text, whatever the probe was and however many clients are connected, the
/// cycle publishes the wire message of its snapshot under the next version
/// and the publisher goes on.
pub proof fn lemma_cycle_publishes(
    clients: u64,
    now: Timestamp,
    probe: ProbeOutcome,
    before: CellState,
    outcome: CycleOutcome,
    after: CellState,
    phase: PublisherPhase,
)
    requires
        !before.closed,
        now.iso8601() is Some,
        cycle_ran(
            before,
            wire_message(snapshot_of(clients as nat, now, probe)),
            outcome,
            after,
            phase,
        ),
    ensures
        outcome is Published,
        after == (CellState {
            value: wire_text(clients as nat, json_string(now.iso8601()->0), healthy(probe)),
            version: before.version + 1,
            closed: false,
        }),
        phase is Sleeping,
{
}

} // verus!
