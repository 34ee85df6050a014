//! The session registry: the process-wide count of connected clients.

use vstd::prelude::*;

verus! {

/// One mutation of the registry.
#[derive(Clone, Copy, Debug, PartialEq, Eq, Structural)]
pub enum SessionEvent {
    /// A connection registered.
    Connect,
    /// A connection deregistered.
    Disconnect,
}

/// Number of `Connect` events in `events`.
pub open spec fn connects(events: Seq<SessionEvent>) -> nat
    decreases events.len(),
{
    if events.len() == 0 {
        0
    } else {
        connects(events.drop_last()) + if events.last() == SessionEvent::Connect {
            1nat
        } else {
            0nat
        }
    }
}

/// Number of `Disconnect` events in `events`.
pub open spec fn disconnects(events: Seq<SessionEvent>) -> nat
    decreases events.len(),
{
    if events.len() == 0 {
        0
    } else {
        disconnects(events.drop_last()) + if events.last() == SessionEvent::Disconnect {
            1nat
        } else {
            0nat
        }
    }
}

/// Connections that are registered and not yet deregistered after `events`.
pub open spec fn live_sessions(events: Seq<SessionEvent>) -> int {
    connects(events) - disconnects(events)
}

/// No prefix of `events` deregisters more connections than it registered:
/// every `Disconnect` answers an earlier `Connect` of its own.
pub open spec fn properly_paired(events: Seq<SessionEvent>) -> bool {
    forall|n: int| 0 <= n <= events.len() ==> #[trigger] live_sessions(events.take(n)) >= 0
}

/// The shared counter of connected clients.
///
/// Its view is the history of the mutations applied to it. The history is
/// properly paired at all times, and the counter that the registry holds is
/// the number of sessions live after it, so the history says all there is to
/// say of a registry.
pub struct SessionRegistry {
    client_count: u64,
    history: Ghost<Seq<SessionEvent>>,
}

impl View for SessionRegistry {
    type V = Seq<SessionEvent>;

    closed spec fn view(&self) -> Seq<SessionEvent> {
        self.history@
    }
}

impl SessionRegistry {
    #[verifier::type_invariant]
    spec fn well_formed(&self) -> bool {
        &&& properly_paired(self.history@)
        &&& self.client_count as int == live_sessions(self.history@)
    }

    /// The number of clients currently connected: the registrations in the
    /// history less the deregistrations.
    pub open spec fn count(&self) -> nat {
        live_sessions(self@) as nat
    }

    /// An empty registry.
    pub fn new() -> (registry: Self)
        ensures
            registry@ == Seq::<SessionEvent>::empty(),
            registry.count() == 0,
    {
        proof {
            assert forall|n: int| 0 <= n <= 0 implies #[trigger] live_sessions(
                Seq::<SessionEvent>::empty().take(n),
            ) >= 0 by {
                assert(Seq::<SessionEvent>::empty().take(n) =~= Seq::<SessionEvent>::empty());
            }
        }
        SessionRegistry { client_count: 0, history: Ghost(Seq::empty()) }
    }

    /// Registers one connection.
    pub fn increment(&mut self)
        requires
            old(self).count() < u64::MAX,
        ensures
            final(self)@ == old(self)@.push(SessionEvent::Connect),
            final(self).count() == old(self).count() + 1,
    {
        proof {
            use_type_invariant(&*self);
            lemma_push_keeps_pairing(self.history@, SessionEvent::Connect);
            lemma_live_sessions_push(self.history@, SessionEvent::Connect);
        }
        *self = SessionRegistry {
            client_count: self.client_count + 1,
            history: Ghost(self.history@.push(SessionEvent::Connect)),
        };
    }

    /// Deregisters one connection.
    pub fn decrement(&mut self)
        requires
            old(self).count() > 0,
        ensures
            final(self)@ == old(self)@.push(SessionEvent::Disconnect),
            final(self).count() == old(self).count() - 1,
    {
        proof {
            use_type_invariant(&*self);
            lemma_push_keeps_pairing(self.history@, SessionEvent::Disconnect);
            lemma_live_sessions_push(self.history@, SessionEvent::Disconnect);
        }
        *self = SessionRegistry {
            client_count: self.client_count - 1,
            history: Ghost(self.history@.push(SessionEvent::Disconnect)),
        };
    }

    /// Reads the current count: the registrations so far less the
    /// deregistrations, which at no time outnumbered them.
    pub fn snapshot_count(&self) -> (count: u64)
        ensures
            count == self.count(),
            count == connects(self@) - disconnects(self@),
            properly_paired(self@),
    {
        proof {
            use_type_invariant(self);
        }
        self.client_count
    }
}

/// Appending an event moves the number of live sessions by one.
pub proof fn lemma_live_sessions_push(events: Seq<SessionEvent>, event: SessionEvent)
    ensures
        live_sessions(events.push(event)) == live_sessions(events) + match event {
            SessionEvent::Connect => 1int,
            SessionEvent::Disconnect => -1int,
        },
{
    assert(events.push(event).drop_last() =~= events);
    assert(events.push(event).last() == event);
}

/// A properly paired history stays so when an event is appended that leaves
/// the number of live sessions non-negative.
pub proof fn lemma_push_keeps_pairing(events: Seq<SessionEvent>, event: SessionEvent)
    requires
        properly_paired(events),
        event == SessionEvent::Disconnect ==> live_sessions(events) > 0,
    ensures
        properly_paired(events.push(event)),
{
    let extended = events.push(event);
    assert forall|n: int| 0 <= n <= extended.len() implies #[trigger] live_sessions(
        extended.take(n),
    ) >= 0 by {
        if n <= events.len() {
            assert(extended.take(n) =~= events.take(n));
        } else {
            assert(extended.take(n) =~= extended);
            assert(events.take(events.len() as int) =~= events);
            lemma_live_sessions_push(events, event);
        }
    }
}

/// The registry mutations of `log`, without the connections that made them.
pub open spec fn events_of(log: Seq<(int, SessionEvent)>) -> Seq<SessionEvent>
    decreases log.len(),
{
    if log.len() == 0 {
        Seq::empty()
    } else {
        events_of(log.drop_last()).push(log.last().1)
    }
}

/// The registry mutations that `connection` made in `log`, in order.
pub open spec fn own_events(log: Seq<(int, SessionEvent)>, connection: int) -> Seq<SessionEvent>
    decreases log.len(),
{
    if log.len() == 0 {
        Seq::empty()
    } else if log.last().0 == connection {
        own_events(log.drop_last(), connection).push(log.last().1)
    } else {
        own_events(log.drop_last(), connection)
    }
}

/// What one connection may do to the registry: nothing, register, or
/// register and then deregister.
pub open spec fn lifecycle_prefix(events: Seq<SessionEvent>) -> bool {
    ||| events == Seq::<SessionEvent>::empty()
    ||| events == seq![SessionEvent::Connect]
    ||| events == seq![SessionEvent::Connect, SessionEvent::Disconnect]
}

/// No connection's operations overlap improperly in `log`: each registers at
/// most once and deregisters at most once, after it registered.
pub open spec fn orderly(log: Seq<(int, SessionEvent)>) -> bool {
    forall|connection: int| lifecycle_prefix(#[trigger] own_events(log, connection))
}

/// The connections that have registered in `log` and not deregistered.
pub open spec fn registered(log: Seq<(int, SessionEvent)>) -> Set<int> {
    Set::new(|connection: int| own_events(log, connection) == seq![SessionEvent::Connect])
}

/// Registry accuracy: however the registrations and deregistrations of any
/// number of connections interleave, as long as each connection keeps to its
/// own order, the count never goes below zero on the way, and at the end it
/// is the number of connections that are registered: the registrations less
/// the deregistrations.
pub proof fn lemma_registry_accuracy(log: Seq<(int, SessionEvent)>)
    requires
        orderly(log),
    ensures
        properly_paired(events_of(log)),
        registered(log).finite(),
        live_sessions(events_of(log)) == registered(log).len(),
        connects(events_of(log)) - disconnects(events_of(log)) >= 0,
    decreases log.len(),
{
    if log.len() == 0 {
        assert(registered(log) =~= Set::<int>::empty()) by {
            assert forall|connection: int| !registered(log).contains(connection) by {
                assert(seq![SessionEvent::Connect].len() == 1);
            }
        }
        assert forall|n: int| 0 <= n <= 0 implies #[trigger] live_sessions(
            events_of(log).take(n),
        ) >= 0 by {
            assert(events_of(log).take(n) =~= Seq::<SessionEvent>::empty());
        }
    } else {
        let earlier = log.drop_last();
        let connection = log.last().0;
        let event = log.last().1;
        let own_before = own_events(earlier, connection);
        let own_now = own_events(log, connection);
        assert(own_now.drop_last() =~= own_before);
        assert(own_now.last() == event);
        assert(seq![SessionEvent::Connect].len() == 1);
        assert(seq![SessionEvent::Connect, SessionEvent::Disconnect].len() == 2);
        assert(seq![SessionEvent::Connect, SessionEvent::Disconnect].drop_last() =~= seq![
            SessionEvent::Connect,
        ]);
        assert(seq![SessionEvent::Connect].drop_last() =~= Seq::<SessionEvent>::empty());
        assert forall|other: int| lifecycle_prefix(#[trigger] own_events(earlier, other)) by {
            if other != connection {
                assert(own_events(log, other) == own_events(earlier, other));
            }
        }
        lemma_registry_accuracy(earlier);
        lemma_live_sessions_push(events_of(earlier), event);
        match event {
            SessionEvent::Connect => {
                assert(own_before =~= Seq::<SessionEvent>::empty());
                assert(registered(log) =~= registered(earlier).insert(connection)) by {
                    assert forall|other: int|
                        registered(log).contains(other) == registered(earlier).insert(
                            connection,
                        ).contains(other) by {
                        if other != connection {
                            assert(own_events(log, other) == own_events(earlier, other));
                        }
                    }
                }
            },
            SessionEvent::Disconnect => {
                assert(own_before =~= seq![SessionEvent::Connect]);
                assert(registered(log) =~= registered(earlier).remove(connection)) by {
                    assert forall|other: int|
                        registered(log).contains(other) == registered(earlier).remove(
                            connection,
                        ).contains(other) by {
                        if other != connection {
                            assert(own_events(log, other) == own_events(earlier, other));
                        }
                    }
                }
            },
        }
        lemma_push_keeps_pairing(events_of(earlier), event);
    }
}

} // verus!
