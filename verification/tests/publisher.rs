use status_broadcast::channel::{BroadcastCell, Polled};
use status_broadcast::clock::Timestamp;
use status_broadcast::publisher::{
    is_healthy, take_snapshot, CycleOutcome, ProbeOutcome, Publisher, PublisherAction,
    PublisherPhase, DEFAULT_INTERVAL_SECS,
};
use status_broadcast::registry::SessionRegistry;
use status_broadcast::wire::{EncodeError, Snapshot};

fn registry_with(clients: u64) -> SessionRegistry {
    let mut registry = SessionRegistry::new();
    for _ in 0..clients {
        registry.increment();
    }
    registry
}

fn noon() -> Timestamp {
    // 2023-01-01T12:00:00Z
    Timestamp::new(1_672_574_400, 0)
}

#[test]
fn default_interval_is_fifteen_seconds() {
    assert_eq!(DEFAULT_INTERVAL_SECS, 15);
    let publisher = Publisher::new();
    assert_eq!(publisher.interval_secs(), 15);
    assert_eq!(publisher.next_action(), PublisherAction::Sleep { secs: 15 });
}

#[test]
fn any_completed_exchange_is_healthy() {
    assert!(is_healthy(ProbeOutcome::Completed { status: 200 }));
    assert!(is_healthy(ProbeOutcome::Completed { status: 404 }));
    assert!(is_healthy(ProbeOutcome::Completed { status: 500 }));
    assert!(is_healthy(ProbeOutcome::Completed { status: 0 }));
}

#[test]
fn transport_error_is_unhealthy() {
    assert!(!is_healthy(ProbeOutcome::TransportError));
}

#[test]
fn take_snapshot_carries_count_time_and_flag() {
    assert_eq!(
        take_snapshot(5, noon(), ProbeOutcome::Completed { status: 503 }),
        Snapshot { connected_clients: 5, timestamp: noon(), upstream_healthy: true }
    );
    assert_eq!(
        take_snapshot(0, Timestamp::new(1, 2), ProbeOutcome::TransportError),
        Snapshot {
            connected_clients: 0,
            timestamp: Timestamp::new(1, 2),
            upstream_healthy: false
        }
    );
}

#[test]
fn publisher_starts_asleep_and_probes_after_waking() {
    let mut publisher = Publisher::with_interval(3);
    assert_eq!(publisher.current_phase(), PublisherPhase::Sleeping);
    assert!(publisher.is_running());
    assert_eq!(publisher.next_action(), PublisherAction::Sleep { secs: 3 });
    publisher.woke();
    assert_eq!(publisher.current_phase(), PublisherPhase::Probing);
    assert_eq!(publisher.next_action(), PublisherAction::Probe);
    publisher.woke();
    assert_eq!(publisher.current_phase(), PublisherPhase::Probing);
    assert_eq!(publisher.interval_secs(), 3);
}

#[test]
fn cycle_publishes_snapshot_and_sleeps_again() {
    let registry = registry_with(2);
    let mut cell = BroadcastCell::new("{}".to_string());
    let mut publisher = Publisher::with_interval(0);
    publisher.woke();
    let outcome = publisher.probed_at(
        ProbeOutcome::Completed { status: 200 },
        &registry,
        &mut cell,
        noon(),
    );
    assert_eq!(outcome, CycleOutcome::Published);
    assert_eq!(
        cell.latest(),
        "{\"clients_count\":2,\"dateTime\":\"2023-01-01T12:00:00Z\",\"is_up\":true}"
    );
    assert_eq!(cell.version(), 1);
    assert_eq!(publisher.current_phase(), PublisherPhase::Sleeping);
    assert_eq!(publisher.next_action(), PublisherAction::Sleep { secs: 0 });
}

#[test]
fn probe_timeout_only_clears_the_health_flag() {
    let registry = registry_with(3);
    let mut cell = BroadcastCell::new("{}".to_string());
    let mut publisher = Publisher::with_interval(0);

    publisher.woke();
    assert_eq!(
        publisher.probed_at(ProbeOutcome::TransportError, &registry, &mut cell, noon()),
        CycleOutcome::Published
    );
    assert_eq!(
        cell.latest(),
        "{\"clients_count\":3,\"dateTime\":\"2023-01-01T12:00:00Z\",\"is_up\":false}"
    );
    assert_eq!(registry.snapshot_count(), 3);

    // the publisher goes on to the following cycle
    assert!(publisher.is_running());
    assert_eq!(publisher.next_action(), PublisherAction::Sleep { secs: 0 });
    publisher.woke();
    assert_eq!(publisher.next_action(), PublisherAction::Probe);
    assert_eq!(
        publisher.probed_at(
            ProbeOutcome::Completed { status: 200 },
            &registry,
            &mut cell,
            Timestamp::new(1_672_574_415, 0),
        ),
        CycleOutcome::Published
    );
    assert_eq!(
        cell.latest(),
        "{\"clients_count\":3,\"dateTime\":\"2023-01-01T12:00:15Z\",\"is_up\":true}"
    );
    assert_eq!(cell.version(), 2);
}

#[test]
fn closed_channel_stops_the_publisher() {
    let registry = registry_with(1);
    let mut cell = BroadcastCell::new("{}".to_string());
    cell.close();
    let mut publisher = Publisher::new();
    publisher.woke();
    assert_eq!(
        publisher.probed_at(ProbeOutcome::Completed { status: 200 }, &registry, &mut cell, noon()),
        CycleOutcome::Closed
    );
    assert_eq!(cell.latest(), "{}");
    assert_eq!(cell.version(), 0);
    assert_eq!(publisher.current_phase(), PublisherPhase::Stopped);
    assert!(!publisher.is_running());
    assert_eq!(publisher.next_action(), PublisherAction::Stop);
}

#[test]
fn stopped_publisher_stays_stopped() {
    let registry = registry_with(1);
    let mut cell = BroadcastCell::new("{}".to_string());
    cell.close();
    let mut publisher = Publisher::new();
    publisher.woke();
    publisher.probed_at(ProbeOutcome::TransportError, &registry, &mut cell, noon());
    publisher.woke();
    assert_eq!(publisher.current_phase(), PublisherPhase::Stopped);
    assert_eq!(
        publisher.probed_at(ProbeOutcome::TransportError, &registry, &mut cell, noon()),
        CycleOutcome::Ignored
    );
    assert_eq!(publisher.next_action(), PublisherAction::Stop);
}

#[test]
fn probe_result_is_ignored_while_asleep() {
    let registry = registry_with(1);
    let mut cell = BroadcastCell::new("{}".to_string());
    let mut publisher = Publisher::new();
    assert_eq!(
        publisher.probed_at(ProbeOutcome::Completed { status: 200 }, &registry, &mut cell, noon()),
        CycleOutcome::Ignored
    );
    assert_eq!(publisher.publish_encoded(&mut cell, Ok("x".to_string())), CycleOutcome::Ignored);
    assert_eq!(cell.version(), 0);
    assert_eq!(cell.latest(), "{}");
    assert_eq!(publisher.current_phase(), PublisherPhase::Sleeping);
}

#[test]
fn unwritable_timestamp_costs_the_cycle_and_no_more() {
    let registry = registry_with(1);
    let mut cell = BroadcastCell::new("{}".to_string());
    let mut publisher = Publisher::with_interval(1);
    publisher.woke();
    assert_eq!(
        publisher.probed_at(
            ProbeOutcome::Completed { status: 200 },
            &registry,
            &mut cell,
            Timestamp::new(i64::MAX, 0),
        ),
        CycleOutcome::Failed(EncodeError::TimestampOutOfRange)
    );
    assert_eq!(cell.version(), 0);
    assert_eq!(cell.latest(), "{}");
    assert_eq!(publisher.next_action(), PublisherAction::Sleep { secs: 1 });
}

#[test]
fn publish_encoded_reports_the_encoding_error() {
    let mut cell = BroadcastCell::new("{}".to_string());
    let mut publisher = Publisher::new();
    publisher.woke();
    assert_eq!(
        publisher.publish_encoded(&mut cell, Err(EncodeError::Serialization)),
        CycleOutcome::Failed(EncodeError::Serialization)
    );
    assert_eq!(cell.version(), 0);
    assert_eq!(publisher.current_phase(), PublisherPhase::Sleeping);
}

#[test]
fn publish_encoded_publishes_the_message() {
    let mut cell = BroadcastCell::new("{}".to_string());
    let mut cursor = cell.subscribe();
    let mut publisher = Publisher::new();
    publisher.woke();
    assert_eq!(publisher.publish_encoded(&mut cell, Ok("m".to_string())), CycleOutcome::Published);
    assert_eq!(cell.poll_change(&mut cursor), Polled::Changed("m".to_string()));
    assert_eq!(publisher.current_phase(), PublisherPhase::Sleeping);
}

#[test]
fn cycle_at_the_current_instant_publishes_it() {
    let registry = registry_with(4);
    let mut cell = BroadcastCell::new("{}".to_string());
    let mut publisher = Publisher::with_interval(0);
    publisher.woke();
    let now = chrono::Utc::now();
    assert_eq!(
        publisher.probed_at(
            ProbeOutcome::Completed { status: 204 },
            &registry,
            &mut cell,
            Timestamp::new(now.timestamp(), now.timestamp_subsec_nanos()),
        ),
        CycleOutcome::Published
    );
    let parsed: serde_json::Value = serde_json::from_str(cell.latest()).unwrap();
    assert_eq!(parsed["clients_count"].as_u64(), Some(4));
    assert_eq!(parsed["is_up"].as_bool(), Some(true));
    let at = chrono::DateTime::parse_from_rfc3339(parsed["dateTime"].as_str().unwrap()).unwrap();
    assert_eq!(at, now);
    assert_eq!(publisher.next_action(), PublisherAction::Sleep { secs: 0 });
}

#[test]
fn every_plain_instant_is_published() {
    let registry = registry_with(1);
    let mut cell = BroadcastCell::new("{}".to_string());
    let mut publisher = Publisher::with_interval(0);
    // the first and the last instant of the years 1970 to 9999
    for (secs, nanos, text) in [
        (0i64, 0u32, "1970-01-01T00:00:00Z"),
        (253_402_300_799, 999_999_999, "9999-12-31T23:59:59.999999999Z"),
    ] {
        publisher.woke();
        assert_eq!(
            publisher.probed_at(
                ProbeOutcome::TransportError,
                &registry,
                &mut cell,
                Timestamp::new(secs, nanos),
            ),
            CycleOutcome::Published
        );
        assert_eq!(
            cell.latest(),
            &format!("{{\"clients_count\":1,\"dateTime\":\"{text}\",\"is_up\":false}}")
        );
    }
    assert_eq!(cell.version(), 2);
}

#[test]
fn publish_on_a_closed_cell_at_the_last_version_is_still_refused() {
    let mut cell = BroadcastCell::new("{}".to_string());
    cell.close();
    let mut publisher = Publisher::new();
    publisher.woke();
    assert_eq!(publisher.publish_encoded(&mut cell, Ok("m".to_string())), CycleOutcome::Closed);
    assert_eq!(cell.version(), 0);
}
