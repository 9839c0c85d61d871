use bookwatch::backoff::{delay_ms, BackoffParams};
use bookwatch::cursor::Cursor;
use bookwatch::dispatch::{classify_event, Disposition};
use bookwatch::event::{CloseReason, DispatchError, EventKind, RawEvent, SnapshotError};
use bookwatch::object::{Book, ObjectKey, ResourceObject};
use bookwatch::reconcile::{Action, Informer, LoopState};
use bookwatch::store::relist_deletions;

fn obj(namespace: &str, name: &str, version: u64, title: &str) -> ResourceObject {
    ResourceObject {
        key: ObjectKey {
            namespace: String::from(namespace),
            name: String::from(name),
        },
        version,
        spec: Book {
            title: String::from(title),
            authors: None,
        },
    }
}

fn key(namespace: &str, name: &str) -> ObjectKey {
    ObjectKey {
        namespace: String::from(namespace),
        name: String::from(name),
    }
}

fn params(failure_threshold: u64) -> BackoffParams {
    BackoffParams {
        initial_delay_ms: 500,
        max_delay_ms: 30000,
        multiplier: 2,
        jitter_pct: 0,
        failure_threshold,
    }
}

#[test]
fn snapshot_rehydrates_consumer() {
    // Scenario: a snapshot of {X@v1, Y@v1} with token T1 yields one
    // synthetic Added per object and seats the cursor at T1.
    let mut m = Informer::new(params(5));
    assert_eq!(m.state, LoopState::Relisting);
    let events = m.on_snapshot_ok(vec![obj("default", "x", 1, "X"), obj("default", "y", 1, "Y")], 100);
    assert_eq!(events.len(), 2);
    assert_eq!(events[0].kind, EventKind::Added);
    assert_eq!(events[0].object.key.name, "x");
    assert_eq!(events[1].kind, EventKind::Added);
    assert_eq!(events[1].object.key.name, "y");
    assert_eq!(m.cursor.value, Some(100));
    assert_eq!(m.state, LoopState::Streaming);
}

#[test]
fn stream_delivers_in_order_and_cursor_follows_dispatch() {
    // Scenario: from T1, Modified(X@v2) then Deleted(Y) reach the consumer
    // in that order, and the cursor advances to each event's token only
    // after its dispatch has returned.
    let mut m = Informer::new(params(5));
    m.on_snapshot_ok(vec![obj("default", "x", 1, "X"), obj("default", "y", 1, "Y")], 100);

    let a = m.on_stream_event(RawEvent::Modified(obj("default", "x", 2, "X"), 101), 0);
    match a {
        Action::Deliver { event } => {
            assert_eq!(event.kind, EventKind::Modified);
            assert_eq!(event.object.key.name, "x");
            assert_eq!(event.object.version, 2);
        }
        _ => panic!("expected a delivery"),
    }
    // Not yet advanced: dispatch has not returned.
    assert_eq!(m.cursor.value, Some(100));
    m.on_dispatched(Ok(()));
    assert_eq!(m.cursor.value, Some(101));

    let a = m.on_stream_event(RawEvent::Deleted(obj("default", "y", 1, "Y"), 102), 0);
    match a {
        Action::Deliver { event } => {
            assert_eq!(event.kind, EventKind::Deleted);
            assert_eq!(event.object.key.name, "y");
        }
        _ => panic!("expected a delivery"),
    }
    m.on_dispatched(Ok(()));
    assert_eq!(m.cursor.value, Some(102));
}

#[test]
fn ordinary_disconnect_restreams_without_relist() {
    // Scenario: a plain disconnect after T2 reconnects with since=T2; no
    // snapshot happens.
    let mut m = Informer::new(params(5));
    m.on_snapshot_ok(Vec::new(), 200);
    let a = m.on_stream_closed(CloseReason::Disconnect, 0);
    match a {
        Action::OpenStream { since } => assert_eq!(since, 200),
        _ => panic!("expected a plain reconnect"),
    }
    assert_eq!(m.state, LoopState::Streaming);
    assert_eq!(m.cursor.value, Some(200));
}

#[test]
fn compaction_forces_fresh_snapshot() {
    // Scenario: a close classified as history-compacted relists; the stale
    // token is never offered to the stream again, and the following
    // snapshot re-emits every present object as Added.
    let mut m = Informer::new(params(5));
    m.on_snapshot_ok(vec![obj("default", "x", 1, "X")], 200);
    let a = m.on_stream_closed(CloseReason::Compacted, 0);
    assert!(matches!(a, Action::Snapshot));
    assert_eq!(m.state, LoopState::Relisting);
    let events = m.on_snapshot_ok(vec![obj("default", "x", 1, "X")], 300);
    assert_eq!(events.len(), 1);
    assert_eq!(events[0].kind, EventKind::Added);
    assert_eq!(m.cursor.value, Some(300));
}

#[test]
fn in_band_gone_event_forces_fresh_snapshot() {
    let mut m = Informer::new(params(5));
    m.on_snapshot_ok(Vec::new(), 200);
    let a = m.on_stream_event(RawEvent::Error(410), 0);
    assert!(matches!(a, Action::Snapshot));
    assert_eq!(m.state, LoopState::Relisting);
}

#[test]
fn in_band_other_error_reconnects() {
    let mut m = Informer::new(params(5));
    m.on_snapshot_ok(Vec::new(), 200);
    let a = m.on_stream_event(RawEvent::Error(500), 0);
    match a {
        Action::OpenStream { since } => assert_eq!(since, 200),
        _ => panic!("expected a plain reconnect"),
    }
}

#[test]
fn five_transport_failures_back_off_with_growing_delays() {
    // Scenario: five consecutive snapshot transport failures produce five
    // strictly growing (cap permitting) backoff delays before the sixth
    // attempt.
    let mut m = Informer::new(params(0));
    let mut delays = Vec::new();
    for _ in 0..5 {
        let a = m.on_snapshot_err(SnapshotError::Transport, 0);
        match a {
            Action::Wait { delay_ms } => delays.push(delay_ms),
            _ => panic!("expected a wait"),
        }
        assert_eq!(m.state, LoopState::Backoff);
        let a = m.on_backoff_elapsed();
        assert!(matches!(a, Action::Snapshot));
        assert_eq!(m.state, LoopState::Relisting);
    }
    assert_eq!(delays, vec![500, 1000, 2000, 4000, 8000]);
    for w in delays.windows(2) {
        assert!(w[0] < w[1]);
    }
}

#[test]
fn backoff_delay_is_capped() {
    let p = params(0);
    assert_eq!(delay_ms(&p, 20, 0), 30000);
    // Every delay stays within the configured bounds.
    for n in 0..30 {
        let d = delay_ms(&p, n, 12345);
        assert!(p.initial_delay_ms <= d && d <= p.max_delay_ms);
    }
}

#[test]
fn backoff_jitter_adds_share_of_base() {
    let p = BackoffParams {
        initial_delay_ms: 1000,
        max_delay_ms: 30000,
        multiplier: 2,
        jitter_pct: 10,
        failure_threshold: 0,
    };
    // draw 7 -> jitter share 7 % 11 = 7 hundredths of the base delay.
    assert_eq!(delay_ms(&p, 1, 7), 1070);
    // draw 11 -> share 0: the bare base delay.
    assert_eq!(delay_ms(&p, 1, 11), 1000);
}

#[test]
fn failures_below_threshold_reconnect_without_wait() {
    let mut m = Informer::new(params(3));
    m.on_snapshot_ok(Vec::new(), 50);
    for _ in 0..3 {
        let a = m.on_stream_closed(CloseReason::Transport, 0);
        assert!(matches!(a, Action::OpenStream { since: 50 }));
    }
    // The fourth close exceeds the threshold and waits first.
    let a = m.on_stream_closed(CloseReason::IdleTimeout, 0);
    assert!(matches!(a, Action::Wait { .. }));
    assert_eq!(m.state, LoopState::Backoff);
    // The wait ends in a plain reconnect: nothing was compacted.
    let a = m.on_backoff_elapsed();
    assert!(matches!(a, Action::OpenStream { since: 50 }));
    assert_eq!(m.state, LoopState::Streaming);
}

#[test]
fn delivery_resets_failure_count() {
    let mut m = Informer::new(params(2));
    m.on_snapshot_ok(Vec::new(), 50);
    m.on_stream_closed(CloseReason::Disconnect, 0);
    m.on_stream_closed(CloseReason::Disconnect, 0);
    assert_eq!(m.consecutive_failures, 2);
    let a = m.on_stream_event(RawEvent::Added(obj("default", "x", 1, "X"), 51), 0);
    assert!(matches!(a, Action::Deliver { .. }));
    m.on_dispatched(Ok(()));
    assert_eq!(m.consecutive_failures, 0);
    assert_eq!(m.cursor.value, Some(51));
}

#[test]
fn failing_callback_is_isolated() {
    // A consumer that always fails never stops delivery or the cursor.
    let mut m = Informer::new(params(5));
    m.on_snapshot_ok(Vec::new(), 10);
    for (i, token) in [11u64, 12, 13].iter().enumerate() {
        let a = m.on_stream_event(RawEvent::Added(obj("default", "x", *token, "X"), *token), 0);
        assert!(matches!(a, Action::Deliver { .. }));
        m.on_dispatched(Err(DispatchError {
            detail: String::from("consumer failed"),
        }));
        assert_eq!(m.state, LoopState::Streaming);
        assert_eq!(m.cursor.value, Some(*token));
        assert_eq!(m.dispatch_failures, i as u64 + 1);
        assert_eq!(m.consecutive_failures, 0);
    }
}

#[test]
fn not_found_is_surfaced_and_stops_the_loop() {
    let mut m = Informer::new(params(5));
    let a = m.on_snapshot_err(SnapshotError::NotFound, 0);
    assert!(matches!(a, Action::ReportNotFound));
    assert_eq!(m.state, LoopState::Terminated);
    assert!(!SnapshotError::NotFound.is_retryable());
    assert!(SnapshotError::Transport.is_retryable());
}

#[test]
fn cancel_terminates_from_any_state() {
    let mut m = Informer::new(params(5));
    let a = m.on_cancel();
    assert!(matches!(a, Action::Stop));
    assert_eq!(m.state, LoopState::Terminated);

    let mut m = Informer::new(params(5));
    m.on_snapshot_ok(Vec::new(), 10);
    let a = m.on_cancel();
    assert!(matches!(a, Action::Stop));
    assert_eq!(m.state, LoopState::Terminated);
}

#[test]
fn marker_advances_cursor_silently() {
    let mut m = Informer::new(params(5));
    m.on_snapshot_ok(Vec::new(), 10);
    let a = m.on_stream_event(RawEvent::Marker(15), 0);
    assert!(matches!(a, Action::Continue));
    assert_eq!(m.cursor.value, Some(15));
    // A stale marker does not move the cursor back.
    let a = m.on_stream_event(RawEvent::Marker(12), 0);
    assert!(matches!(a, Action::Continue));
    assert_eq!(m.cursor.value, Some(15));
}

#[test]
fn cursor_never_regresses_within_a_session() {
    let mut c = Cursor::new();
    assert_eq!(c.read(), None);
    c.advance(5);
    assert_eq!(c.read(), Some(5));
    c.advance(3);
    assert_eq!(c.read(), Some(5));
    c.advance(7);
    assert_eq!(c.read(), Some(7));
    c.seed(2);
    assert_eq!(c.read(), Some(2));
}

#[test]
fn classification_covers_every_event_category() {
    match classify_event(RawEvent::Added(obj("a", "b", 1, "T"), 9)) {
        Disposition::Deliver { event, token } => {
            assert_eq!(event.kind, EventKind::Added);
            assert_eq!(token, 9);
        }
        _ => panic!("expected a delivery"),
    }
    match classify_event(RawEvent::Modified(obj("a", "b", 2, "T"), 10)) {
        Disposition::Deliver { event, token } => {
            assert_eq!(event.kind, EventKind::Modified);
            assert_eq!(token, 10);
        }
        _ => panic!("expected a delivery"),
    }
    match classify_event(RawEvent::Deleted(obj("a", "b", 2, "T"), 11)) {
        Disposition::Deliver { event, token } => {
            assert_eq!(event.kind, EventKind::Deleted);
            assert_eq!(token, 11);
        }
        _ => panic!("expected a delivery"),
    }
    match classify_event(RawEvent::Marker(12)) {
        Disposition::Advance { token } => assert_eq!(token, 12),
        _ => panic!("expected a silent advance"),
    }
    match classify_event(RawEvent::Error(410)) {
        Disposition::Close { reason } => assert_eq!(reason, CloseReason::Compacted),
        _ => panic!("expected a close"),
    }
    match classify_event(RawEvent::Error(503)) {
        Disposition::Close { reason } => assert_eq!(reason, CloseReason::Transport),
        _ => panic!("expected a close"),
    }
}

#[test]
fn relist_diff_restores_missed_deletions() {
    // Objects deleted while disconnected are exactly those previously
    // known and absent from the fresh snapshot.
    let previous = vec![key("default", "x"), key("default", "y"), key("default", "z")];
    let snapshot = vec![obj("default", "x", 3, "X"), obj("default", "z", 4, "Z")];
    let dels = relist_deletions(&previous, &snapshot);
    assert_eq!(dels.len(), 1);
    assert_eq!(dels[0].name, "y");
    assert_eq!(dels[0].namespace, "default");
}

#[test]
fn relist_diff_edge_cases() {
    // Nothing known before: nothing to delete.
    let dels = relist_deletions(&Vec::new(), &vec![obj("default", "x", 1, "X")]);
    assert!(dels.is_empty());
    // Empty snapshot: everything known was deleted, in the known order.
    let previous = vec![key("default", "x"), key("default", "y")];
    let dels = relist_deletions(&previous, &Vec::new());
    assert_eq!(dels.len(), 2);
    assert_eq!(dels[0].name, "x");
    assert_eq!(dels[1].name, "y");
    // Same name in another namespace is another object.
    let previous = vec![key("other", "x")];
    let snapshot = vec![obj("default", "x", 1, "X")];
    let dels = relist_deletions(&previous, &snapshot);
    assert_eq!(dels.len(), 1);
    assert_eq!(dels[0].namespace, "other");
}

#[test]
fn object_keys_compare_by_both_components() {
    let a = key("default", "x");
    assert!(a.key_eq(&key("default", "x")));
    assert!(!a.key_eq(&key("default", "y")));
    assert!(!a.key_eq(&key("other", "x")));
    let b = a.duplicate();
    assert!(a.key_eq(&b));
}
