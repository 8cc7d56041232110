use number_server::status::AppStatus;
use number_server::store::DedupStore;

#[test]
fn new_status_is_all_zero() {
    let mut status = AppStatus::new();
    assert!(!status.is_terminating());
    let snap = status.snapshot_and_reset();
    assert_eq!(snap.period_received, 0);
    assert_eq!(snap.period_duplicates, 0);
    assert_eq!(snap.total_unique, 0);
    assert_eq!(snap.client_count, 0);
}

#[test]
fn unique_and_duplicate_counting() {
    let mut status = AppStatus::new();
    status.add_unique();
    status.add_unique();
    status.add_duplicate();
    let snap = status.snapshot_and_reset();
    assert_eq!(snap.period_received, 3);
    assert_eq!(snap.period_duplicates, 1);
    assert_eq!(snap.total_unique, 2);
}

#[test]
fn snapshot_resets_period_but_not_total() {
    let mut status = AppStatus::new();
    status.add_unique();
    status.add_duplicate();
    let _ = status.snapshot_and_reset();
    status.add_duplicate();
    let snap = status.snapshot_and_reset();
    assert_eq!(snap.period_received, 1);
    assert_eq!(snap.period_duplicates, 1);
    assert_eq!(snap.total_unique, 1);
}

#[test]
fn cero_resets_period_counters_only() {
    let mut status = AppStatus::new();
    status.add_unique();
    status.add_duplicate();
    status.cero_();
    let snap = status.snapshot_and_reset();
    assert_eq!(snap.period_received, 0);
    assert_eq!(snap.period_duplicates, 0);
    assert_eq!(snap.total_unique, 1);
}

#[test]
fn admission_cap_is_five_concurrent_clients() {
    let mut status = AppStatus::new();
    for _ in 0..5 {
        assert!(status.try_admit());
    }
    // The sixth concurrent connection is refused and not counted.
    assert!(!status.try_admit());
    let snap = status.snapshot_and_reset();
    assert_eq!(snap.client_count, 5);
}

#[test]
fn admission_reopens_after_a_disconnect() {
    let mut status = AppStatus::new();
    for _ in 0..5 {
        assert!(status.try_admit());
    }
    status.client_disconnected();
    assert!(status.try_admit());
    assert!(!status.try_admit());
}

#[test]
fn disconnect_never_drives_count_below_zero() {
    let mut status = AppStatus::new();
    status.client_disconnected();
    let snap = status.snapshot_and_reset();
    assert_eq!(snap.client_count, 0);
}

#[test]
fn fresh_counters_have_room() {
    let mut status = AppStatus::new();
    assert!(status.counters_have_room());
    status.add_unique();
    status.add_duplicate();
    assert!(status.counters_have_room());
}

#[test]
fn terminate_request_is_idempotent() {
    let mut status = AppStatus::new();
    assert!(!status.is_terminating());
    status.request_terminate();
    assert!(status.is_terminating());
    status.request_terminate();
    assert!(status.is_terminating());
}

#[test]
fn store_counts_a_value_as_new_exactly_once() {
    let mut store = DedupStore::new();
    assert_eq!(store.len(), 0);
    assert!(store.contains_and_insert(7));
    assert!(!store.contains_and_insert(7));
    assert!(store.contains_and_insert(8));
    assert_eq!(store.len(), 2);
}
