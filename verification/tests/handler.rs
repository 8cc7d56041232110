use number_server::handler::{handle_line, HandlerStep};
use number_server::status::AppStatus;
use number_server::store::DedupStore;
use tokio::sync::mpsc::unbounded_channel;

#[test]
fn unique_then_duplicate_logs_once() {
    let (tx, mut rx) = unbounded_channel::<String>();
    let mut store = DedupStore::new();
    let mut status = AppStatus::new();
    assert!(status.try_admit());

    assert_eq!(handle_line("123456789", &mut store, &mut status, &tx), HandlerStep::Continue);
    assert_eq!(rx.try_recv().unwrap(), "123456789");

    assert_eq!(handle_line("123456789", &mut store, &mut status, &tx), HandlerStep::Continue);
    assert!(rx.try_recv().is_err());

    let snap = status.snapshot_and_reset();
    assert_eq!(snap.total_unique, 1);
    assert_eq!(snap.period_duplicates, 1);
    assert_eq!(snap.period_received, 2);
    assert_eq!(snap.client_count, 1);
}

#[test]
fn invalid_line_closes_connection_and_logs_nothing() {
    let (tx, mut rx) = unbounded_channel::<String>();
    let mut store = DedupStore::new();
    let mut status = AppStatus::new();
    assert!(status.try_admit());

    assert_eq!(
        handle_line("notanumber", &mut store, &mut status, &tx),
        HandlerStep::CloseProtocolViolation
    );
    assert!(rx.try_recv().is_err());
    assert_eq!(store.len(), 0);

    let snap = status.snapshot_and_reset();
    assert_eq!(snap.client_count, 0);
    assert_eq!(snap.period_received, 0);
}

#[test]
fn terminate_closes_sender_and_every_other_connection() {
    let (tx, _rx) = unbounded_channel::<String>();
    let mut store = DedupStore::new();
    let mut status = AppStatus::new();
    assert!(status.try_admit());
    assert!(status.try_admit());

    // One client sends the shutdown literal: its own connection closes.
    assert_eq!(handle_line("terminate", &mut store, &mut status, &tx), HandlerStep::CloseTerminating);
    assert!(status.is_terminating());

    // The other client's next record is still counted, then its
    // connection closes too.
    assert_eq!(handle_line("42", &mut store, &mut status, &tx), HandlerStep::CloseTerminating);

    let snap = status.snapshot_and_reset();
    assert_eq!(snap.client_count, 0);
    assert_eq!(snap.total_unique, 1);
}

#[test]
fn same_value_across_connections_counted_once() {
    let (tx, mut rx) = unbounded_channel::<String>();
    let mut store = DedupStore::new();
    let mut status = AppStatus::new();

    assert_eq!(handle_line("000000042", &mut store, &mut status, &tx), HandlerStep::Continue);
    assert_eq!(handle_line("42", &mut store, &mut status, &tx), HandlerStep::Continue);

    // Only the first spelling of the value reaches the log, verbatim.
    assert_eq!(rx.try_recv().unwrap(), "000000042");
    assert!(rx.try_recv().is_err());

    let snap = status.snapshot_and_reset();
    assert_eq!(snap.total_unique, 1);
    assert_eq!(snap.period_duplicates, 1);
}

#[test]
fn log_receives_unique_lines_verbatim_in_order() {
    let (tx, mut rx) = unbounded_channel::<String>();
    let mut store = DedupStore::new();
    let mut status = AppStatus::new();

    for line in ["1", "2", "1", "3", "000000002"] {
        assert_eq!(handle_line(line, &mut store, &mut status, &tx), HandlerStep::Continue);
    }
    assert_eq!(rx.try_recv().unwrap(), "1");
    assert_eq!(rx.try_recv().unwrap(), "2");
    assert_eq!(rx.try_recv().unwrap(), "3");
    assert!(rx.try_recv().is_err());
}

#[test]
fn refused_log_queue_is_fatal() {
    let (tx, rx) = unbounded_channel::<String>();
    drop(rx);
    let mut store = DedupStore::new();
    let mut status = AppStatus::new();

    assert_eq!(handle_line("7", &mut store, &mut status, &tx), HandlerStep::FatalLogFailure);
    // A duplicate needs no log entry, so the dead queue does not matter.
    assert_eq!(handle_line("7", &mut store, &mut status, &tx), HandlerStep::Continue);
}

#[test]
fn terminate_holds_even_if_sender_is_later_refused_admission() {
    let (tx, _rx) = unbounded_channel::<String>();
    let mut store = DedupStore::new();
    let mut status = AppStatus::new();
    assert!(status.try_admit());

    assert_eq!(handle_line("terminate", &mut store, &mut status, &tx), HandlerStep::CloseTerminating);

    // The cap fills up; the same peer's next connection attempt is refused.
    for _ in 0..5 {
        assert!(status.try_admit());
    }
    assert!(!status.try_admit());

    // Shutdown stays in effect regardless.
    assert!(status.is_terminating());
}
