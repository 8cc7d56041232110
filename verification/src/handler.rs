//! The connection handler's per-line step: decode the line, consult the
//! deduplication store, update the shared status, forward newly-unique
//! records to the log queue, and decide whether the connection stays open.
//!
//! The surrounding read loop (socket I/O, end-of-stream handling) lives
//! outside; it calls [`handle_line`] once per received line, holding the
//! locks on the store and the status across the call.

use vstd::prelude::*;
use tokio::sync::mpsc::UnboundedSender;
use crate::codec::{process_line, spec_outcome, LineOutcome};
use crate::status::{
    sv_add_duplicate, sv_add_unique, sv_client_disconnected, sv_terminated, AppStatus, StatusView,
};
use crate::store::DedupStore;

verus! {

#[verifier::external_type_specification]
#[verifier::external_body]
#[verifier::reject_recursive_types(T)]
pub struct ExUnboundedSender<T>(UnboundedSender<T>);

/// Relies on tokio::sync::mpsc::UnboundedSender::send: enqueues the record
/// onto the unbounded FIFO channel and fails exactly when the receiving
/// half has been dropped or closed. Whether the receiver is still alive is
/// runtime state, so nothing is promised of the result.
#[verifier::external_body]
fn send_record(log_tx: &UnboundedSender<String>, record: String) -> (accepted: bool) {
    log_tx.send(record).is_ok()
}

/// What the handler decides after one line.
#[derive(Clone, Copy, Debug, PartialEq, Eq, Structural)]
pub enum HandlerStep {
    /// Keep reading from this connection.
    Continue,
    /// Close: the line broke the protocol. The client's slot is released.
    CloseProtocolViolation,
    /// Close: the system is terminating. The client's slot is released.
    CloseTerminating,
    /// The log queue refused a newly-unique record: unrecoverable, the
    /// process must stop rather than silently lose the record.
    FatalLogFailure,
}

/// After a numeric record was counted: the connection closes, releasing its
/// slot, exactly when the system is terminating; otherwise it keeps reading.
pub open spec fn post_after_record(counted: StatusView, st1: StatusView, step: HandlerStep) -> bool {
    if counted.terminating {
        st1 == sv_client_disconnected(counted) && step == HandlerStep::CloseTerminating
    } else {
        st1 == counted && step == HandlerStep::Continue
    }
}

/// Full effect of one handled line on the store and the status, and the
/// step the handler reports. The only freedom left is whether the log
/// queue accepted a newly-unique record, which is runtime state.
pub open spec fn handle_line_post(
    line: Seq<char>,
    seen0: Set<u32>,
    st0: StatusView,
    seen1: Set<u32>,
    st1: StatusView,
    step: HandlerStep,
) -> bool {
    match spec_outcome(line) {
        LineOutcome::Invalid => {
            &&& seen1 == seen0
            &&& st1 == sv_client_disconnected(st0)
            &&& step == HandlerStep::CloseProtocolViolation
        },
        LineOutcome::Terminate => {
            &&& seen1 == seen0
            &&& st1 == sv_client_disconnected(sv_terminated(st0))
            &&& step == HandlerStep::CloseTerminating
        },
        LineOutcome::Numeric(v) => {
            &&& seen1 == seen0.insert(v)
            &&& if seen0.contains(v) {
                post_after_record(sv_add_duplicate(st0), st1, step)
            } else {
                (step == HandlerStep::FatalLogFailure && st1 == sv_add_unique(st0)) ||
                post_after_record(sv_add_unique(st0), st1, step)
            }
        },
    }
}

/// Close-or-continue decision once a record has been counted: every
/// connection self-terminates as soon as the system is terminating.
pub fn finish_record(status: &mut AppStatus) -> (step: HandlerStep)
    ensures
        post_after_record(old(status)@, final(status)@, step),
{
    if status.is_terminating() {
        status.client_disconnected();
        HandlerStep::CloseTerminating
    } else {
        HandlerStep::Continue
    }
}

/// What the handler reports for each answer of the log queue: a refused
/// newly-unique record is fatal; an accepted one leads to the ordinary
/// close-or-continue decision.
pub fn finish_unique(accepted: bool, status: &mut AppStatus) -> (step: HandlerStep)
    ensures
        !accepted ==> step == HandlerStep::FatalLogFailure && final(status)@ == old(status)@,
        accepted ==> post_after_record(old(status)@, final(status)@, step),
{
    if !accepted {
        HandlerStep::FatalLogFailure
    } else {
        finish_record(status)
    }
}

/// Handle one line from a connection, as one atomic step with respect to
/// the store and the status: an invalid line closes the connection; the
/// shutdown literal flags termination and closes it; a numeric record is
/// checked-and-inserted, counted as unique or duplicate, and its exact text
/// forwarded to the log queue when newly unique.
pub fn handle_line(
    line: &str,
    store: &mut DedupStore,
    status: &mut AppStatus,
    log_tx: &UnboundedSender<String>,
) -> (step: HandlerStep)
    requires
        old(status)@.total_unique < usize::MAX,
        old(status)@.period_received < usize::MAX,
        old(status)@.period_duplicates < usize::MAX,
    ensures
        handle_line_post(line@, old(store)@, old(status)@, final(store)@, final(status)@, step),
{
    match process_line(line) {
        LineOutcome::Invalid => {
            status.client_disconnected();
            HandlerStep::CloseProtocolViolation
        },
        LineOutcome::Terminate => {
            status.request_terminate();
            status.client_disconnected();
            HandlerStep::CloseTerminating
        },
        LineOutcome::Numeric(value) => {
            let newly = store.contains_and_insert(value);
            if newly {
                status.add_unique();
                let accepted = send_record(log_tx, line.to_owned());
                finish_unique(accepted, status)
            } else {
                status.add_duplicate();
                finish_record(status)
            }
        },
    }
}

} // verus!
