//! A specification-level model of a run: the effect of a sequence of
//! submitted lines on the deduplication store, the counters and the log
//! queue, with the laws the server obeys. Concurrency is modelled by the
//! arbitrary order in which lines reach the store: the store's
//! check-and-insert is atomic per line, so every interleaving of handlers
//! is some such sequence.

use vstd::prelude::*;
use crate::codec::{is_valid_numeric, line_value, lemma_numeric_not_terminate, spec_outcome, LineOutcome};
use crate::status::{
    sv_add_duplicate, sv_add_unique, sv_terminated, sv_wf, StatusView,
};

verus! {

/// The shared state a run acts on: the set of accepted values, the
/// counters, and the sequence of lines forwarded to the log queue.
pub struct RunState {
    pub seen: Set<u32>,
    pub status: StatusView,
    pub log: Seq<Seq<char>>,
}

/// Effect of one submitted line on the shared state, mirroring the
/// connection handler: a new numeric value is inserted, counted unique and
/// its exact text appended to the log; a seen value is counted duplicate;
/// the shutdown literal flags termination; an invalid line only closes its
/// own connection and touches nothing shared.
pub open spec fn run_step(st: RunState, line: Seq<char>) -> RunState {
    match spec_outcome(line) {
        LineOutcome::Numeric(v) => {
            if st.seen.contains(v) {
                RunState { status: sv_add_duplicate(st.status), ..st }
            } else {
                RunState {
                    seen: st.seen.insert(v),
                    status: sv_add_unique(st.status),
                    log: st.log.push(line),
                }
            }
        },
        LineOutcome::Terminate => RunState { status: sv_terminated(st.status), ..st },
        LineOutcome::Invalid => st,
    }
}

/// Effect of a whole sequence of submitted lines, first to last.
pub open spec fn run(st: RunState, lines: Seq<Seq<char>>) -> RunState
    decreases lines.len(),
{
    if lines.len() == 0 {
        st
    } else {
        run(run_step(st, lines.first()), lines.drop_first())
    }
}

/// A line that the step ahead of it would record as newly unique.
pub open spec fn is_new_record(seen: Set<u32>, line: Seq<char>) -> bool {
    match spec_outcome(line) {
        LineOutcome::Numeric(v) => !seen.contains(v),
        LineOutcome::Terminate => false,
        LineOutcome::Invalid => false,
    }
}

/// The set of accepted values after one line, on its own.
pub open spec fn step_seen(seen: Set<u32>, line: Seq<char>) -> Set<u32> {
    match spec_outcome(line) {
        LineOutcome::Numeric(v) => seen.insert(v),
        LineOutcome::Terminate => seen,
        LineOutcome::Invalid => seen,
    }
}

/// The exact lines a sequence of submissions forwards to the log: those
/// recorded as newly unique at their turn, verbatim and in order.
pub open spec fn new_records(seen: Set<u32>, lines: Seq<Seq<char>>) -> Seq<Seq<char>>
    decreases lines.len(),
{
    if lines.len() == 0 {
        Seq::empty()
    } else {
        let rest = new_records(step_seen(seen, lines.first()), lines.drop_first());
        if is_new_record(seen, lines.first()) {
            seq![lines.first()] + rest
        } else {
            rest
        }
    }
}

/// Every step keeps the state invariants: the counter invariant is
/// preserved, the lifetime unique total never decreases, the termination
/// flag never reverts, and the store only grows.
pub proof fn lemma_step_invariants(st: RunState, line: Seq<char>)
    ensures
        sv_wf(st.status) ==> sv_wf(run_step(st, line).status),
        run_step(st, line).status.total_unique >= st.status.total_unique,
        st.status.terminating ==> run_step(st, line).status.terminating,
        st.seen.subset_of(run_step(st, line).seen),
{
}

/// The connection handler follows the model: whatever `handle_line`
/// reports for a line, the store and every shared counter move exactly as
/// `run_step` says; only the per-connection client count, which the model
/// leaves aside, may differ.
pub proof fn lemma_handler_follows_model(
    line: Seq<char>,
    st: RunState,
    seen1: Set<u32>,
    st1: StatusView,
    step: crate::handler::HandlerStep,
)
    requires
        crate::handler::handle_line_post(line, st.seen, st.status, seen1, st1, step),
    ensures
        seen1 =~= run_step(st, line).seen,
        st1.total_unique == run_step(st, line).status.total_unique,
        st1.period_received == run_step(st, line).status.period_received,
        st1.period_duplicates == run_step(st, line).status.period_duplicates,
        st1.terminating == run_step(st, line).status.terminating,
{
}

/// Two valid numeric lines denoting the same value after leading-zero
/// stripping decode to the same record.
pub proof fn lemma_same_value_same_outcome(l1: Seq<char>, l2: Seq<char>)
    requires
        is_valid_numeric(l1),
        is_valid_numeric(l2),
        line_value(l1) == line_value(l2),
    ensures
        spec_outcome(l1) == spec_outcome(l2),
        spec_outcome(l1) is Numeric,
{
    lemma_numeric_not_terminate(l1);
    lemma_numeric_not_terminate(l2);
}

/// Of two valid numeric lines with one value, at most one is counted
/// unique, whatever their order and whatever came before them.
pub proof fn lemma_same_value_counted_once(st: RunState, l1: Seq<char>, l2: Seq<char>)
    requires
        is_valid_numeric(l1),
        is_valid_numeric(l2),
        line_value(l1) == line_value(l2),
    ensures
        run(st, seq![l1, l2]).status.total_unique <= st.status.total_unique + 1,
{
    lemma_same_value_same_outcome(l1, l2);
    let lines = seq![l1, l2];
    let st1 = run_step(st, l1);
    let st2 = run_step(st1, l2);
    assert(lines.first() == l1);
    assert(lines.drop_first() =~= seq![l2]);
    assert(run(st, lines) == run(st1, seq![l2]));
    assert(seq![l2].first() == l2);
    assert(seq![l2].drop_first() =~= Seq::<Seq<char>>::empty());
    assert(run(st1, seq![l2]) == run(st2, Seq::<Seq<char>>::empty()));
    assert(run(st, lines) == st2);
}

/// A run in which every line resubmits an already-seen value counts them
/// all as duplicates: no unique is added, the store does not change.
proof fn lemma_all_duplicates(st: RunState, lines: Seq<Seq<char>>, v: u32)
    requires
        st.seen.contains(v),
        forall|i: int|
            0 <= i < lines.len() ==> is_valid_numeric(#[trigger] lines[i]) && line_value(
                lines[i],
            ) == v,
    ensures
        run(st, lines).seen == st.seen,
        run(st, lines).log == st.log,
        run(st, lines).status.total_unique == st.status.total_unique,
        run(st, lines).status.period_duplicates == st.status.period_duplicates + lines.len(),
        run(st, lines).status.period_received == st.status.period_received + lines.len(),
        run(st, lines).status.client_count == st.status.client_count,
        run(st, lines).status.terminating == st.status.terminating,
    decreases lines.len(),
{
    if lines.len() > 0 {
        lemma_numeric_not_terminate(lines.first());
        let st1 = run_step(st, lines.first());
        assert(forall|i: int|
            0 <= i < lines.drop_first().len() ==> is_valid_numeric(
                #[trigger] lines.drop_first()[i],
            ) && line_value(lines.drop_first()[i]) == v);
        lemma_all_duplicates(st1, lines.drop_first(), v);
    }
}

/// Concurrent submissions of one value: of any nonempty sequence of valid
/// numeric lines all denoting a value not seen before, exactly one is
/// counted unique and the others duplicate; the lifetime unique total rises
/// by exactly one, and the store gains exactly that value.
pub proof fn lemma_one_value_one_unique(st: RunState, lines: Seq<Seq<char>>, v: u32)
    requires
        lines.len() > 0,
        !st.seen.contains(v),
        forall|i: int|
            0 <= i < lines.len() ==> is_valid_numeric(#[trigger] lines[i]) && line_value(
                lines[i],
            ) == v,
    ensures
        run(st, lines).seen == st.seen.insert(v),
        run(st, lines).status.total_unique == st.status.total_unique + 1,
        run(st, lines).status.period_duplicates == st.status.period_duplicates + lines.len() - 1,
        run(st, lines).status.period_received == st.status.period_received + lines.len(),
{
    lemma_numeric_not_terminate(lines.first());
    let st1 = run_step(st, lines.first());
    assert(st1.seen == st.seen.insert(v));
    assert(forall|i: int|
        0 <= i < lines.drop_first().len() ==> is_valid_numeric(
            #[trigger] lines.drop_first()[i],
        ) && line_value(lines.drop_first()[i]) == v);
    lemma_all_duplicates(st1, lines.drop_first(), v);
}

/// Round trip to the durable log: a run extends the forwarded log by
/// exactly the lines recorded as newly unique, verbatim and in submission
/// order; duplicates and rejected lines add nothing.
pub proof fn lemma_log_round_trip(st: RunState, lines: Seq<Seq<char>>)
    ensures
        run(st, lines).log == st.log + new_records(st.seen, lines),
    decreases lines.len(),
{
    if lines.len() == 0 {
        assert(st.log + new_records(st.seen, lines) =~= st.log);
    } else {
        let first = lines.first();
        let st1 = run_step(st, first);
        lemma_log_round_trip(st1, lines.drop_first());
        assert(st1.seen =~= step_seen(st.seen, first));
        let rest = new_records(step_seen(st.seen, first), lines.drop_first());
        if is_new_record(st.seen, first) {
            assert(st1.log == st.log.push(first));
            assert(st.log.push(first) + rest =~= st.log + (seq![first] + rest));
        } else {
            assert(st1.log == st.log);
            assert(new_records(st.seen, lines) == rest);
        }
    }
}

} // verus!
