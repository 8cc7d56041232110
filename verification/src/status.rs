//! Shared status: the counters and the termination flag that every
//! subsystem reads and updates. All operations are compound and atomic with
//! respect to the whole value; callers serialise access with one lock around
//! each call.

use vstd::prelude::*;

verus! {

/// Largest number of concurrently connected clients the listener admits.
pub const ADMISSION_CAP: usize = 5;

/// Ghost image of the shared status.
pub struct StatusView {
    /// Count of all unique records ever seen; never decreases.
    pub total_unique: nat,
    /// Duplicates seen since the last report.
    pub period_duplicates: nat,
    /// All records, unique and duplicate, seen since the last report.
    pub period_received: nat,
    /// Currently connected clients.
    pub client_count: nat,
    /// Once true, the system is shutting down; never reverts.
    pub terminating: bool,
}

/// The counter invariant: duplicates of a period never outnumber the
/// records received in it.
pub open spec fn sv_wf(v: StatusView) -> bool {
    v.period_duplicates <= v.period_received
}

pub open spec fn sv_zero() -> StatusView {
    StatusView {
        total_unique: 0,
        period_duplicates: 0,
        period_received: 0,
        client_count: 0,
        terminating: false,
    }
}

/// Effect of recording one newly-unique record.
pub open spec fn sv_add_unique(v: StatusView) -> StatusView {
    StatusView { total_unique: v.total_unique + 1, period_received: v.period_received + 1, ..v }
}

/// Effect of recording one duplicate record.
pub open spec fn sv_add_duplicate(v: StatusView) -> StatusView {
    StatusView {
        period_duplicates: v.period_duplicates + 1,
        period_received: v.period_received + 1,
        ..v
    }
}

/// Effect of resetting the per-period counters after a report.
pub open spec fn sv_reset_period(v: StatusView) -> StatusView {
    StatusView { period_duplicates: 0, period_received: 0, ..v }
}

/// Effect of admitting one client.
pub open spec fn sv_client_connected(v: StatusView) -> StatusView {
    StatusView { client_count: v.client_count + 1, ..v }
}

/// Effect of one client leaving; the count never goes below zero.
pub open spec fn sv_client_disconnected(v: StatusView) -> StatusView {
    StatusView {
        client_count: if v.client_count > 0 {
            (v.client_count - 1) as nat
        } else {
            0
        },
        ..v
    }
}

/// Effect of requesting shutdown; idempotent.
pub open spec fn sv_terminated(v: StatusView) -> StatusView {
    StatusView { terminating: true, ..v }
}

/// The shared counters and termination flag.
pub struct AppStatus {
    total_unique: usize,
    period_duplicates: usize,
    period_received: usize,
    client_count: usize,
    terminating: bool,
}

impl View for AppStatus {
    type V = StatusView;

    closed spec fn view(&self) -> StatusView {
        StatusView {
            total_unique: self.total_unique as nat,
            period_duplicates: self.period_duplicates as nat,
            period_received: self.period_received as nat,
            client_count: self.client_count as nat,
            terminating: self.terminating,
        }
    }
}

/// One report's worth of counters, taken and reset in a single step.
#[derive(Clone, Copy, Debug, PartialEq, Eq, Structural)]
pub struct StatusSnapshot {
    pub period_received: usize,
    pub period_duplicates: usize,
    pub total_unique: usize,
    pub client_count: usize,
}

impl AppStatus {
    /// A fresh status: all counters zero, not terminating.
    pub fn new() -> (s: Self)
        ensures
            s@ == sv_zero(),
    {
        AppStatus {
            total_unique: 0,
            period_duplicates: 0,
            period_received: 0,
            client_count: 0,
            terminating: false,
        }
    }

    /// Record one newly-unique record: lifetime total and period received
    /// each rise by one.
    pub fn add_unique(&mut self)
        requires
            old(self)@.total_unique < usize::MAX,
            old(self)@.period_received < usize::MAX,
        ensures
            final(self)@ == sv_add_unique(old(self)@),
    {
        self.total_unique = self.total_unique + 1;
        self.period_received = self.period_received + 1;
    }

    /// Record one duplicate record: period duplicates and period received
    /// each rise by one.
    pub fn add_duplicate(&mut self)
        requires
            old(self)@.period_duplicates < usize::MAX,
            old(self)@.period_received < usize::MAX,
        ensures
            final(self)@ == sv_add_duplicate(old(self)@),
    {
        self.period_duplicates = self.period_duplicates + 1;
        self.period_received = self.period_received + 1;
    }

    /// Reset the per-period counters, leaving the rest untouched.
    pub fn cero_(&mut self)
        ensures
            final(self)@ == sv_reset_period(old(self)@),
    {
        self.period_duplicates = 0;
        self.period_received = 0;
    }

    /// Count one more connected client.
    pub fn client_connected(&mut self)
        requires
            old(self)@.client_count < usize::MAX,
        ensures
            final(self)@ == sv_client_connected(old(self)@),
    {
        self.client_count = self.client_count + 1;
    }

    /// Count one client gone; the count never drops below zero.
    pub fn client_disconnected(&mut self)
        ensures
            final(self)@ == sv_client_disconnected(old(self)@),
    {
        if self.client_count > 0 {
            self.client_count = self.client_count - 1;
        }
    }

    /// Admission control, as one atomic step: admit and count the client
    /// exactly when the cap leaves room, else change nothing.
    pub fn try_admit(&mut self) -> (admitted: bool)
        ensures
            admitted == (old(self)@.client_count < ADMISSION_CAP),
            admitted ==> final(self)@ == sv_client_connected(old(self)@),
            !admitted ==> final(self)@ == old(self)@,
    {
        if self.client_count < ADMISSION_CAP {
            self.client_count = self.client_count + 1;
            true
        } else {
            false
        }
    }

    /// Request shutdown; idempotent, and never reverts.
    pub fn request_terminate(&mut self)
        ensures
            final(self)@ == sv_terminated(old(self)@),
    {
        self.terminating = true;
    }

    /// Whether every counter still has room to rise: callers outside the
    /// verifier test this before a counting step instead of reading the
    /// private counters.
    pub fn counters_have_room(&self) -> (r: bool)
        ensures
            r == (self@.total_unique < usize::MAX && self@.period_received < usize::MAX
                && self@.period_duplicates < usize::MAX),
    {
        self.total_unique < usize::MAX && self.period_received < usize::MAX
            && self.period_duplicates < usize::MAX
    }

    /// Point-in-time read of the termination flag.
    pub fn is_terminating(&self) -> (r: bool)
        ensures
            r == self@.terminating,
    {
        self.terminating
    }

    /// The reporter's step: return the current counters and reset the
    /// per-period ones, atomically with respect to other operations.
    pub fn snapshot_and_reset(&mut self) -> (snap: StatusSnapshot)
        ensures
            snap.period_received == old(self)@.period_received,
            snap.period_duplicates == old(self)@.period_duplicates,
            snap.total_unique == old(self)@.total_unique,
            snap.client_count == old(self)@.client_count,
            final(self)@ == sv_reset_period(old(self)@),
    {
        let snap = StatusSnapshot {
            period_received: self.period_received,
            period_duplicates: self.period_duplicates,
            total_unique: self.total_unique,
            client_count: self.client_count,
        };
        self.period_duplicates = 0;
        self.period_received = 0;
        snap
    }
}

} // verus!
