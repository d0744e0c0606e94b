//! The acquisition loop, as a two-state machine driven by a fixed tick.
//!
//! The loop is idle between ticks. On each tick it acquires one measurement
//! through the retry policy; if even the retried measurement fails, the
//! cycle is skipped and the loop returns to idle. A measurement is handed
//! to storage; a storage failure is logged and the record dropped, without
//! stopping the loop. The harness performs the waiting, the measuring and
//! the storing, and reports each outcome as an event.

use vstd::prelude::*;

use crate::measurement::Measurement;

verus! {

/// The two states of the acquisition loop.
#[derive(Clone, Copy, Debug, PartialEq, Eq, Structural)]
pub enum LoopState {
    /// Waiting for the next tick.
    Idle,
    /// Mid read-and-store.
    Acquiring,
}

/// What the harness reports to the loop.
#[derive(Clone, Copy, Debug)]
pub enum LoopEvent {
    /// The fixed interval elapsed.
    Tick,
    /// The retried measurement produced a record.
    Measured { measurement: Measurement },
    /// The measurement failed even after the retry budget.
    MeasureFailed,
    /// Storage accepted the record.
    Inserted { measurement: Measurement },
    /// Storage rejected the record.
    InsertFailed,
}

/// What the loop asks the harness to do.
#[derive(Clone, Copy, Debug)]
pub enum LoopAction {
    /// Acquire one measurement through the retry policy.
    StartMeasurement,
    /// Hand the record to storage.
    Insert { measurement: Measurement },
    /// Log the accepted record at informational level.
    AnnounceStored { measurement: Measurement },
    /// Log the failure and skip this cycle; no record is produced.
    SkipCycle,
    /// Log the storage failure and discard the record; the loop goes on.
    DropRecord,
    /// Nothing to do until the next event.
    Wait,
}

/// Which events a state accepts.
pub open spec fn spec_event_allowed(s: LoopState, e: LoopEvent) -> bool {
    match (s, e) {
        (LoopState::Idle, LoopEvent::Tick) => true,
        (LoopState::Acquiring, LoopEvent::Measured { .. }) => true,
        (LoopState::Acquiring, LoopEvent::MeasureFailed) => true,
        (LoopState::Acquiring, LoopEvent::Inserted { .. }) => true,
        (LoopState::Acquiring, LoopEvent::InsertFailed) => true,
        _ => false,
    }
}

/// The loop's transition: next state and what the harness must do.
pub open spec fn spec_loop_step(s: LoopState, e: LoopEvent) -> (LoopState, LoopAction)
    recommends
        spec_event_allowed(s, e),
{
    match (s, e) {
        (LoopState::Idle, LoopEvent::Tick) => (
            LoopState::Acquiring,
            LoopAction::StartMeasurement,
        ),
        (LoopState::Acquiring, LoopEvent::Measured { measurement }) => (
            LoopState::Acquiring,
            LoopAction::Insert { measurement },
        ),
        (LoopState::Acquiring, LoopEvent::MeasureFailed) => (LoopState::Idle, LoopAction::SkipCycle),
        (LoopState::Acquiring, LoopEvent::Inserted { measurement }) => (
            LoopState::Idle,
            LoopAction::AnnounceStored { measurement },
        ),
        (LoopState::Acquiring, LoopEvent::InsertFailed) => (LoopState::Idle, LoopAction::DropRecord),
        _ => (s, LoopAction::Wait),
    }
}

impl LoopState {
    /// The loop starts idle, waiting for the first tick.
    pub fn begin() -> (s: Self)
        ensures
            s == LoopState::Idle,
    {
        LoopState::Idle
    }

    /// Advances the loop on one event.
    pub fn on_event(self, e: LoopEvent) -> (r: (Self, LoopAction))
        requires
            spec_event_allowed(self, e),
        ensures
            r == spec_loop_step(self, e),
    {
        match (self, e) {
            (LoopState::Idle, LoopEvent::Tick) => (
                LoopState::Acquiring,
                LoopAction::StartMeasurement,
            ),
            (LoopState::Acquiring, LoopEvent::Measured { measurement }) => (
                LoopState::Acquiring,
                LoopAction::Insert { measurement },
            ),
            (LoopState::Acquiring, LoopEvent::MeasureFailed) => (
                LoopState::Idle,
                LoopAction::SkipCycle,
            ),
            (LoopState::Acquiring, LoopEvent::Inserted { measurement }) => (
                LoopState::Idle,
                LoopAction::AnnounceStored { measurement },
            ),
            (LoopState::Acquiring, LoopEvent::InsertFailed) => (
                LoopState::Idle,
                LoopAction::DropRecord,
            ),
            (s, _) => (s, LoopAction::Wait),
        }
    }
}

/// Cycle isolation: every cycle outcome—a skipped measurement, a storage
/// failure, or a stored record—returns the loop to the idle state, and a
/// tick in the idle state always starts a measurement. So the outcome of
/// cycle `k` leaves no trace that could change cycle `k + 1`, and a storage
/// failure neither stops the loop nor blocks later cycles.
pub proof fn lemma_cycle_isolation(m: Measurement)
    ensures
        spec_loop_step(LoopState::Acquiring, LoopEvent::MeasureFailed).0 == LoopState::Idle,
        spec_loop_step(LoopState::Acquiring, LoopEvent::InsertFailed).0 == LoopState::Idle,
        spec_loop_step(LoopState::Acquiring, LoopEvent::Inserted { measurement: m }).0
            == LoopState::Idle,
        spec_loop_step(LoopState::Idle, LoopEvent::Tick) == (
            LoopState::Acquiring,
            LoopAction::StartMeasurement,
        ),
{
}

} // verus!
