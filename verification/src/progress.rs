//! Lifecycle model of the concurrently running progress reporter.
//!
//! The reporter tracks exactly one operation. Its worker is started before
//! the blocking download call and is always terminated strictly after that
//! call returns or errors: `join` drains remaining events after a completed
//! operation, `force_join` stops the display at once after an unrecoverable
//! error, when no further events will arrive. The contracts make any other
//! ordering unverifiable. In test mode the reporter renders nothing; its
//! presence is never required for correctness, only for user feedback.

use vstd::prelude::*;

verus! {

/// Where the reporter stands in its lifecycle.
pub enum ReporterState {
    /// Constructed, not yet tracking the operation.
    Idle,
    /// The display worker consumes progress events.
    Running,
    /// Terminated after draining remaining events.
    Joined,
    /// Terminated at once, without waiting for further events.
    ForceJoined,
}

/// The progress-display driver for one tracked operation.
pub struct ProgressReporter {
    pub state: ReporterState,
    pub test_mode: bool,
}

impl ProgressReporter {
    /// The reporter has terminated, one way or the other.
    pub open spec fn finished(self) -> bool {
        self.state == ReporterState::Joined || self.state == ReporterState::ForceJoined
    }

    /// Creates a reporter for one operation; in test mode it will render
    /// nothing.
    pub fn new(test_mode: bool) -> (r: ProgressReporter)
        ensures
            r.state == ReporterState::Idle,
            r.test_mode == test_mode,
    {
        ProgressReporter { state: ReporterState::Idle, test_mode }
    }

    /// Starts tracking the operation.
    pub fn start(&mut self)
        requires
            old(self).state == ReporterState::Idle,
        ensures
            final(self).state == ReporterState::Running,
            final(self).test_mode == old(self).test_mode,
    {
        self.state = ReporterState::Running;
    }

    /// Waits for the display to drain remaining events and exit; invoked
    /// only after the tracked operation completed.
    pub fn join(&mut self)
        requires
            old(self).state == ReporterState::Running,
        ensures
            final(self).state == ReporterState::Joined,
            final(self).test_mode == old(self).test_mode,
    {
        self.state = ReporterState::Joined;
    }

    /// Terminates the display immediately; invoked only after the tracked
    /// operation raised an unrecoverable error, since no more events arrive.
    pub fn force_join(&mut self)
        requires
            old(self).state == ReporterState::Running,
        ensures
            final(self).state == ReporterState::ForceJoined,
            final(self).test_mode == old(self).test_mode,
    {
        self.state = ReporterState::ForceJoined;
    }
}

} // verus!
