//! The run's phase schedule as a state machine: the runner asks for the next
//! action, performs it (launching and joining workers, draining the
//! coordinator, finalizing) and reports how it went.

use vstd::prelude::*;
use crate::types::{AgentId, CoordinationError};

verus! {

/// One thing the runner has to do next.
#[derive(Debug)]
pub enum RunAction {
    /// Initialise and execute these workers concurrently; join all of them
    /// before going on.
    Launch(Vec<AgentId>),
    /// Drain the coordinator's queued messages.
    Drain,
    /// Finalize this continuous worker.
    Finalize(AgentId),
    /// The run is over, with this outcome.
    Finish(Result<(), CoordinationError>),
}

/// The number of actions before the run is over.
pub const SCHEDULE_LEN: usize = 7;

/// The schedule: the two independent workers together, a drain, the
/// analysis worker, a drain, the surfaces worker, the two continuous workers
/// together, and the finalization of the finalizing worker.
pub open spec fn scheduled_launch(i: int) -> Option<Seq<AgentId>> {
    if i == 0 {
        Some(seq![AgentId::Agent1, AgentId::Agent2])
    } else if i == 2 {
        Some(seq![AgentId::Agent3])
    } else if i == 4 {
        Some(seq![AgentId::Agent4])
    } else if i == 5 {
        Some(seq![AgentId::Agent5, AgentId::Agent6])
    } else {
        None
    }
}

/// `r` is the action at position `i` of the schedule, once no failure is
/// recorded.
pub open spec fn is_scheduled_action(i: int, r: RunAction) -> bool {
    match scheduled_launch(i) {
        Some(ws) => r matches RunAction::Launch(v) && v@ =~= ws,
        None => if i == 1 || i == 3 {
            r matches RunAction::Drain
        } else if i == 6 {
            r == RunAction::Finalize(AgentId::Agent6)
        } else {
            r matches RunAction::Finish(Ok(()))
        },
    }
}

/// Where the run stands: the position in the schedule and the first failure
/// reported, which ends the run.
pub struct RunSchedule {
    position: usize,
    failure: Option<CoordinationError>,
}

impl RunSchedule {
    pub closed spec fn position_spec(&self) -> int {
        self.position as int
    }

    pub closed spec fn failure_spec(&self) -> Option<CoordinationError> {
        self.failure
    }

    pub closed spec fn wf(&self) -> bool {
        self.position <= SCHEDULE_LEN
    }

    /// A run at its first action.
    pub fn new() -> (r: Self)
        ensures
            r.wf(),
            r.position_spec() == 0,
            r.failure_spec() is None,
    {
        RunSchedule { position: 0, failure: None }
    }

    /// What to do now: after a failure, finish with it; else the scheduled
    /// action.
    pub fn next_action(&self) -> (r: RunAction)
        requires
            self.wf(),
        ensures
            match self.failure_spec() {
                Some(e) => r == RunAction::Finish(Err(e)),
                None => is_scheduled_action(self.position_spec(), r),
            },
    {
        match &self.failure {
            Some(e) => RunAction::Finish(Err(e.copied())),
            None => {
                if self.position == 0 {
                    RunAction::Launch(vec![AgentId::Agent1, AgentId::Agent2])
                } else if self.position == 1 || self.position == 3 {
                    RunAction::Drain
                } else if self.position == 2 {
                    RunAction::Launch(vec![AgentId::Agent3])
                } else if self.position == 4 {
                    RunAction::Launch(vec![AgentId::Agent4])
                } else if self.position == 5 {
                    RunAction::Launch(vec![AgentId::Agent5, AgentId::Agent6])
                } else if self.position == 6 {
                    RunAction::Finalize(AgentId::Agent6)
                } else {
                    RunAction::Finish(Ok(()))
                }
            },
        }
    }

    /// Records how the last action went: a failure ends the run, a success
    /// moves to the next action. Once the run has failed nothing changes.
    pub fn record(&mut self, outcome: Result<(), CoordinationError>)
        requires
            old(self).wf(),
        ensures
            final(self).wf(),
            old(self).failure_spec() is Some ==> *final(self) == *old(self),
            old(self).failure_spec() is None ==> match outcome {
                Ok(()) => final(self).failure_spec() is None && final(self).position_spec() == (
                if old(self).position_spec() < SCHEDULE_LEN {
                    old(self).position_spec() + 1
                } else {
                    old(self).position_spec()
                }),
                Err(e) => final(self).failure_spec() == Some(e) && final(self).position_spec()
                    == old(self).position_spec(),
            },
    {
        if self.failure.is_some() {
            return;
        }
        match outcome {
            Ok(()) => {
                if self.position < SCHEDULE_LEN {
                    self.position = self.position + 1;
                }
            },
            Err(e) => {
                self.failure = Some(e);
            },
        }
    }

    /// Whether the run is over.
    pub fn is_finished(&self) -> (r: bool)
        ensures
            r == (self.failure_spec() is Some || self.position_spec() >= SCHEDULE_LEN),
    {
        self.failure.is_some() || self.position >= SCHEDULE_LEN
    }
}

} // verus!
