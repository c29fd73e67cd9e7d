//! The common shape of every worker: initialise with a channel handle,
//! announce readiness, do the work, hand over what it produced.

use vstd::prelude::*;
use crate::clock::now_millis;
use crate::coordination::CoordinationHandle;
use crate::machine::gate_task;
use crate::types::{AgentId, AgentStatus, ApiPublished, CoordinationError, CoordinationMessage};

verus! {

/// The workers that keep running after their phase and are not required to
/// complete for the run to succeed.
pub open spec fn is_continuous(a: AgentId) -> bool {
    a == AgentId::Agent5 || a == AgentId::Agent6
}

/// `r` is what `agent` announces when its work is done at time `now`: the
/// storage worker publishes its capability, the analysis worker completes the
/// task that gates the surfaces worker, the others announce nothing.
pub open spec fn is_work_product(agent: AgentId, now: i64, r: Option<CoordinationMessage>) -> bool {
    match agent {
        AgentId::Agent2 => match r {
            Some(CoordinationMessage::ApiPublished(api)) => {
                &&& api.agent == AgentId::Agent2
                &&& api.api_name@ == "StorageApi"@
                &&& api.interface_path@ == "src-tauri/src/memory/api.rs"@
                &&& api.version@ == "1.0.0"@
                &&& api.timestamp == now
            },
            _ => false,
        },
        AgentId::Agent3 => match r {
            Some(CoordinationMessage::TaskCompleted(w, id)) => w == AgentId::Agent3 && id@ == gate_task(),
            _ => false,
        },
        _ => r is None,
    }
}

/// The announcement `agent` makes when its work is done at time `now`.
pub fn work_product(agent: AgentId, now: i64) -> (r: Option<CoordinationMessage>)
    ensures
        is_work_product(agent, now, r),
{
    match agent {
        AgentId::Agent2 => Some(
            CoordinationMessage::ApiPublished(
                ApiPublished {
                    agent: AgentId::Agent2,
                    api_name: "StorageApi".to_string(),
                    interface_path: "src-tauri/src/memory/api.rs".to_string(),
                    version: "1.0.0".to_string(),
                    timestamp: now,
                },
            ),
        ),
        AgentId::Agent3 => Some(CoordinationMessage::TaskCompleted(AgentId::Agent3, "agent3-2".to_string())),
        _ => None,
    }
}

/// One worker as the runner sees it. Its status is its own telemetry; the
/// coordinator's status table is authoritative.
pub struct Worker {
    id: AgentId,
    status: AgentStatus,
    coordination: Option<CoordinationHandle>,
}

impl Worker {
    pub closed spec fn id_spec(&self) -> AgentId {
        self.id
    }

    pub closed spec fn status_spec(&self) -> AgentStatus {
        self.status
    }

    pub closed spec fn initialized(&self) -> bool {
        self.coordination is Some
    }

    /// A pending worker with identity `id`, not yet given a channel handle.
    pub fn new(id: AgentId) -> (r: Self)
        ensures
            r.id_spec() == id,
            r.status_spec() == AgentStatus::Pending,
            !r.initialized(),
    {
        Worker { id, status: AgentStatus::Pending, coordination: None }
    }

    pub fn id(&self) -> (r: AgentId)
        ensures
            r == self.id_spec(),
    {
        self.id
    }

    pub fn name(&self) -> (r: &'static str)
        ensures
            r@ == crate::types::agent_name(self.id_spec()),
    {
        self.id.name()
    }

    pub fn status(&self) -> (r: AgentStatus)
        ensures
            r == self.status_spec(),
    {
        self.status.copied()
    }

    /// Whether the worker's own status lets it start: pending or running.
    pub fn can_start(&self) -> (r: bool)
        ensures
            r == (self.status_spec() == AgentStatus::Pending || self.status_spec()
                == AgentStatus::Running),
    {
        match self.status {
            AgentStatus::Pending => true,
            AgentStatus::Running => true,
            _ => false,
        }
    }

    /// Hands the worker its channel handle; it is then running.
    pub fn initialize(&mut self, coordination: CoordinationHandle)
        ensures
            final(self).id_spec() == old(self).id_spec(),
            final(self).status_spec() == AgentStatus::Running,
            final(self).initialized(),
    {
        self.coordination = Some(coordination);
        self.status = AgentStatus::Running;
    }

    /// Announces readiness to the coordinator. A worker without a handle has
    /// no one to tell and succeeds.
    pub fn signal_ready(&self) -> (r: Result<(), CoordinationError>)
        ensures
            !self.initialized() ==> r is Ok,
            r is Err ==> r == Err::<(), CoordinationError>(CoordinationError::ChannelClosed),
    {
        match &self.coordination {
            Some(handle) => handle.agent_ready(self.id),
            None => Ok(()),
        }
    }

    /// Hands over the work product, if any, and marks the worker completed,
    /// unless it is continuous, in which case it keeps running. If the
    /// announcement cannot be sent the status is left as it was.
    pub fn complete_work(&mut self) -> (r: Result<(), CoordinationError>)
        ensures
            final(self).id_spec() == old(self).id_spec(),
            final(self).initialized() == old(self).initialized(),
            r is Err ==> r == Err::<(), CoordinationError>(CoordinationError::ChannelClosed)
                && final(self).status_spec() == old(self).status_spec(),
            !old(self).initialized() ==> r is Ok,
            !(old(self).id_spec() == AgentId::Agent2 || old(self).id_spec() == AgentId::Agent3)
                ==> r is Ok,
            r is Ok ==> final(self).status_spec() == (if is_continuous(old(self).id_spec()) {
                old(self).status_spec()
            } else {
                AgentStatus::Completed
            }),
    {
        if let Some(handle) = &self.coordination {
            if let Some(message) = work_product(self.id, now_millis()) {
                handle.send(message)?;
            }
        }
        match self.id {
            AgentId::Agent5 => {},
            AgentId::Agent6 => {},
            _ => {
                self.status = AgentStatus::Completed;
            },
        }
        Ok(())
    }

    /// Ends a continuous worker's run: it is then completed.
    pub fn finalize(&mut self)
        ensures
            final(self).id_spec() == old(self).id_spec(),
            final(self).initialized() == old(self).initialized(),
            final(self).status_spec() == AgentStatus::Completed,
    {
        self.status = AgentStatus::Completed;
    }
}

} // verus!
