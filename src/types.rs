//! Identities, statuses, plan records and coordination messages.

use vstd::prelude::*;

verus! {

/// The identity of a participant in a run: the orchestrator and six workers.
#[derive(Debug, Clone, Copy, PartialEq, Eq, Structural, Hash)]
pub enum AgentId {
    Orchestrator,
    Agent1,
    Agent2,
    Agent3,
    Agent4,
    Agent5,
    Agent6,
}

/// Number of distinct identities.
pub const AGENT_COUNT: usize = 7;

/// The position of an identity in the coordinator's status table.
pub open spec fn agent_index(a: AgentId) -> int {
    match a {
        AgentId::Orchestrator => 0,
        AgentId::Agent1 => 1,
        AgentId::Agent2 => 2,
        AgentId::Agent3 => 3,
        AgentId::Agent4 => 4,
        AgentId::Agent5 => 5,
        AgentId::Agent6 => 6,
    }
}

/// The human-readable name of each identity.
pub open spec fn agent_name(a: AgentId) -> Seq<char> {
    match a {
        AgentId::Orchestrator => "orchestrator"@,
        AgentId::Agent1 => "agent1-event-capture"@,
        AgentId::Agent2 => "agent2-storage-apis"@,
        AgentId::Agent3 => "agent3-analysis-pipeline"@,
        AgentId::Agent4 => "agent4-surfaces"@,
        AgentId::Agent5 => "agent5-nix-ci"@,
        AgentId::Agent6 => "agent6-finalization"@,
    }
}

impl AgentId {
    /// Index of this identity in a status table of `AGENT_COUNT` entries.
    pub fn index(&self) -> (r: usize)
        ensures
            r as int == agent_index(*self),
            r < AGENT_COUNT,
    {
        match self {
            AgentId::Orchestrator => 0,
            AgentId::Agent1 => 1,
            AgentId::Agent2 => 2,
            AgentId::Agent3 => 3,
            AgentId::Agent4 => 4,
            AgentId::Agent5 => 5,
            AgentId::Agent6 => 6,
        }
    }

    /// The worker's human-readable name.
    pub fn name(&self) -> (r: &'static str)
        ensures
            r@ == agent_name(*self),
    {
        match self {
            AgentId::Orchestrator => "orchestrator",
            AgentId::Agent1 => "agent1-event-capture",
            AgentId::Agent2 => "agent2-storage-apis",
            AgentId::Agent3 => "agent3-analysis-pipeline",
            AgentId::Agent4 => "agent4-surfaces",
            AgentId::Agent5 => "agent5-nix-ci",
            AgentId::Agent6 => "agent6-finalization",
        }
    }
}

/// A worker's lifecycle state as the coordinator tracks it.
#[derive(Debug, Clone, PartialEq, Eq)]
pub enum AgentStatus {
    Pending,
    Running,
    WaitingForDependency(AgentId),
    Completed,
    Failed(String),
}

impl AgentStatus {
    /// A copy of this status.
    pub fn copied(&self) -> (r: AgentStatus)
        ensures
            r == *self,
    {
        match self {
            AgentStatus::Pending => AgentStatus::Pending,
            AgentStatus::Running => AgentStatus::Running,
            AgentStatus::WaitingForDependency(d) => AgentStatus::WaitingForDependency(*d),
            AgentStatus::Completed => AgentStatus::Completed,
            AgentStatus::Failed(reason) => AgentStatus::Failed(reason.clone()),
        }
    }
}

/// The state of one task of the plan.
#[derive(Debug, Clone, PartialEq, Eq)]
pub enum TaskStatus {
    NotStarted,
    InProgress,
    Completed,
    Blocked(String),
}

/// One task of the plan, identified by its `id`.
#[derive(Debug, Clone)]
pub struct Task {
    pub id: String,
    pub description: String,
    pub owner: AgentId,
    pub dependencies: Vec<AgentId>,
    pub status: TaskStatus,
}

/// One phase of the roadmap; descriptive only.
#[derive(Debug, Clone)]
pub struct RoadmapItem {
    pub phase: String,
    pub description: String,
    pub agents: Vec<AgentId>,
    pub dependencies: Vec<String>,
}

/// A published-interface stub that a worker is expected to provide.
#[derive(Debug, Clone)]
pub struct InterfaceStub {
    pub name: String,
    pub module_location: String,
    pub owner: AgentId,
    pub signature: String,
    pub description: String,
}

/// An ownership boundary: which worker may modify the resource at `path`.
#[derive(Debug, Clone)]
pub struct FileOwnership {
    pub path: String,
    pub owner: AgentId,
    pub description: String,
    pub shared: bool,
}

/// A capability made available by a worker; `timestamp` is in milliseconds
/// since the Unix epoch.
#[derive(Debug, Clone)]
pub struct ApiPublished {
    pub agent: AgentId,
    pub api_name: String,
    pub interface_path: String,
    pub version: String,
    pub timestamp: i64,
}

/// A message that drives one transition of the coordinator.
#[derive(Debug, Clone)]
pub enum CoordinationMessage {
    AgentReady(AgentId),
    ApiPublished(ApiPublished),
    TaskCompleted(AgentId, String),
    CoordinationRequest {
        requester: AgentId,
        target_agent: AgentId,
        target_module: String,
        reason: String,
    },
    CoordinationResponse { request_id: String, approved: bool, reason: Option<String> },
    StatusUpdate(AgentId, AgentStatus),
}

/// The plan built before any worker starts; `created_at` is in milliseconds
/// since the Unix epoch.
#[derive(Debug, Clone)]
pub struct ExecutionPlan {
    pub roadmap: Vec<RoadmapItem>,
    pub tasks: Vec<Task>,
    pub interfaces: Vec<InterfaceStub>,
    pub file_ownership: Vec<FileOwnership>,
    pub created_at: i64,
}

/// The errors of the coordination core.
#[derive(Debug, Clone, PartialEq, Eq)]
pub enum CoordinationError {
    /// Every receiver of the channel is gone.
    ChannelClosed,
    /// `requester` asked to modify `path`, which `owner` owns.
    OwnershipViolation { owner: AgentId, requester: AgentId, path: String },
    /// A completion named a task that the plan does not hold.
    UnknownTask(String),
    /// A worker's initialisation or execution failed.
    WorkerFailure(AgentId, String),
}

impl CoordinationError {
    /// A copy of this error.
    pub fn copied(&self) -> (r: CoordinationError)
        ensures
            r == *self,
    {
        match self {
            CoordinationError::ChannelClosed => CoordinationError::ChannelClosed,
            CoordinationError::OwnershipViolation { owner, requester, path } =>
                CoordinationError::OwnershipViolation {
                    owner: *owner,
                    requester: *requester,
                    path: path.clone(),
                },
            CoordinationError::UnknownTask(id) => CoordinationError::UnknownTask(id.clone()),
            CoordinationError::WorkerFailure(a, reason) => CoordinationError::WorkerFailure(*a, reason.clone()),
        }
    }
}

/// Character-wise equality of two string slices.
pub fn str_eq(a: &str, b: &str) -> (r: bool)
    ensures
        r == (a@ == b@),
{
    let n = a.unicode_len();
    let m = b.unicode_len();
    if n != m {
        return false;
    }
    let mut i: usize = 0;
    while i < n
        invariant
            n as nat == a@.len(),
            m as nat == b@.len(),
            n == m,
            i <= n,
            forall|k: int| 0 <= k < i ==> a@[k] == b@[k],
        decreases n - i,
    {
        if a.get_char(i) != b.get_char(i) {
            return false;
        }
        i = i + 1;
    }
    assert(a@ =~= b@);
    true
}

} // verus!
