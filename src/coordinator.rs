//! The execution coordinator: owns the plan, both registries and the status
//! table, drains the coordination channel and applies each message.

use vstd::prelude::*;
use crate::coordination::{ApiRegistry, CoordinationChannel, CoordinationHandle};
use crate::machine::{
    after, state_wf, task_done, blocking_dependency, can_start, complete_task, first_task, gate_task, has_task,
    initial_status, owners_from, release_waiting, run, status_of, step, CoordState,
};
use crate::ownership::OwnershipManager;
use crate::types::{
    str_eq, AgentId, AgentStatus, ApiPublished, CoordinationError,
    CoordinationMessage, ExecutionPlan, FileOwnership, Task, TaskStatus, AGENT_COUNT,
};

verus! {

/// The parts of a plan that the coordinator never changes are equal.
pub open spec fn same_plan_except_tasks(a: ExecutionPlan, b: ExecutionPlan) -> bool {
    &&& a.roadmap@ == b.roadmap@
    &&& a.interfaces@ == b.interfaces@
    &&& a.file_ownership@ == b.file_ownership@
    &&& a.created_at == b.created_at
}

/// A field-by-field copy of an ownership record.
fn copy_ownership(o: &FileOwnership) -> (r: FileOwnership)
    ensures
        r == *o,
{
    FileOwnership {
        path: o.path.clone(),
        owner: o.owner,
        description: o.description.clone(),
        shared: o.shared,
    }
}

/// Whether a status is `WaitingForDependency(d)`.
fn is_waiting_on(st: &AgentStatus, d: AgentId) -> (r: bool)
    ensures
        r == (*st == AgentStatus::WaitingForDependency(d)),
{
    match st {
        AgentStatus::WaitingForDependency(x) => *x == d,
        _ => false,
    }
}

/// Turns every status `WaitingForDependency(d)` into `Pending`.
fn release_waiting_on(status: &mut Vec<AgentStatus>, d: AgentId)
    ensures
        final(status)@ == release_waiting(old(status)@, d),
{
    let ghost s0 = status@;
    let mut i: usize = 0;
    while i < status.len()
        invariant
            status@.len() == s0.len(),
            i <= s0.len(),
            forall|k: int| 0 <= k < i ==> status@[k] == release_waiting(s0, d)[k],
            forall|k: int| i <= k < s0.len() ==> status@[k] == s0[k],
        decreases s0.len() - i,
    {
        if is_waiting_on(&status[i], d) {
            status.set(i, AgentStatus::Pending);
        }
        i = i + 1;
    }
    assert(status@ =~= release_waiting(s0, d));
}

/// The first position of a task with this id, if any.
fn find_task(tasks: &Vec<Task>, id: &String) -> (r: Option<usize>)
    ensures
        match r {
            Some(i) => first_task(tasks@, id@, i as int),
            None => !has_task(tasks@, id@),
        },
{
    let mut i: usize = 0;
    while i < tasks.len()
        invariant
            i <= tasks@.len(),
            forall|j: int| 0 <= j < i ==> (#[trigger] tasks@[j]).id@ != id@,
        decreases tasks@.len() - i,
    {
        if tasks[i].id == *id {
            return Some(i);
        }
        i = i + 1;
    }
    None
}

/// Whether the task that gates the surfaces worker is completed.
fn gate_task_done(tasks: &Vec<Task>) -> (r: bool)
    ensures
        r == task_done(tasks@, gate_task()),
{
    let mut i: usize = 0;
    while i < tasks.len()
        invariant
            i <= tasks@.len(),
            forall|j: int|
                0 <= j < i ==> !((#[trigger] tasks@[j]).id@ == gate_task() && tasks@[j].status
                    == TaskStatus::Completed),
        decreases tasks@.len() - i,
    {
        let t = &tasks[i];
        if str_eq(t.id.as_str(), "agent3-2") {
            match t.status {
                TaskStatus::Completed => {
                    assert(tasks@[i as int].status == TaskStatus::Completed);
                    return true;
                },
                _ => {},
            }
        }
        i = i + 1;
    }
    false
}

/// Coordinates the workers of a run.
pub struct ExecutionCoordinator {
    plan: ExecutionPlan,
    ownership: OwnershipManager,
    api_registry: ApiRegistry,
    agent_status: Vec<AgentStatus>,
    coordination: CoordinationChannel,
}

impl ExecutionCoordinator {
    /// The coordinator's state as values.
    pub closed spec fn model(&self) -> CoordState {
        CoordState {
            tasks: self.plan.tasks@,
            owners: self.ownership@,
            apis: self.api_registry@,
            status: self.agent_status@,
        }
    }

    /// The plan as it stands, task statuses included.
    pub closed spec fn plan_value(&self) -> ExecutionPlan {
        self.plan
    }

    pub closed spec fn wf(&self) -> bool {
        &&& self.agent_status@.len() == AGENT_COUNT
        &&& self.ownership.wf()
        &&& self.api_registry.wf()
    }

    /// A well-formed coordinator has one status per identity.
    pub proof fn lemma_wf_state(&self)
        requires
            self.wf(),
        ensures
            state_wf(self.model()),
    {
    }

    /// A coordinator for `plan`, with every ownership record of the plan
    /// registered in order, no capability published, the orchestrator
    /// running, the two gated workers waiting on their dependency and the
    /// others pending; with a handle for the workers.
    pub fn new(plan: ExecutionPlan) -> (r: (Self, CoordinationHandle))
        ensures
            r.0.wf(),
            state_wf(r.0.model()),
            r.0.plan_value() == plan,
            r.0.model() == (CoordState {
                tasks: plan.tasks@,
                owners: owners_from(plan.file_ownership@),
                apis: Map::empty(),
                status: initial_status(),
            }),
    {
        let (coordination, handle) = CoordinationChannel::new();
        let mut ownership = OwnershipManager::new();
        let mut i: usize = 0;
        while i < plan.file_ownership.len()
            invariant
                i <= plan.file_ownership@.len(),
                ownership.wf(),
                ownership@ == owners_from(plan.file_ownership@.subrange(0, i as int)),
            decreases plan.file_ownership@.len() - i,
        {
            let ghost before = plan.file_ownership@.subrange(0, i as int);
            let ghost upto = plan.file_ownership@.subrange(0, i as int + 1);
            assert(upto.drop_last() =~= before);
            ownership.register(copy_ownership(&plan.file_ownership[i]));
            i = i + 1;
        }
        assert(plan.file_ownership@.subrange(0, plan.file_ownership@.len() as int)
            =~= plan.file_ownership@);
        let agent_status = vec![
            AgentStatus::Running,
            AgentStatus::Pending,
            AgentStatus::Pending,
            AgentStatus::WaitingForDependency(AgentId::Agent2),
            AgentStatus::WaitingForDependency(AgentId::Agent3),
            AgentStatus::Pending,
            AgentStatus::Pending,
        ];
        assert(agent_status@ =~= initial_status());
        let coordinator = ExecutionCoordinator {
            plan,
            ownership,
            api_registry: ApiRegistry::new(),
            agent_status,
            coordination,
        };
        (coordinator, handle)
    }

    /// Another handle on the coordinator's channel.
    pub fn handle(&self) -> (r: CoordinationHandle) {
        self.coordination.handle()
    }

    /// The readiness predicate for `agent`, evaluated now.
    fn can_agent_start(&self, agent: AgentId) -> (r: bool)
        requires
            self.wf(),
        ensures
            r == can_start(self.model(), agent),
    {
        match agent {
            AgentId::Orchestrator => true,
            AgentId::Agent3 => self.api_registry.get_agent_apis(AgentId::Agent2).len() > 0,
            AgentId::Agent4 => gate_task_done(&self.plan.tasks),
            _ => {
                match self.agent_status[0] {
                    AgentStatus::Running => true,
                    AgentStatus::Completed => true,
                    _ => false,
                }
            },
        }
    }

    /// The worker `agent` is considered blocked on.
    fn get_blocking_dependency(&self, agent: AgentId) -> (r: AgentId)
        ensures
            r == blocking_dependency(agent),
    {
        match agent {
            AgentId::Agent3 => AgentId::Agent2,
            AgentId::Agent4 => AgentId::Agent3,
            _ => AgentId::Orchestrator,
        }
    }

    fn handle_agent_ready(&mut self, agent: AgentId)
        requires
            old(self).wf(),
        ensures
            final(self).wf(),
            final(self).plan_value() == old(self).plan_value(),
            final(self).model() == after(old(self).model(), CoordinationMessage::AgentReady(agent)),
    {
        let status = if self.can_agent_start(agent) {
            AgentStatus::Running
        } else {
            AgentStatus::WaitingForDependency(self.get_blocking_dependency(agent))
        };
        self.agent_status.set(agent.index(), status);
    }

    fn handle_api_published(&mut self, api: ApiPublished)
        requires
            old(self).wf(),
        ensures
            final(self).wf(),
            final(self).plan_value() == old(self).plan_value(),
            final(self).model() == after(old(self).model(), CoordinationMessage::ApiPublished(api)),
    {
        let publisher = api.agent;
        self.api_registry.register(api);
        release_waiting_on(&mut self.agent_status, publisher);
    }

    fn handle_task_completed(&mut self, agent: AgentId, task_id: String) -> (r: Result<
        (),
        CoordinationError,
    >)
        requires
            old(self).wf(),
        ensures
            final(self).wf(),
            state_wf(final(self).model()),
            same_plan_except_tasks(final(self).plan_value(), old(self).plan_value()),
            match step(old(self).model(), CoordinationMessage::TaskCompleted(agent, task_id)) {
                Ok(t) => r is Ok && final(self).model() == t,
                Err(e) => r == Err::<(), CoordinationError>(e) && final(self).model() == old(
                    self,
                ).model(),
            },
    {
        let ghost s0 = self.model();
        match find_task(&self.plan.tasks, &task_id) {
            None => Err(CoordinationError::UnknownTask(task_id)),
            Some(i) => {
                proof {
                    let j = choose|j: int| first_task(s0.tasks, task_id@, j);
                    if j != i as int {
                        if j < i as int {
                            assert(s0.tasks[j].id@ == task_id@);
                        } else {
                            assert(s0.tasks[i as int].id@ == task_id@);
                        }
                    }
                }
                self.plan.tasks[i].status = TaskStatus::Completed;
                assert(self.plan.tasks@ =~= complete_task(s0.tasks, task_id@));
                if str_eq(task_id.as_str(), "agent3-2")
                    && is_waiting_on(&self.agent_status[4], agent) {
                    self.agent_status.set(4, AgentStatus::Pending);
                }
                Ok(())
            },
        }
    }

    fn handle_coordination_request(
        &mut self,
        requester: AgentId,
        target_agent: AgentId,
        target_module: String,
        reason: String,
    ) -> (r: Result<(), CoordinationError>)
        requires
            old(self).wf(),
        ensures
            *final(self) == *old(self),
            r == match step(
                old(self).model(),
                CoordinationMessage::CoordinationRequest {
                    requester,
                    target_agent,
                    target_module,
                    reason,
                },
            ) {
                Ok(_) => Ok::<(), CoordinationError>(()),
                Err(e) => Err(e),
            },
    {
        match self.ownership.get_owner(target_module.as_str()) {
            Some(owner) => {
                if owner == requester {
                    return Ok(());
                }
                if !self.ownership.can_modify(requester, target_module.as_str()) {
                    return Err(
                        CoordinationError::OwnershipViolation {
                            owner,
                            requester,
                            path: target_module,
                        },
                    );
                }
                Ok(())
            },
            None => Ok(()),
        }
    }

    /// Applies one message. On success the state is the transition's next
    /// state; on error it is unchanged and the error is the transition's.
    pub fn handle_message(&mut self, message: CoordinationMessage) -> (r: Result<
        (),
        CoordinationError,
    >)
        requires
            old(self).wf(),
        ensures
            final(self).wf(),
            state_wf(final(self).model()),
            same_plan_except_tasks(final(self).plan_value(), old(self).plan_value()),
            match step(old(self).model(), message) {
                Ok(t) => r is Ok && final(self).model() == t,
                Err(e) => r == Err::<(), CoordinationError>(e) && final(self).model() == old(
                    self,
                ).model(),
            },
    {
        match message {
            CoordinationMessage::AgentReady(agent) => {
                self.handle_agent_ready(agent);
                Ok(())
            },
            CoordinationMessage::ApiPublished(api) => {
                self.handle_api_published(api);
                Ok(())
            },
            CoordinationMessage::TaskCompleted(agent, task_id) => {
                self.handle_task_completed(agent, task_id)
            },
            CoordinationMessage::CoordinationRequest {
                requester,
                target_agent,
                target_module,
                reason,
            } => self.handle_coordination_request(requester, target_agent, target_module, reason),
            CoordinationMessage::StatusUpdate(agent, status) => {
                self.agent_status.set(agent.index(), status);
                Ok(())
            },
            CoordinationMessage::CoordinationResponse { .. } => Ok(()),
        }
    }

    /// Drains the messages queued when the call starts, applying each in
    /// turn and stopping at the first error, which is returned; the messages
    /// behind it stay queued. Whatever the queue held, the result is that of
    /// the transition function on some batch of messages.
    pub fn process_coordination(&mut self) -> (r: Result<(), CoordinationError>)
        requires
            old(self).wf(),
        ensures
            final(self).wf(),
            state_wf(final(self).model()),
            same_plan_except_tasks(final(self).plan_value(), old(self).plan_value()),
            exists|taken: Seq<CoordinationMessage>|
                run(old(self).model(), taken) == (final(self).model(), r),
    {
        let ghost s0 = self.model();
        let ghost p0 = self.plan_value();
        let ghost mut taken = Seq::<CoordinationMessage>::empty();
        let n = self.coordination.queued();
        let mut i: usize = 0;
        while i < n
            invariant
                s0 == old(self).model(),
                p0 == old(self).plan_value(),
                self.wf(),
                same_plan_except_tasks(self.plan_value(), p0),
                run(s0, taken) == (self.model(), Ok::<(), CoordinationError>(())),
            decreases n - i,
        {
            match self.coordination.try_recv() {
                Some(message) => {
                    proof {
                        let prev = taken;
                        taken = taken.push(message);
                        assert(taken.drop_last() =~= prev);
                    }
                    let r = self.handle_message(message);
                    if r.is_err() {
                        assert(run(s0, taken) == (self.model(), r));
                        return r;
                    }
                },
                None => {
                    break;
                },
            }
            i = i + 1;
        }
        Ok(())
    }

    /// The status of `agent`; every identity has one.
    pub fn get_agent_status(&self, agent: AgentId) -> (r: Option<&AgentStatus>)
        requires
            self.wf(),
        ensures
            match r {
                Some(st) => *st == status_of(self.model(), agent),
                None => false,
            },
    {
        Some(&self.agent_status[agent.index()])
    }

    /// The ownership registry built from the plan.
    pub fn ownership(&self) -> (r: &OwnershipManager)
        requires
            self.wf(),
        ensures
            r.wf(),
            r@ == self.model().owners,
    {
        &self.ownership
    }

    /// The capabilities published so far.
    pub fn api_registry(&self) -> (r: &ApiRegistry)
        requires
            self.wf(),
        ensures
            r.wf(),
            r@ == self.model().apis,
    {
        &self.api_registry
    }

    /// The plan, with the task statuses as they stand.
    pub fn get_plan(&self) -> (r: &ExecutionPlan)
        ensures
            *r == self.plan_value(),
            r.tasks@ == self.model().tasks,
    {
        &self.plan
    }
}

} // verus!
