//! The coordinator's transition function over values: its state, the effect
//! of each message, the effect of a drained batch, and the laws they obey.

use vstd::prelude::*;
use crate::ownership::may_modify;
use crate::registry::{has_agent_record, Keyed};
use crate::types::{
    agent_index, AgentId, AgentStatus, ApiPublished, CoordinationError, CoordinationMessage,
    FileOwnership, Task, TaskStatus,
};

verus! {

/// What the coordinator holds, as values: the plan's tasks, the ownership and
/// capability registries as maps, and one status per identity, indexed by
/// `agent_index`.
pub struct CoordState {
    pub tasks: Seq<Task>,
    pub owners: Map<Seq<char>, FileOwnership>,
    pub apis: Map<Seq<char>, ApiPublished>,
    pub status: Seq<AgentStatus>,
}

/// A state has one status per identity.
pub open spec fn state_wf(s: CoordState) -> bool {
    s.status.len() == 7
}

pub open spec fn status_of(s: CoordState, a: AgentId) -> AgentStatus {
    s.status[agent_index(a)]
}

/// The task whose completion opens the surfaces worker's gate.
pub open spec fn gate_task() -> Seq<char> {
    "agent3-2"@
}

/// The single worker each identity is considered blocked on.
pub open spec fn blocking_dependency(a: AgentId) -> AgentId {
    match a {
        AgentId::Agent3 => AgentId::Agent2,
        AgentId::Agent4 => AgentId::Agent3,
        _ => AgentId::Orchestrator,
    }
}

/// The workers whose readiness depends on another worker's artifact.
pub open spec fn has_static_dependency(a: AgentId) -> bool {
    a == AgentId::Agent3 || a == AgentId::Agent4
}

/// Whether some task of the plan with this id is completed.
pub open spec fn task_done(tasks: Seq<Task>, id: Seq<char>) -> bool {
    exists|i: int| 0 <= i < tasks.len() && (#[trigger] tasks[i]).id@ == id && tasks[i].status
        == TaskStatus::Completed
}

/// Whether the plan holds a task with this id.
pub open spec fn has_task(tasks: Seq<Task>, id: Seq<char>) -> bool {
    exists|i: int| 0 <= i < tasks.len() && (#[trigger] tasks[i]).id@ == id
}

/// `i` is the first position of a task with this id.
pub open spec fn first_task(tasks: Seq<Task>, id: Seq<char>, i: int) -> bool {
    &&& 0 <= i < tasks.len()
    &&& tasks[i].id@ == id
    &&& forall|j: int| 0 <= j < i ==> (#[trigger] tasks[j]).id@ != id
}

/// The tasks with the first task of this id marked completed.
pub open spec fn complete_task(tasks: Seq<Task>, id: Seq<char>) -> Seq<Task> {
    let i = choose|i: int| first_task(tasks, id, i);
    tasks.update(i, Task { status: TaskStatus::Completed, ..tasks[i] })
}

/// The readiness predicate, evaluated on the current state.
pub open spec fn can_start(s: CoordState, a: AgentId) -> bool {
    match a {
        AgentId::Orchestrator => true,
        AgentId::Agent3 => has_agent_record(s.apis, AgentId::Agent2),
        AgentId::Agent4 => task_done(s.tasks, gate_task()),
        _ => status_of(s, AgentId::Orchestrator) == AgentStatus::Running || status_of(
            s,
            AgentId::Orchestrator,
        ) == AgentStatus::Completed,
    }
}

/// Every status `WaitingForDependency(d)` becomes `Pending`; the others stay.
pub open spec fn release_waiting(status: Seq<AgentStatus>, d: AgentId) -> Seq<AgentStatus> {
    status.map_values(
        |st: AgentStatus|
            if st == AgentStatus::WaitingForDependency(d) {
                AgentStatus::Pending
            } else {
                st
            },
    )
}

/// The effect of a worker announcing readiness.
pub open spec fn on_ready(s: CoordState, a: AgentId) -> CoordState {
    let st = if can_start(s, a) {
        AgentStatus::Running
    } else {
        AgentStatus::WaitingForDependency(blocking_dependency(a))
    };
    CoordState { status: s.status.update(agent_index(a), st), ..s }
}

/// The effect of a capability publication.
pub open spec fn on_published(s: CoordState, api: ApiPublished) -> CoordState {
    CoordState {
        apis: s.apis.insert(api.api_name@, api),
        status: release_waiting(s.status, api.agent),
        ..s
    }
}

/// The effect of a task completion, or the error for an unknown task.
pub open spec fn on_task_completed(s: CoordState, w: AgentId, id: String) -> Result<
    CoordState,
    CoordinationError,
> {
    if !has_task(s.tasks, id@) {
        Err(CoordinationError::UnknownTask(id))
    } else {
        let releases = id@ == gate_task()
            && status_of(s, AgentId::Agent4) == AgentStatus::WaitingForDependency(w);
        Ok(
            CoordState {
                tasks: complete_task(s.tasks, id@),
                status: if releases {
                    s.status.update(agent_index(AgentId::Agent4), AgentStatus::Pending)
                } else {
                    s.status
                },
                ..s
            },
        )
    }
}

/// The answer to a coordination request: the owner of a registered path may
/// go ahead, anyone else whom the registry denies is refused, and the rest is
/// accepted.
pub open spec fn on_request(s: CoordState, requester: AgentId, path: String) -> Result<
    CoordState,
    CoordinationError,
> {
    if s.owners.contains_key(path@) && s.owners[path@].owner != requester && !may_modify(
        s.owners,
        requester,
        path@,
    ) {
        Err(
            CoordinationError::OwnershipViolation {
                owner: s.owners[path@].owner,
                requester,
                path,
            },
        )
    } else {
        Ok(s)
    }
}

/// One transition: the next state, or the error that aborts the drain, in
/// which case the state is left as it was.
pub open spec fn step(s: CoordState, m: CoordinationMessage) -> Result<CoordState, CoordinationError> {
    match m {
        CoordinationMessage::AgentReady(a) => Ok(on_ready(s, a)),
        CoordinationMessage::ApiPublished(api) => Ok(on_published(s, api)),
        CoordinationMessage::TaskCompleted(w, id) => on_task_completed(s, w, id),
        CoordinationMessage::CoordinationRequest { requester, target_agent, target_module, reason } =>
            on_request(s, requester, target_module),
        CoordinationMessage::CoordinationResponse { .. } => Ok(s),
        CoordinationMessage::StatusUpdate(a, st) => Ok(
            CoordState { status: s.status.update(agent_index(a), st), ..s },
        ),
    }
}

/// The state after one message: the next state, or the same one on error.
pub open spec fn after(s: CoordState, m: CoordinationMessage) -> CoordState {
    match step(s, m) {
        Ok(t) => t,
        Err(_) => s,
    }
}

/// Processing a batch in order, stopping at the first error: the state
/// reached and the outcome.
pub open spec fn run(s: CoordState, ms: Seq<CoordinationMessage>) -> (CoordState, Result<(), CoordinationError>)
    decreases ms.len(),
{
    if ms.len() == 0 {
        (s, Ok(()))
    } else {
        let (t, r) = run(s, ms.drop_last());
        if r is Err {
            (t, r)
        } else {
            match step(t, ms.last()) {
                Ok(u) => (u, Ok(())),
                Err(e) => (t, Err(e)),
            }
        }
    }
}

/// The statuses a coordinator starts with: the orchestrator running, the two
/// gated workers waiting on their dependency, the others pending.
pub open spec fn initial_status() -> Seq<AgentStatus> {
    seq![
        AgentStatus::Running,
        AgentStatus::Pending,
        AgentStatus::Pending,
        AgentStatus::WaitingForDependency(AgentId::Agent2),
        AgentStatus::WaitingForDependency(AgentId::Agent3),
        AgentStatus::Pending,
        AgentStatus::Pending,
    ]
}

/// The ownership map after registering the records in order.
pub open spec fn owners_from(records: Seq<FileOwnership>) -> Map<Seq<char>, FileOwnership>
    decreases records.len(),
{
    if records.len() == 0 {
        Map::empty()
    } else {
        owners_from(records.drop_last()).insert(records.last().path@, records.last())
    }
}

/// A gated worker is running or done only while its gate is open.
pub open spec fn gates_respected(s: CoordState) -> bool {
    forall|a: AgentId|
        #[trigger] has_static_dependency(a) && (status_of(s, a) == AgentStatus::Running
            || status_of(s, a) == AgentStatus::Completed) ==> can_start(s, a)
}

/// The messages that can close an open gate behind a running worker: a
/// direct overwrite of a gated worker's status to running or completed while
/// its gate is shut, and a publication that replaces the last capability of
/// the analysis worker's dependency while that worker is running or done.
pub open spec fn breaks_gate(s: CoordState, m: CoordinationMessage) -> bool {
    match m {
        CoordinationMessage::StatusUpdate(a, st) => has_static_dependency(a) && (st
            == AgentStatus::Running || st == AgentStatus::Completed) && !can_start(s, a),
        CoordinationMessage::ApiPublished(api) => (status_of(s, AgentId::Agent3)
            == AgentStatus::Running || status_of(s, AgentId::Agent3) == AgentStatus::Completed)
            && !has_agent_record(s.apis.insert(api.api_name@, api), AgentId::Agent2),
        _ => false,
    }
}

/// A coordinator that has just started respects every gate, whatever its
/// plan and registries hold.
pub proof fn lemma_initial_gates_respected(
    tasks: Seq<Task>,
    owners: Map<Seq<char>, FileOwnership>,
    apis: Map<Seq<char>, ApiPublished>,
)
    ensures
        gates_respected(CoordState { tasks, owners, apis, status: initial_status() }),
{
    let s = CoordState { tasks, owners, apis, status: initial_status() };
    assert forall|a: AgentId|
        #[trigger] has_static_dependency(a) && (status_of(s, a) == AgentStatus::Running
            || status_of(s, a) == AgentStatus::Completed) implies can_start(s, a) by {
        if a == AgentId::Agent3 {
            assert(status_of(s, a) == AgentStatus::WaitingForDependency(AgentId::Agent2));
        } else if a == AgentId::Agent4 {
            assert(status_of(s, a) == AgentStatus::WaitingForDependency(AgentId::Agent3));
        }
    }
}

/// Completing a task keeps every completed task id completed.
proof fn lemma_task_done_kept(tasks: Seq<Task>, id: Seq<char>, g: Seq<char>)
    requires
        has_task(tasks, id),
        task_done(tasks, g),
    ensures
        task_done(complete_task(tasks, id), g),
{
    let t2 = complete_task(tasks, id);
    lemma_first_task_exists(tasks, id);
    let i = choose|i: int| first_task(tasks, id, i);
    let k = choose|k: int| 0 <= k < tasks.len() && (#[trigger] tasks[k]).id@ == g && tasks[k].status
        == TaskStatus::Completed;
    if k == i {
        assert(t2[k].id@ == g && t2[k].status == TaskStatus::Completed);
    } else {
        assert(t2[k] == tasks[k]);
    }
}

/// A plan that holds a task with some id holds a first one.
pub proof fn lemma_first_task_exists(tasks: Seq<Task>, id: Seq<char>)
    requires
        has_task(tasks, id),
    ensures
        exists|i: int| first_task(tasks, id, i),
    decreases tasks.len(),
{
    if tasks.last().id@ == id && !has_task(tasks.drop_last(), id) {
        let i = tasks.len() - 1;
        assert forall|j: int| 0 <= j < i implies (#[trigger] tasks[j]).id@ != id by {
            assert(tasks.drop_last()[j] == tasks[j]);
        }
        assert(first_task(tasks, id, i));
    } else if has_task(tasks.drop_last(), id) {
        lemma_first_task_exists(tasks.drop_last(), id);
        let i = choose|i: int| first_task(tasks.drop_last(), id, i);
        assert forall|j: int| 0 <= j < i implies (#[trigger] tasks[j]).id@ != id by {
            assert(tasks.drop_last()[j] == tasks[j]);
        }
        assert(tasks.drop_last()[i] == tasks[i]);
        assert(first_task(tasks, id, i));
    } else {
        let k = choose|k: int| 0 <= k < tasks.len() && (#[trigger] tasks[k]).id@ == id;
        if k < tasks.len() - 1 {
            assert(tasks.drop_last()[k] == tasks[k]);
        }
    }
}

/// The first task of an id is unique.
proof fn lemma_first_task_unique(tasks: Seq<Task>, id: Seq<char>, i: int, j: int)
    requires
        first_task(tasks, id, i),
        first_task(tasks, id, j),
    ensures
        i == j,
{
    if i < j {
        assert(tasks[i].id@ == id);
    } else if j < i {
        assert(tasks[j].id@ == id);
    }
}

/// A gated worker never runs, nor is completed, while the worker it depends
/// on has not opened its gate: every transition keeps this, except the
/// messages of `breaks_gate`.
pub proof fn lemma_gates_preserved(s: CoordState, m: CoordinationMessage)
    requires
        state_wf(s),
        gates_respected(s),
        !breaks_gate(s, m),
    ensures
        state_wf(after(s, m)),
        gates_respected(after(s, m)),
{
    let t = after(s, m);
    assert(t.status.len() == 7);
    assert forall|a: AgentId|
        #[trigger] has_static_dependency(a) && (status_of(t, a) == AgentStatus::Running
            || status_of(t, a) == AgentStatus::Completed) implies can_start(t, a) by {
        match m {
            CoordinationMessage::AgentReady(b) => {
                if b != a {
                    assert(agent_index(a) != agent_index(b));
                    assert(status_of(t, a) == status_of(s, a));
                }
            },
            CoordinationMessage::ApiPublished(api) => {
                assert(status_of(t, a) == release_waiting(s.status, api.agent)[agent_index(a)]);
                assert(status_of(t, a) == status_of(s, a));
                assert(can_start(s, a));
                if a == AgentId::Agent3 {
                    if api.agent == AgentId::Agent2 {
                        assert(t.apis.contains_key(api.api_name@));
                        assert(t.apis[api.api_name@].agent_of() == AgentId::Agent2);
                    }
                }
            },
            CoordinationMessage::TaskCompleted(w, id) => {
                if has_task(s.tasks, id@) {
                    if status_of(t, a) != status_of(s, a) {
                        assert(a == AgentId::Agent4);
                        assert(status_of(t, a) == AgentStatus::Pending);
                    }
                    assert(can_start(s, a));
                    if a == AgentId::Agent4 {
                        lemma_task_done_kept(s.tasks, id@, gate_task());
                    }
                }
            },
            CoordinationMessage::StatusUpdate(b, st) => {
                if b != a {
                    assert(agent_index(a) != agent_index(b));
                    assert(status_of(t, a) == status_of(s, a));
                }
            },
            _ => {},
        }
    }
}

/// No message of the batch breaks a gate in the state it is applied to.
pub open spec fn batch_keeps_gates(s: CoordState, ms: Seq<CoordinationMessage>) -> bool
    decreases ms.len(),
{
    ms.len() == 0 || (batch_keeps_gates(s, ms.drop_last()) && (run(s, ms.drop_last()).1 is Ok
        ==> !breaks_gate(run(s, ms.drop_last()).0, ms.last())))
}

/// Draining a batch in which no message breaks a gate keeps every gate
/// respected.
pub proof fn lemma_gates_preserved_by_run(s: CoordState, ms: Seq<CoordinationMessage>)
    requires
        state_wf(s),
        gates_respected(s),
        batch_keeps_gates(s, ms),
    ensures
        state_wf(run(s, ms).0),
        gates_respected(run(s, ms).0),
    decreases ms.len(),
{
    if ms.len() > 0 {
        lemma_gates_preserved_by_run(s, ms.drop_last());
        let (t, r) = run(s, ms.drop_last());
        if r is Ok {
            lemma_gates_preserved(t, ms.last());
        }
    }
}

/// A publication by `d` turns exactly the statuses `WaitingForDependency(d)`
/// into `Pending` and leaves every other status as it was.
pub proof fn lemma_publication_releases_exactly(s: CoordState, api: ApiPublished, a: AgentId)
    requires
        state_wf(s),
    ensures
        step(s, CoordinationMessage::ApiPublished(api)) is Ok,
        status_of(after(s, CoordinationMessage::ApiPublished(api)), a) == (if status_of(s, a)
            == AgentStatus::WaitingForDependency(api.agent) {
            AgentStatus::Pending
        } else {
            status_of(s, a)
        }),
{
}

/// Delivering a task completion twice has the effect of delivering it once:
/// the task stays completed and no status changes a second time.
pub proof fn lemma_task_completed_idempotent(s: CoordState, w: AgentId, id: String)
    requires
        state_wf(s),
    ensures
        step(after(s, CoordinationMessage::TaskCompleted(w, id)), CoordinationMessage::TaskCompleted(w, id)) is Ok
            == step(s, CoordinationMessage::TaskCompleted(w, id)) is Ok,
        after(after(s, CoordinationMessage::TaskCompleted(w, id)), CoordinationMessage::TaskCompleted(w, id))
            == after(s, CoordinationMessage::TaskCompleted(w, id)),
{
    let m = CoordinationMessage::TaskCompleted(w, id);
    let t = after(s, m);
    if has_task(s.tasks, id@) {
        lemma_first_task_exists(s.tasks, id@);
        let i = choose|i: int| first_task(s.tasks, id@, i);
        assert(t.tasks == complete_task(s.tasks, id@));
        assert(first_task(t.tasks, id@, i)) by {
            assert forall|j: int| 0 <= j < i implies (#[trigger] t.tasks[j]).id@ != id@ by {
                assert(t.tasks[j] == s.tasks[j]);
            }
        }
        assert(has_task(t.tasks, id@));
        let i2 = choose|i2: int| first_task(t.tasks, id@, i2);
        lemma_first_task_unique(t.tasks, id@, i, i2);
        assert(complete_task(t.tasks, id@) =~= t.tasks);
        let u = after(t, m);
        assert(u.status =~= t.status);
        assert(u == t);
    }
}

/// A request from anyone but the owner of a registered path is refused with
/// an ownership violation and changes nothing.
pub proof fn lemma_request_by_non_owner_refused(
    s: CoordState,
    requester: AgentId,
    target_agent: AgentId,
    path: String,
    reason: String,
)
    requires
        s.owners.contains_key(path@),
        s.owners[path@].owner != requester,
    ensures
        step(
            s,
            CoordinationMessage::CoordinationRequest { requester, target_agent, target_module: path, reason },
        ) == Err::<CoordState, CoordinationError>(
            CoordinationError::OwnershipViolation { owner: s.owners[path@].owner, requester, path },
        ),
        after(
            s,
            CoordinationMessage::CoordinationRequest { requester, target_agent, target_module: path, reason },
        ) == s,
{
}

/// A request from the owner of a registered path succeeds and changes
/// nothing.
pub proof fn lemma_request_by_owner_accepted(
    s: CoordState,
    requester: AgentId,
    target_agent: AgentId,
    path: String,
    reason: String,
)
    requires
        s.owners.contains_key(path@),
        s.owners[path@].owner == requester,
    ensures
        step(
            s,
            CoordinationMessage::CoordinationRequest { requester, target_agent, target_module: path, reason },
        ) == Ok::<CoordState, CoordinationError>(s),
{
}

/// Draining no message succeeds and leaves the state as it was.
pub proof fn lemma_empty_drain(s: CoordState)
    ensures
        run(s, Seq::<CoordinationMessage>::empty()) == (s, Ok::<(), CoordinationError>(())),
{
}

} // verus!
