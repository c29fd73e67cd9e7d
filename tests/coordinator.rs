use runebook::coordinator::ExecutionCoordinator;
use runebook::planner::create_execution_plan;
use runebook::types::{
    AgentId, AgentStatus, ApiPublished, CoordinationError, CoordinationMessage, TaskStatus,
};

fn api(agent: AgentId, name: &str) -> ApiPublished {
    ApiPublished {
        agent,
        api_name: name.to_string(),
        interface_path: "src/x.rs".to_string(),
        version: "1.0.0".to_string(),
        timestamp: 0,
    }
}

fn status(c: &ExecutionCoordinator, a: AgentId) -> AgentStatus {
    c.get_agent_status(a).cloned().expect("every identity has a status")
}

fn task_status(c: &ExecutionCoordinator, id: &str) -> TaskStatus {
    c.get_plan().tasks.iter().find(|t| t.id == id).expect("task in plan").status.clone()
}

#[test]
fn initial_statuses() {
    let (c, _h) = ExecutionCoordinator::new(create_execution_plan());
    assert_eq!(status(&c, AgentId::Orchestrator), AgentStatus::Running);
    assert_eq!(status(&c, AgentId::Agent1), AgentStatus::Pending);
    assert_eq!(status(&c, AgentId::Agent2), AgentStatus::Pending);
    assert_eq!(status(&c, AgentId::Agent3), AgentStatus::WaitingForDependency(AgentId::Agent2));
    assert_eq!(status(&c, AgentId::Agent4), AgentStatus::WaitingForDependency(AgentId::Agent3));
    assert_eq!(status(&c, AgentId::Agent5), AgentStatus::Pending);
    assert_eq!(status(&c, AgentId::Agent6), AgentStatus::Pending);
    assert_eq!(c.ownership().get_owner("flake.nix"), Some(AgentId::Agent5));
}

#[test]
fn end_to_end_default_plan() {
    let (mut c, h) = ExecutionCoordinator::new(create_execution_plan());
    h.agent_ready(AgentId::Agent1).unwrap();
    h.agent_ready(AgentId::Agent2).unwrap();
    assert_eq!(c.process_coordination(), Ok(()));
    assert_eq!(status(&c, AgentId::Agent1), AgentStatus::Running);
    assert_eq!(status(&c, AgentId::Agent2), AgentStatus::Running);

    h.api_published(api(AgentId::Agent2, "X")).unwrap();
    assert_eq!(c.process_coordination(), Ok(()));
    assert_eq!(status(&c, AgentId::Agent3), AgentStatus::Pending);
    assert!(c.api_registry().is_published("X"));

    h.task_completed(AgentId::Agent3, "agent3-2".to_string()).unwrap();
    assert_eq!(c.process_coordination(), Ok(()));
    assert_eq!(status(&c, AgentId::Agent4), AgentStatus::Pending);
    assert_eq!(task_status(&c, "agent3-2"), TaskStatus::Completed);
}

#[test]
fn gated_worker_does_not_run_before_gate() {
    let (mut c, _h) = ExecutionCoordinator::new(create_execution_plan());
    assert_eq!(c.handle_message(CoordinationMessage::AgentReady(AgentId::Agent3)), Ok(()));
    assert_eq!(status(&c, AgentId::Agent3), AgentStatus::WaitingForDependency(AgentId::Agent2));
    assert_eq!(c.handle_message(CoordinationMessage::AgentReady(AgentId::Agent4)), Ok(()));
    assert_eq!(status(&c, AgentId::Agent4), AgentStatus::WaitingForDependency(AgentId::Agent3));
    // A capability from another worker does not open the analysis gate.
    c.handle_message(CoordinationMessage::ApiPublished(api(AgentId::Agent1, "Capture"))).unwrap();
    c.handle_message(CoordinationMessage::AgentReady(AgentId::Agent3)).unwrap();
    assert_eq!(status(&c, AgentId::Agent3), AgentStatus::WaitingForDependency(AgentId::Agent2));
    // Another task's completion does not open the surfaces gate.
    c.handle_message(CoordinationMessage::TaskCompleted(AgentId::Agent3, "agent3-1".to_string()))
        .unwrap();
    c.handle_message(CoordinationMessage::AgentReady(AgentId::Agent4)).unwrap();
    assert_eq!(status(&c, AgentId::Agent4), AgentStatus::WaitingForDependency(AgentId::Agent3));
    // Once the gates open, readiness runs them.
    c.handle_message(CoordinationMessage::ApiPublished(api(AgentId::Agent2, "StorageApi"))).unwrap();
    c.handle_message(CoordinationMessage::AgentReady(AgentId::Agent3)).unwrap();
    assert_eq!(status(&c, AgentId::Agent3), AgentStatus::Running);
    c.handle_message(CoordinationMessage::TaskCompleted(AgentId::Agent3, "agent3-2".to_string()))
        .unwrap();
    c.handle_message(CoordinationMessage::AgentReady(AgentId::Agent4)).unwrap();
    assert_eq!(status(&c, AgentId::Agent4), AgentStatus::Running);
}

#[test]
fn ready_waits_on_orchestrator_when_it_is_not_running() {
    let (mut c, _h) = ExecutionCoordinator::new(create_execution_plan());
    c.handle_message(CoordinationMessage::StatusUpdate(AgentId::Orchestrator, AgentStatus::Pending))
        .unwrap();
    c.handle_message(CoordinationMessage::AgentReady(AgentId::Agent1)).unwrap();
    assert_eq!(
        status(&c, AgentId::Agent1),
        AgentStatus::WaitingForDependency(AgentId::Orchestrator)
    );
    c.handle_message(CoordinationMessage::StatusUpdate(AgentId::Orchestrator, AgentStatus::Completed))
        .unwrap();
    c.handle_message(CoordinationMessage::AgentReady(AgentId::Agent1)).unwrap();
    assert_eq!(status(&c, AgentId::Agent1), AgentStatus::Running);
}

#[test]
fn publication_releases_exactly_its_waiters() {
    let (mut c, _h) = ExecutionCoordinator::new(create_execution_plan());
    c.handle_message(CoordinationMessage::StatusUpdate(
        AgentId::Agent5,
        AgentStatus::WaitingForDependency(AgentId::Agent2),
    ))
    .unwrap();
    c.handle_message(CoordinationMessage::ApiPublished(api(AgentId::Agent2, "X"))).unwrap();
    assert_eq!(status(&c, AgentId::Agent3), AgentStatus::Pending);
    assert_eq!(status(&c, AgentId::Agent5), AgentStatus::Pending);
    assert_eq!(status(&c, AgentId::Agent4), AgentStatus::WaitingForDependency(AgentId::Agent3));
    assert_eq!(status(&c, AgentId::Agent1), AgentStatus::Pending);
    assert_eq!(status(&c, AgentId::Orchestrator), AgentStatus::Running);
}

#[test]
fn republication_replaces_record() {
    let (mut c, _h) = ExecutionCoordinator::new(create_execution_plan());
    c.handle_message(CoordinationMessage::ApiPublished(api(AgentId::Agent2, "X"))).unwrap();
    let mut second = api(AgentId::Agent2, "X");
    second.version = "2.0.0".to_string();
    c.handle_message(CoordinationMessage::ApiPublished(second)).unwrap();
    assert_eq!(c.api_registry().get_api("X").unwrap().version, "2.0.0");
    assert_eq!(c.api_registry().get_agent_apis(AgentId::Agent2).len(), 1);
}

#[test]
fn task_completed_twice_is_idempotent() {
    let (mut c, _h) = ExecutionCoordinator::new(create_execution_plan());
    let m = || CoordinationMessage::TaskCompleted(AgentId::Agent3, "agent3-2".to_string());
    assert_eq!(c.handle_message(m()), Ok(()));
    assert_eq!(status(&c, AgentId::Agent4), AgentStatus::Pending);
    c.handle_message(CoordinationMessage::AgentReady(AgentId::Agent4)).unwrap();
    assert_eq!(status(&c, AgentId::Agent4), AgentStatus::Running);
    assert_eq!(c.handle_message(m()), Ok(()));
    assert_eq!(task_status(&c, "agent3-2"), TaskStatus::Completed);
    assert_eq!(status(&c, AgentId::Agent4), AgentStatus::Running);
}

#[test]
fn unknown_task_is_an_error() {
    let (mut c, _h) = ExecutionCoordinator::new(create_execution_plan());
    let r = c.handle_message(CoordinationMessage::TaskCompleted(AgentId::Agent3, "nope".to_string()));
    assert_eq!(r, Err(CoordinationError::UnknownTask("nope".to_string())));
    assert_eq!(status(&c, AgentId::Agent4), AgentStatus::WaitingForDependency(AgentId::Agent3));
}

#[test]
fn request_from_non_owner_is_refused() {
    let (mut c, _h) = ExecutionCoordinator::new(create_execution_plan());
    let r = c.handle_message(CoordinationMessage::CoordinationRequest {
        requester: AgentId::Agent1,
        target_agent: AgentId::Agent2,
        target_module: "src-tauri/src/memory".to_string(),
        reason: "need a field".to_string(),
    });
    assert_eq!(
        r,
        Err(CoordinationError::OwnershipViolation {
            owner: AgentId::Agent2,
            requester: AgentId::Agent1,
            path: "src-tauri/src/memory".to_string(),
        })
    );
    assert_eq!(c.ownership().get_owner("src-tauri/src/memory"), Some(AgentId::Agent2));
    assert_eq!(c.ownership().get_agent_files(AgentId::Agent2).len(), 1);
    // A shared path is still modify-locked to its owner.
    let r = c.handle_message(CoordinationMessage::CoordinationRequest {
        requester: AgentId::Agent3,
        target_agent: AgentId::Orchestrator,
        target_module: "src-tauri/src/core".to_string(),
        reason: "new type".to_string(),
    });
    assert!(matches!(r, Err(CoordinationError::OwnershipViolation { .. })));
}

#[test]
fn request_from_owner_or_unregistered_path_succeeds() {
    let (mut c, _h) = ExecutionCoordinator::new(create_execution_plan());
    let r = c.handle_message(CoordinationMessage::CoordinationRequest {
        requester: AgentId::Agent2,
        target_agent: AgentId::Agent2,
        target_module: "src-tauri/src/memory".to_string(),
        reason: "own module".to_string(),
    });
    assert_eq!(r, Ok(()));
    let r = c.handle_message(CoordinationMessage::CoordinationRequest {
        requester: AgentId::Agent1,
        target_agent: AgentId::Agent2,
        target_module: "README.md".to_string(),
        reason: "docs".to_string(),
    });
    assert_eq!(r, Ok(()));
}

#[test]
fn request_error_aborts_drain_and_leaves_rest_queued() {
    let (mut c, h) = ExecutionCoordinator::new(create_execution_plan());
    h.request_coordination(
        AgentId::Agent1,
        AgentId::Agent5,
        "flake.nix".to_string(),
        "pin".to_string(),
    )
    .unwrap();
    h.agent_ready(AgentId::Agent1).unwrap();
    assert!(matches!(
        c.process_coordination(),
        Err(CoordinationError::OwnershipViolation { .. })
    ));
    assert_eq!(status(&c, AgentId::Agent1), AgentStatus::Pending);
    assert_eq!(c.process_coordination(), Ok(()));
    assert_eq!(status(&c, AgentId::Agent1), AgentStatus::Running);
}

#[test]
fn empty_drain_changes_nothing() {
    let (mut c, _h) = ExecutionCoordinator::new(create_execution_plan());
    let before: Vec<AgentStatus> = [
        AgentId::Orchestrator,
        AgentId::Agent1,
        AgentId::Agent2,
        AgentId::Agent3,
        AgentId::Agent4,
        AgentId::Agent5,
        AgentId::Agent6,
    ]
    .iter()
    .map(|a| status(&c, *a))
    .collect();
    assert_eq!(c.process_coordination(), Ok(()));
    let after: Vec<AgentStatus> = [
        AgentId::Orchestrator,
        AgentId::Agent1,
        AgentId::Agent2,
        AgentId::Agent3,
        AgentId::Agent4,
        AgentId::Agent5,
        AgentId::Agent6,
    ]
    .iter()
    .map(|a| status(&c, *a))
    .collect();
    assert_eq!(before, after);
    assert!(c.get_plan().tasks.iter().all(|t| t.status == TaskStatus::NotStarted));
    assert!(c.api_registry().get_agent_apis(AgentId::Agent2).is_empty());
}

#[test]
fn status_update_overwrites_and_response_is_ignored() {
    let (mut c, _h) = ExecutionCoordinator::new(create_execution_plan());
    c.handle_message(CoordinationMessage::StatusUpdate(
        AgentId::Agent1,
        AgentStatus::Failed("boom".to_string()),
    ))
    .unwrap();
    assert_eq!(status(&c, AgentId::Agent1), AgentStatus::Failed("boom".to_string()));
    let r = c.handle_message(CoordinationMessage::CoordinationResponse {
        request_id: "r1".to_string(),
        approved: true,
        reason: None,
    });
    assert_eq!(r, Ok(()));
    assert_eq!(status(&c, AgentId::Agent1), AgentStatus::Failed("boom".to_string()));
}

#[test]
fn send_fails_once_coordinator_is_gone() {
    let (c, h) = ExecutionCoordinator::new(create_execution_plan());
    let h2 = c.handle();
    drop(c);
    assert_eq!(h.agent_ready(AgentId::Agent1), Err(CoordinationError::ChannelClosed));
    assert_eq!(
        h2.status_update(AgentId::Agent1, AgentStatus::Running),
        Err(CoordinationError::ChannelClosed)
    );
}

#[test]
fn gate_task_completion_releases_worker_waiting_on_sender() {
    let (mut c, _h) = ExecutionCoordinator::new(create_execution_plan());
    c.handle_message(CoordinationMessage::StatusUpdate(
        AgentId::Agent4,
        AgentStatus::WaitingForDependency(AgentId::Agent2),
    ))
    .unwrap();
    c.handle_message(CoordinationMessage::TaskCompleted(AgentId::Agent2, "agent3-2".to_string()))
        .unwrap();
    assert_eq!(status(&c, AgentId::Agent4), AgentStatus::Pending);
}

#[test]
fn gate_task_completion_leaves_worker_waiting_on_other() {
    let (mut c, _h) = ExecutionCoordinator::new(create_execution_plan());
    c.handle_message(CoordinationMessage::TaskCompleted(AgentId::Agent5, "agent3-2".to_string()))
        .unwrap();
    assert_eq!(status(&c, AgentId::Agent4), AgentStatus::WaitingForDependency(AgentId::Agent3));
    assert_eq!(task_status(&c, "agent3-2"), TaskStatus::Completed);
}
