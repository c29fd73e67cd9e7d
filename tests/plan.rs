use runebook::planner::{
    create_execution_plan, create_file_ownership, create_interface_stubs, create_roadmap,
    create_task_breakdown,
};
use runebook::types::{str_eq, AgentId, TaskStatus};

#[test]
fn roadmap_phases() {
    let r = create_roadmap();
    let phases: Vec<&str> = r.iter().map(|p| p.phase.as_str()).collect();
    assert_eq!(
        phases,
        vec![
            "phase-1-orchestration",
            "phase-2-parallel-agents",
            "phase-3-analysis",
            "phase-4-surfaces",
            "phase-5-continuous"
        ]
    );
    assert_eq!(r[1].agents, vec![AgentId::Agent1, AgentId::Agent2]);
    assert_eq!(r[4].dependencies, vec!["phase-1-orchestration".to_string()]);
    assert!(r[0].dependencies.is_empty());
}

#[test]
fn task_breakdown() {
    let t = create_task_breakdown();
    assert_eq!(t.len(), 12);
    assert!(t.iter().all(|t| t.status == TaskStatus::NotStarted));
    let gate = t.iter().find(|t| t.id == "agent3-2").unwrap();
    assert_eq!(gate.owner, AgentId::Agent3);
    assert_eq!(gate.dependencies, vec![AgentId::Agent3]);
    assert_eq!(gate.description, "Write suggestions to store");
    assert_eq!(t[0].id, "orch-1");
    assert_eq!(t[11].id, "agent6-1");
}

#[test]
fn interface_stubs() {
    let s = create_interface_stubs();
    assert_eq!(s.len(), 7);
    assert_eq!(s.iter().filter(|i| i.name == "StorageApi").count(), 3);
    assert_eq!(s[6].owner, AgentId::Agent4);
    assert_eq!(s[6].module_location, "src/lib/agent/surfaces.ts");
}

#[test]
fn file_ownership_boundaries() {
    let o = create_file_ownership();
    assert_eq!(o.len(), 13);
    assert_eq!(o[0].path, "src-tauri/src/core");
    assert!(o[0].shared);
    assert!(o[1..].iter().all(|r| !r.shared));
    assert_eq!(o[12].owner, AgentId::Agent6);
}

#[test]
fn execution_plan_parts() {
    let p = create_execution_plan();
    assert_eq!(p.roadmap.len(), 5);
    assert_eq!(p.tasks.len(), 12);
    assert_eq!(p.interfaces.len(), 7);
    assert_eq!(p.file_ownership.len(), 13);
    assert!(p.created_at > 1_600_000_000_000);
}

#[test]
fn agent_names() {
    assert_eq!(AgentId::Orchestrator.name(), "orchestrator");
    assert_eq!(AgentId::Agent1.name(), "agent1-event-capture");
    assert_eq!(AgentId::Agent2.name(), "agent2-storage-apis");
    assert_eq!(AgentId::Agent3.name(), "agent3-analysis-pipeline");
    assert_eq!(AgentId::Agent4.name(), "agent4-surfaces");
    assert_eq!(AgentId::Agent5.name(), "agent5-nix-ci");
    assert_eq!(AgentId::Agent6.name(), "agent6-finalization");
    assert_eq!(AgentId::Agent4.index(), 4);
}

#[test]
fn string_equality() {
    assert!(str_eq("agent3-2", "agent3-2"));
    assert!(!str_eq("agent3-2", "agent3-1"));
    assert!(!str_eq("ab", "abc"));
    assert!(str_eq("", ""));
    assert!(str_eq("é", "é"));
}
