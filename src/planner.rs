//! The plan built before any worker starts: roadmap, tasks, interface stubs
//! and ownership boundaries.

use vstd::prelude::*;
use crate::clock::now_millis;
use crate::types::{AgentId, ExecutionPlan, FileOwnership, InterfaceStub, RoadmapItem, Task, TaskStatus};

verus! {
/// The roadmap's phases: id, description, workers and the phases it follows.
pub open spec fn roadmap_table() -> Seq<(Seq<char>, Seq<char>, Seq<AgentId>, Seq<Seq<char>>)> {
    seq![
        ("phase-1-orchestration"@, "Orchestrator creates roadmap, task breakdown, stubs interfaces, assigns ownership"@, seq![AgentId::Orchestrator], seq![]),
        ("phase-2-parallel-agents"@, "Agent 1 (event capture) and Agent 2 (storage APIs) run in parallel"@, seq![AgentId::Agent1, AgentId::Agent2], seq!["phase-1-orchestration"@]),
        ("phase-3-analysis"@, "Agent 3 (analysis pipeline) starts after Agent 2 publishes APIs"@, seq![AgentId::Agent3], seq!["phase-2-parallel-agents"@]),
        ("phase-4-surfaces"@, "Agent 4 (surfaces) starts after Agent 3 writes suggestions to store"@, seq![AgentId::Agent4], seq!["phase-3-analysis"@]),
        ("phase-5-continuous"@, "Agent 5 (nix + CI) and Agent 6 (finalization) run continuously"@, seq![AgentId::Agent5, AgentId::Agent6], seq!["phase-1-orchestration"@]),
    ]
}

/// The tasks: id, description, owner and the workers it depends on.
pub open spec fn task_table() -> Seq<(Seq<char>, Seq<char>, AgentId, Seq<AgentId>)> {
    seq![
        ("orch-1"@, "Create roadmap and task breakdown"@, AgentId::Orchestrator, seq![]),
        ("orch-2"@, "Stub all interfaces"@, AgentId::Orchestrator, seq![]),
        ("orch-3"@, "Assign file ownership boundaries"@, AgentId::Orchestrator, seq![]),
        ("agent1-1"@, "Implement event capture system"@, AgentId::Agent1, seq![AgentId::Orchestrator]),
        ("agent2-1"@, "Implement storage APIs"@, AgentId::Agent2, seq![AgentId::Orchestrator]),
        ("agent2-2"@, "Publish storage API interface"@, AgentId::Agent2, seq![AgentId::Agent2]),
        ("agent3-1"@, "Implement analysis pipeline"@, AgentId::Agent3, seq![AgentId::Agent2]),
        ("agent3-2"@, "Write suggestions to store"@, AgentId::Agent3, seq![AgentId::Agent3]),
        ("agent4-1"@, "Implement suggestion surfaces"@, AgentId::Agent4, seq![AgentId::Agent3]),
        ("agent5-1"@, "Set up Nix scaffolding"@, AgentId::Agent5, seq![AgentId::Orchestrator]),
        ("agent5-2"@, "Set up CI scaffolding"@, AgentId::Agent5, seq![AgentId::Orchestrator]),
        ("agent6-1"@, "Finalize integration and testing"@, AgentId::Agent6, seq![AgentId::Orchestrator]),
    ]
}

/// The interface stubs: name, location, owner, signature and description.
pub open spec fn interface_table() -> Seq<(Seq<char>, Seq<char>, AgentId, Seq<char>, Seq<char>)> {
    seq![
        ("EventCapture"@, "src/lib/agent/capture.ts"@, AgentId::Agent1, "captureCommandStart(command: string, args: string[], cwd: string): Promise<void>"@, "Capture command start event"@),
        ("EventCapture"@, "src/lib/agent/capture.ts"@, AgentId::Agent1, "captureCommandResult(commandId: string, result: CommandResult): Promise<void>"@, "Capture command result event"@),
        ("StorageApi"@, "src-tauri/src/memory/api.rs"@, AgentId::Agent2, "async fn append_event(event: MemoryEvent) -> Result<()>"@, "Append event to storage"@),
        ("StorageApi"@, "src-tauri/src/memory/api.rs"@, AgentId::Agent2, "async fn list_sessions() -> Result<Vec<Session>>"@, "List all sessions"@),
        ("StorageApi"@, "src-tauri/src/memory/api.rs"@, AgentId::Agent2, "async fn persist_suggestion(suggestion: Suggestion) -> Result<()>"@, "Persist suggestion to store"@),
        ("AnalysisPipeline"@, "src/lib/agent/analysis-pipeline.ts"@, AgentId::Agent3, "enqueueFailure(commandId: string, events: TerminalObserverEvent[]): Promise<string | null>"@, "Enqueue command failure for analysis"@),
        ("SuggestionSurface"@, "src/lib/agent/surfaces.ts"@, AgentId::Agent4, "displaySuggestion(suggestion: Suggestion): void"@, "Display suggestion on surface"@),
    ]
}

/// The ownership boundaries: path, owner, description and whether shared.
pub open spec fn ownership_table() -> Seq<(Seq<char>, AgentId, Seq<char>, bool)> {
    seq![
        ("src-tauri/src/core"@, AgentId::Orchestrator, "Shared types and coordination mechanisms"@, true),
        ("src/lib/agent/capture.ts"@, AgentId::Agent1, "Event capture implementation"@, false),
        ("src/lib/core/observer.ts"@, AgentId::Agent1, "Terminal observer core"@, false),
        ("src-tauri/src/memory"@, AgentId::Agent2, "Storage APIs and memory schema"@, false),
        ("src/lib/agent/analysis-pipeline.ts"@, AgentId::Agent3, "Analysis pipeline implementation"@, false),
        ("src/lib/agent/analysis-service.ts"@, AgentId::Agent3, "Analysis service"@, false),
        ("src/lib/agent/analyzers"@, AgentId::Agent3, "Analysis analyzers"@, false),
        ("src/lib/agent/surfaces.ts"@, AgentId::Agent4, "Suggestion surfaces implementation"@, false),
        ("integrations"@, AgentId::Agent4, "Integration surfaces (tmux, wezterm, vim, etc.)"@, false),
        ("flake.nix"@, AgentId::Agent5, "Nix flake configuration"@, false),
        ("shell.nix"@, AgentId::Agent5, "Nix shell environment"@, false),
        (".github/workflows"@, AgentId::Agent5, "CI/CD workflows"@, false),
        ("ValidationChecklist.md"@, AgentId::Agent6, "Validation checklist updates"@, false),
    ]
}

/// `r` is the roadmap of `roadmap_table`.
pub open spec fn is_planned_roadmap(r: Seq<RoadmapItem>) -> bool {
    &&& r.len() == roadmap_table().len()
    &&& forall|i: int|
        0 <= i < r.len() ==> {
            &&& (#[trigger] r[i]).phase@ == roadmap_table()[i].0
            &&& r[i].description@ == roadmap_table()[i].1
            &&& r[i].agents@ =~= roadmap_table()[i].2
            &&& r[i].dependencies@.len() == roadmap_table()[i].3.len()
            &&& forall|k: int|
                0 <= k < r[i].dependencies@.len() ==> (#[trigger] r[i].dependencies@[k])@
                    == roadmap_table()[i].3[k]
        }
}

/// `t` is the task list of `task_table`, every task not started.
pub open spec fn is_planned_tasks(t: Seq<Task>) -> bool {
    &&& t.len() == task_table().len()
    &&& forall|i: int|
        0 <= i < t.len() ==> {
            &&& (#[trigger] t[i]).id@ == task_table()[i].0
            &&& t[i].description@ == task_table()[i].1
            &&& t[i].owner == task_table()[i].2
            &&& t[i].dependencies@ =~= task_table()[i].3
            &&& t[i].status == TaskStatus::NotStarted
        }
}

/// `s` is the stub list of `interface_table`.
pub open spec fn is_planned_interfaces(s: Seq<InterfaceStub>) -> bool {
    &&& s.len() == interface_table().len()
    &&& forall|i: int|
        0 <= i < s.len() ==> {
            &&& (#[trigger] s[i]).name@ == interface_table()[i].0
            &&& s[i].module_location@ == interface_table()[i].1
            &&& s[i].owner == interface_table()[i].2
            &&& s[i].signature@ == interface_table()[i].3
            &&& s[i].description@ == interface_table()[i].4
        }
}

/// `o` is the ownership list of `ownership_table`.
pub open spec fn is_planned_ownership(o: Seq<FileOwnership>) -> bool {
    &&& o.len() == ownership_table().len()
    &&& forall|i: int|
        0 <= i < o.len() ==> {
            &&& (#[trigger] o[i]).path@ == ownership_table()[i].0
            &&& o[i].owner == ownership_table()[i].1
            &&& o[i].description@ == ownership_table()[i].2
            &&& o[i].shared == ownership_table()[i].3
        }
}

/// The plan: its roadmap, tasks, interface stubs and ownership boundaries,
/// stamped with the time of the call.
pub fn create_execution_plan() -> (r: ExecutionPlan)
    ensures
        is_planned_roadmap(r.roadmap@),
        is_planned_tasks(r.tasks@),
        is_planned_interfaces(r.interfaces@),
        is_planned_ownership(r.file_ownership@),
{
    let roadmap = create_roadmap();
    let tasks = create_task_breakdown();
    let interfaces = create_interface_stubs();
    let file_ownership = create_file_ownership();
    ExecutionPlan { roadmap, tasks, interfaces, file_ownership, created_at: now_millis() }
}

/// The roadmap of five phases.
pub fn create_roadmap() -> (r: Vec<RoadmapItem>)
    ensures
        is_planned_roadmap(r@),
{
    let r = vec![
        RoadmapItem {
            phase: "phase-1-orchestration".to_string(),
            description: "Orchestrator creates roadmap, task breakdown, stubs interfaces, assigns ownership".to_string(),
            agents: vec![AgentId::Orchestrator],
            dependencies: vec![],
        },
        RoadmapItem {
            phase: "phase-2-parallel-agents".to_string(),
            description: "Agent 1 (event capture) and Agent 2 (storage APIs) run in parallel".to_string(),
            agents: vec![AgentId::Agent1, AgentId::Agent2],
            dependencies: vec!["phase-1-orchestration".to_string()],
        },
        RoadmapItem {
            phase: "phase-3-analysis".to_string(),
            description: "Agent 3 (analysis pipeline) starts after Agent 2 publishes APIs".to_string(),
            agents: vec![AgentId::Agent3],
            dependencies: vec!["phase-2-parallel-agents".to_string()],
        },
        RoadmapItem {
            phase: "phase-4-surfaces".to_string(),
            description: "Agent 4 (surfaces) starts after Agent 3 writes suggestions to store".to_string(),
            agents: vec![AgentId::Agent4],
            dependencies: vec!["phase-3-analysis".to_string()],
        },
        RoadmapItem {
            phase: "phase-5-continuous".to_string(),
            description: "Agent 5 (nix + CI) and Agent 6 (finalization) run continuously".to_string(),
            agents: vec![AgentId::Agent5, AgentId::Agent6],
            dependencies: vec!["phase-1-orchestration".to_string()],
        },
    ];
    r
}

/// The tasks of every identity, none started.
pub fn create_task_breakdown() -> (r: Vec<Task>)
    ensures
        is_planned_tasks(r@),
{
    let r = vec![
        Task {
            id: "orch-1".to_string(),
            description: "Create roadmap and task breakdown".to_string(),
            owner: AgentId::Orchestrator,
            dependencies: vec![],
            status: TaskStatus::NotStarted,
        },
        Task {
            id: "orch-2".to_string(),
            description: "Stub all interfaces".to_string(),
            owner: AgentId::Orchestrator,
            dependencies: vec![],
            status: TaskStatus::NotStarted,
        },
        Task {
            id: "orch-3".to_string(),
            description: "Assign file ownership boundaries".to_string(),
            owner: AgentId::Orchestrator,
            dependencies: vec![],
            status: TaskStatus::NotStarted,
        },
        Task {
            id: "agent1-1".to_string(),
            description: "Implement event capture system".to_string(),
            owner: AgentId::Agent1,
            dependencies: vec![AgentId::Orchestrator],
            status: TaskStatus::NotStarted,
        },
        Task {
            id: "agent2-1".to_string(),
            description: "Implement storage APIs".to_string(),
            owner: AgentId::Agent2,
            dependencies: vec![AgentId::Orchestrator],
            status: TaskStatus::NotStarted,
        },
        Task {
            id: "agent2-2".to_string(),
            description: "Publish storage API interface".to_string(),
            owner: AgentId::Agent2,
            dependencies: vec![AgentId::Agent2],
            status: TaskStatus::NotStarted,
        },
        Task {
            id: "agent3-1".to_string(),
            description: "Implement analysis pipeline".to_string(),
            owner: AgentId::Agent3,
            dependencies: vec![AgentId::Agent2],
            status: TaskStatus::NotStarted,
        },
        Task {
            id: "agent3-2".to_string(),
            description: "Write suggestions to store".to_string(),
            owner: AgentId::Agent3,
            dependencies: vec![AgentId::Agent3],
            status: TaskStatus::NotStarted,
        },
        Task {
            id: "agent4-1".to_string(),
            description: "Implement suggestion surfaces".to_string(),
            owner: AgentId::Agent4,
            dependencies: vec![AgentId::Agent3],
            status: TaskStatus::NotStarted,
        },
        Task {
            id: "agent5-1".to_string(),
            description: "Set up Nix scaffolding".to_string(),
            owner: AgentId::Agent5,
            dependencies: vec![AgentId::Orchestrator],
            status: TaskStatus::NotStarted,
        },
        Task {
            id: "agent5-2".to_string(),
            description: "Set up CI scaffolding".to_string(),
            owner: AgentId::Agent5,
            dependencies: vec![AgentId::Orchestrator],
            status: TaskStatus::NotStarted,
        },
        Task {
            id: "agent6-1".to_string(),
            description: "Finalize integration and testing".to_string(),
            owner: AgentId::Agent6,
            dependencies: vec![AgentId::Orchestrator],
            status: TaskStatus::NotStarted,
        },
    ];
    r
}

/// The interfaces the workers are expected to provide.
pub fn create_interface_stubs() -> (r: Vec<InterfaceStub>)
    ensures
        is_planned_interfaces(r@),
{
    let r = vec![
        InterfaceStub {
            name: "EventCapture".to_string(),
            module_location: "src/lib/agent/capture.ts".to_string(),
            owner: AgentId::Agent1,
            signature: "captureCommandStart(command: string, args: string[], cwd: string): Promise<void>".to_string(),
            description: "Capture command start event".to_string(),
        },
        InterfaceStub {
            name: "EventCapture".to_string(),
            module_location: "src/lib/agent/capture.ts".to_string(),
            owner: AgentId::Agent1,
            signature: "captureCommandResult(commandId: string, result: CommandResult): Promise<void>".to_string(),
            description: "Capture command result event".to_string(),
        },
        InterfaceStub {
            name: "StorageApi".to_string(),
            module_location: "src-tauri/src/memory/api.rs".to_string(),
            owner: AgentId::Agent2,
            signature: "async fn append_event(event: MemoryEvent) -> Result<()>".to_string(),
            description: "Append event to storage".to_string(),
        },
        InterfaceStub {
            name: "StorageApi".to_string(),
            module_location: "src-tauri/src/memory/api.rs".to_string(),
            owner: AgentId::Agent2,
            signature: "async fn list_sessions() -> Result<Vec<Session>>".to_string(),
            description: "List all sessions".to_string(),
        },
        InterfaceStub {
            name: "StorageApi".to_string(),
            module_location: "src-tauri/src/memory/api.rs".to_string(),
            owner: AgentId::Agent2,
            signature: "async fn persist_suggestion(suggestion: Suggestion) -> Result<()>".to_string(),
            description: "Persist suggestion to store".to_string(),
        },
        InterfaceStub {
            name: "AnalysisPipeline".to_string(),
            module_location: "src/lib/agent/analysis-pipeline.ts".to_string(),
            owner: AgentId::Agent3,
            signature: "enqueueFailure(commandId: string, events: TerminalObserverEvent[]): Promise<string | null>".to_string(),
            description: "Enqueue command failure for analysis".to_string(),
        },
        InterfaceStub {
            name: "SuggestionSurface".to_string(),
            module_location: "src/lib/agent/surfaces.ts".to_string(),
            owner: AgentId::Agent4,
            signature: "displaySuggestion(suggestion: Suggestion): void".to_string(),
            description: "Display suggestion on surface".to_string(),
        },
    ];
    r
}

/// The ownership boundary of every governed path.
pub fn create_file_ownership() -> (r: Vec<FileOwnership>)
    ensures
        is_planned_ownership(r@),
{
    let r = vec![
        FileOwnership {
            path: "src-tauri/src/core".to_string(),
            owner: AgentId::Orchestrator,
            description: "Shared types and coordination mechanisms".to_string(),
            shared: true,
        },
        FileOwnership {
            path: "src/lib/agent/capture.ts".to_string(),
            owner: AgentId::Agent1,
            description: "Event capture implementation".to_string(),
            shared: false,
        },
        FileOwnership {
            path: "src/lib/core/observer.ts".to_string(),
            owner: AgentId::Agent1,
            description: "Terminal observer core".to_string(),
            shared: false,
        },
        FileOwnership {
            path: "src-tauri/src/memory".to_string(),
            owner: AgentId::Agent2,
            description: "Storage APIs and memory schema".to_string(),
            shared: false,
        },
        FileOwnership {
            path: "src/lib/agent/analysis-pipeline.ts".to_string(),
            owner: AgentId::Agent3,
            description: "Analysis pipeline implementation".to_string(),
            shared: false,
        },
        FileOwnership {
            path: "src/lib/agent/analysis-service.ts".to_string(),
            owner: AgentId::Agent3,
            description: "Analysis service".to_string(),
            shared: false,
        },
        FileOwnership {
            path: "src/lib/agent/analyzers".to_string(),
            owner: AgentId::Agent3,
            description: "Analysis analyzers".to_string(),
            shared: false,
        },
        FileOwnership {
            path: "src/lib/agent/surfaces.ts".to_string(),
            owner: AgentId::Agent4,
            description: "Suggestion surfaces implementation".to_string(),
            shared: false,
        },
        FileOwnership {
            path: "integrations".to_string(),
            owner: AgentId::Agent4,
            description: "Integration surfaces (tmux, wezterm, vim, etc.)".to_string(),
            shared: false,
        },
        FileOwnership {
            path: "flake.nix".to_string(),
            owner: AgentId::Agent5,
            description: "Nix flake configuration".to_string(),
            shared: false,
        },
        FileOwnership {
            path: "shell.nix".to_string(),
            owner: AgentId::Agent5,
            description: "Nix shell environment".to_string(),
            shared: false,
        },
        FileOwnership {
            path: ".github/workflows".to_string(),
            owner: AgentId::Agent5,
            description: "CI/CD workflows".to_string(),
            shared: false,
        },
        FileOwnership {
            path: "ValidationChecklist.md".to_string(),
            owner: AgentId::Agent6,
            description: "Validation checklist updates".to_string(),
            shared: false,
        },
    ];
    r
}

} // verus!
