use runebook::coordination::ApiRegistry;
use runebook::ownership::OwnershipManager;
use runebook::types::{AgentId, ApiPublished, FileOwnership};

fn record(path: &str, owner: AgentId, shared: bool) -> FileOwnership {
    FileOwnership { path: path.to_string(), owner, description: "d".to_string(), shared }
}

fn api(agent: AgentId, name: &str, version: &str) -> ApiPublished {
    ApiPublished {
        agent,
        api_name: name.to_string(),
        interface_path: "p".to_string(),
        version: version.to_string(),
        timestamp: 1_700_000_000_000,
    }
}

#[test]
fn unregistered_path_is_modifiable_by_anyone() {
    let m = OwnershipManager::new();
    assert!(m.can_modify(AgentId::Agent1, "anything/at/all"));
    assert!(m.can_modify(AgentId::Agent6, ""));
    assert_eq!(m.get_owner("anything/at/all"), None);
}

#[test]
fn registered_path_only_modifiable_by_owner() {
    let mut m = OwnershipManager::new();
    m.register(record("a/b", AgentId::Agent2, false));
    assert!(m.can_modify(AgentId::Agent2, "a/b"));
    assert!(!m.can_modify(AgentId::Agent3, "a/b"));
    assert!(m.can_modify(AgentId::Agent3, "a/bc"));
    assert_eq!(m.get_owner("a/b"), Some(AgentId::Agent2));
}

#[test]
fn shared_flag_does_not_relax_modify() {
    let mut m = OwnershipManager::new();
    m.register(record("core", AgentId::Orchestrator, true));
    assert!(!m.can_modify(AgentId::Agent1, "core"));
    assert!(m.can_modify(AgentId::Orchestrator, "core"));
    assert!(m.can_read(AgentId::Agent1, "core"));
    assert!(m.can_read(AgentId::Agent1, "unregistered"));
}

#[test]
fn register_overwrites_by_path() {
    let mut m = OwnershipManager::new();
    m.register(record("x", AgentId::Agent1, false));
    m.register(record("y", AgentId::Agent1, false));
    m.register(record("x", AgentId::Agent4, true));
    assert_eq!(m.get_owner("x"), Some(AgentId::Agent4));
    let files = m.get_agent_files(AgentId::Agent1);
    assert_eq!(files.len(), 1);
    assert_eq!(files[0].path, "y");
    let files = m.get_agent_files(AgentId::Agent4);
    assert_eq!(files.len(), 1);
    assert!(files[0].shared);
}

#[test]
fn agent_files_in_registry_order() {
    let mut m = OwnershipManager::new();
    m.register(record("first", AgentId::Agent3, false));
    m.register(record("other", AgentId::Agent1, false));
    m.register(record("second", AgentId::Agent3, false));
    let files: Vec<&str> =
        m.get_agent_files(AgentId::Agent3).iter().map(|o| o.path.as_str()).collect();
    assert_eq!(files, vec!["first", "second"]);
    assert!(m.get_agent_files(AgentId::Agent6).is_empty());
}

#[test]
fn api_registry_lookups() {
    let mut r = ApiRegistry::new();
    assert!(!r.is_published("StorageApi"));
    assert!(r.get_api("StorageApi").is_none());
    r.register(api(AgentId::Agent2, "StorageApi", "1.0.0"));
    r.register(api(AgentId::Agent1, "Capture", "0.1.0"));
    assert!(r.is_published("StorageApi"));
    assert!(!r.is_published("storageapi"));
    assert_eq!(r.get_api("Capture").unwrap().agent, AgentId::Agent1);
    assert_eq!(r.get_agent_apis(AgentId::Agent2).len(), 1);
    assert_eq!(r.get_agent_apis(AgentId::Agent3).len(), 0);
}

#[test]
fn api_republication_last_write_wins() {
    let mut r = ApiRegistry::new();
    r.register(api(AgentId::Agent2, "X", "1.0.0"));
    r.register(api(AgentId::Agent5, "X", "2.0.0"));
    let x = r.get_api("X").unwrap();
    assert_eq!(x.agent, AgentId::Agent5);
    assert_eq!(x.version, "2.0.0");
    assert!(r.get_agent_apis(AgentId::Agent2).is_empty());
    assert_eq!(r.get_agent_apis(AgentId::Agent5).len(), 1);
}
