use serde_json::Value;
use skulk::commands::list::{json_sessions as json_records, ListSession};
use skulk::config::{Config, OutputFormat};
use skulk::inventory::AgentState;

fn test_config_json() -> Config {
    Config {
        host: "testhost".to_string(),
        session_prefix: "skulk-".to_string(),
        base_path: "~/test-project".to_string(),
        worktree_base: "~/test-project-worktrees".to_string(),
        default_branch: "main".to_string(),
        init_script: None,
        output_format: OutputFormat::Json,
        root_dir: None,
        harness: "coder".to_string(),
    }
}

fn make_session(name: &str, created: i64, state: AgentState, worktree: Option<&str>) -> ListSession {
    ListSession { name: name.to_string(), created, state, worktree: worktree.map(|w| w.to_string()) }
}

/// The JSON array `skulk list --json` prints for these sessions.
fn json_sessions(sessions: &[ListSession], remote_now: i64, cfg: &Config) -> Value {
    let owned: Vec<ListSession> = sessions
        .iter()
        .map(|s| ListSession { name: s.name.clone(), created: s.created, state: s.state, worktree: s.worktree.clone() })
        .collect();
    let records = json_records(&owned, remote_now, cfg);
    let mut arr = Vec::new();
    for r in records {
        let mut m = serde_json::Map::new();
        m.insert("name".to_string(), Value::from(r.name));
        m.insert("status".to_string(), Value::from(r.status));
        m.insert("branch".to_string(), Value::from(r.branch));
        m.insert("uptime_secs".to_string(), match r.uptime_secs {
            Some(u) => Value::from(u),
            None => Value::Null,
        });
        m.insert("session_created_epoch".to_string(), Value::from(r.session_created_epoch));
        arr.push(Value::Object(m));
    }
    Value::Array(arr)
}

#[test]
fn json_sessions_emits_array() {
    let cfg = test_config_json();
    let sessions = vec![make_session(
        "skulk-my-task",
        1_700_000_000,
        AgentState::Detached,
        Some("/home/user/agents/skulk-my-task"),
    )];
    let value = json_sessions(&sessions, 1_700_000_200, &cfg);
    assert!(value.is_array());
    assert_eq!(value.as_array().unwrap().len(), 1);
}

#[test]
fn json_sessions_includes_required_fields() {
    let cfg = test_config_json();
    let sessions = vec![make_session(
        "skulk-my-task",
        1_700_000_000,
        AgentState::Detached,
        Some("/home/user/worktrees/skulk-my-task"),
    )];
    let value = json_sessions(&sessions, 1_700_000_200, &cfg);
    let obj = &value[0];
    assert_eq!(obj["name"], "my-task");
    assert_eq!(obj["status"], "detached");
    // branch is derived from the session name, not the worktree path
    assert_eq!(obj["branch"], "skulk-my-task");
    assert_eq!(obj["uptime_secs"], 200_i64);
    assert_eq!(obj["session_created_epoch"], 1_700_000_000_i64);
}

#[test]
fn json_sessions_stopped_agent_has_null_uptime() {
    let cfg = test_config_json();
    let sessions = vec![make_session(
        "skulk-zombie",
        0,
        AgentState::Stopped,
        Some("/wt/skulk-zombie"),
    )];
    let value = json_sessions(&sessions, 1_700_000_000, &cfg);
    let obj = &value[0];
    assert_eq!(obj["status"], "stopped");
    assert!(obj["uptime_secs"].is_null());
}

#[test]
fn json_sessions_strips_session_prefix_from_name() {
    let cfg = test_config_json();
    let sessions = vec![make_session(
        "skulk-feature-x",
        1_700_000_000,
        AgentState::Idle,
        None,
    )];
    let value = json_sessions(&sessions, 1_700_000_100, &cfg);
    assert_eq!(value[0]["name"], "feature-x");
}

#[test]
fn json_sessions_branch_derived_from_session_name_when_no_worktree() {
    // branch is always the branch name from the session name, not the
    // worktree path — so it is never empty, even for stopped agents.
    let cfg = test_config_json();
    let sessions = vec![make_session(
        "skulk-task",
        1_700_000_000,
        AgentState::Detached,
        None,
    )];
    let value = json_sessions(&sessions, 1_700_000_100, &cfg);
    assert_eq!(value[0]["branch"], "skulk-task");
}

#[test]
fn list_json_output_name_field_strips_session_prefix() {
    // The `name` field in JSON output must be the short agent name (without
    // the session prefix), matching what `AgentRef::name()` returns.
    let cfg = test_config_json();
    let sessions = vec![make_session(
        "skulk-my-feature",
        1_700_000_000,
        AgentState::Detached,
        None,
    )];
    let value = json_sessions(&sessions, 1_700_000_100, &cfg);
    assert_eq!(
        value[0]["name"], "my-feature",
        "name field must strip session prefix"
    );
}

#[test]
fn list_json_output_stopped_agent_has_null_uptime() {
    // Stopped agents have no running tmux session so uptime is undefined;
    // the JSON output must represent this as a JSON null, not a number.
    let cfg = test_config_json();
    let sessions = vec![make_session(
        "skulk-dead-agent",
        0,
        AgentState::Stopped,
        Some("/wt/skulk-dead-agent"),
    )];
    let value = json_sessions(&sessions, 1_700_000_000, &cfg);
    let obj = &value[0];
    assert_eq!(obj["status"], "stopped");
    assert!(
        obj["uptime_secs"].is_null(),
        "uptime_secs must be null for stopped agents, got: {}",
        obj["uptime_secs"]
    );
}
