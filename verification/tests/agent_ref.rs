use skulk::agent_ref::AgentRef;
use skulk::config::{Config, OutputFormat};

fn test_config() -> Config {
    Config {
        host: "testhost".to_string(),
        session_prefix: "skulk-".to_string(),
        base_path: "~/test-project".to_string(),
        worktree_base: "~/test-project-worktrees".to_string(),
        default_branch: "main".to_string(),
        init_script: None,
        output_format: OutputFormat::Human,
        root_dir: None,
        harness: "coder".to_string(),
    }
}

#[test]
fn new_exposes_name_verbatim() {
    let cfg = test_config();
    let agent = AgentRef::new("my-task", &cfg);
    assert_eq!(agent.name(), "my-task");
}

#[test]
fn session_name_joins_prefix_and_name() {
    let cfg = test_config();
    let agent = AgentRef::new("my-task", &cfg);
    assert_eq!(agent.session_name(), "skulk-my-task");
}

#[test]
fn branch_name_equals_session_name() {
    let cfg = test_config();
    let agent = AgentRef::new("my-task", &cfg);
    assert_eq!(agent.branch_name(), agent.session_name());
}

#[test]
fn worktree_path_joins_base_and_session_name() {
    let cfg = test_config();
    let agent = AgentRef::new("my-task", &cfg);
    assert_eq!(
        agent.worktree_path(&cfg),
        "~/test-project-worktrees/skulk-my-task"
    );
}

#[test]
fn from_qualified_strips_prefix() {
    let cfg = test_config();
    let agent = AgentRef::from_qualified("skulk-my-task", &cfg);
    assert_eq!(agent.name(), "my-task");
    assert_eq!(agent.session_name(), "skulk-my-task");
}

#[test]
fn from_qualified_without_prefix_treats_whole_string_as_name() {
    let cfg = test_config();
    let agent = AgentRef::from_qualified("orphan", &cfg);
    assert_eq!(agent.name(), "orphan");
    assert_eq!(agent.session_name(), "skulk-orphan");
}

#[test]
fn honors_configured_prefix() {
    let mut cfg = test_config();
    cfg.session_prefix = "bot-".into();
    let agent = AgentRef::new("task", &cfg);
    assert_eq!(agent.session_name(), "bot-task");
    assert_eq!(
        agent.worktree_path(&cfg),
        "~/test-project-worktrees/bot-task"
    );
}

#[test]
fn qualify_then_unqualify_recovers_name() {
    let cfg = test_config();
    for name in ["a", "my-task", "feat/x", "skulk-nested"] {
        let agent = AgentRef::new(name, &cfg);
        let back = AgentRef::from_qualified(&agent.session_name(), &cfg);
        assert_eq!(back.name(), name);
    }
}
