use skulk::config::{Config, OutputFormat};
use skulk::inventory::{
    get_worktree_map, inventory_command, parse_inventory, parse_sessions, resolve_agent_state,
    AgentState, GcOrphans,
};

fn test_config() -> Config {
    Config {
        host: "testhost".to_string(),
        session_prefix: "skulk-".to_string(),
        base_path: "~/test-project".to_string(),
        worktree_base: "~/test-project-worktrees".to_string(),
        default_branch: "main".to_string(),
        init_script: None,
        output_format: OutputFormat::Human,
        root_dir: None,
        harness: "coder".to_string(),
    }
}

#[test]
fn inventory_parse_sessions_single_line() {
    let raw = "skulk-test\t1700000000\t1700000100\t0\n";
    let sessions = parse_sessions(raw);
    assert_eq!(sessions.len(), 1);
    assert_eq!(sessions[0].name, "skulk-test");
    assert_eq!(sessions[0].created, 1700000000);
    assert_eq!(sessions[0].activity, 1700000100);
    assert_eq!(sessions[0].state, AgentState::Detached);
    assert!(sessions[0].worktree.is_none());
}

#[test]
fn inventory_parse_sessions_empty_input() {
    let sessions = parse_sessions("");
    assert!(sessions.is_empty());
}

#[test]
fn inventory_parse_sessions_malformed_skipped() {
    let sessions = parse_sessions("bad\tdata");
    assert!(sessions.is_empty());
}

#[test]
fn inventory_parse_sessions_multiple_lines() {
    let raw = "skulk-a\t1\t2\t0\nskulk-b\t3\t4\t1\n";
    let sessions = parse_sessions(raw);
    assert_eq!(sessions.len(), 2);
    assert_eq!(sessions[0].state, AgentState::Detached);
    assert_eq!(sessions[1].state, AgentState::Attached);
}

#[test]
fn resolve_agent_state_stopped_when_session_gone() {
    assert_eq!(resolve_agent_state(&AgentState::Stopped, 0, None), AgentState::Stopped);
    assert_eq!(resolve_agent_state(&AgentState::Stopped, 1000, Some(2000)), AgentState::Stopped);
}

#[test]
fn resolve_agent_state_preserves_live_state_without_marker() {
    assert_eq!(resolve_agent_state(&AgentState::Detached, 1000, None), AgentState::Detached);
    assert_eq!(resolve_agent_state(&AgentState::Attached, 1000, None), AgentState::Attached);
}

#[test]
fn resolve_agent_state_idle_when_mtime_ge_activity() {
    assert_eq!(resolve_agent_state(&AgentState::Detached, 1000, Some(1000)), AgentState::Idle);
    assert_eq!(resolve_agent_state(&AgentState::Attached, 1000, Some(1005)), AgentState::Idle);
}

#[test]
fn resolve_agent_state_working_when_activity_after_mtime() {
    assert_eq!(resolve_agent_state(&AgentState::Detached, 2000, Some(1000)), AgentState::Detached);
    assert_eq!(resolve_agent_state(&AgentState::Attached, 2000, Some(1000)), AgentState::Attached);
}

#[test]
fn inventory_gc_orphans_total() {
    let orphans = GcOrphans {
        sessions: vec!["a".into()],
        worktrees: vec!["b".into(), "c".into()],
        branches: vec!["d".into()],
    };
    assert_eq!(orphans.total(), 4);
    assert!(!orphans.is_empty());
}

#[test]
fn gc_orphans_empty_has_zero_total() {
    let orphans = GcOrphans { sessions: vec![], worktrees: vec![], branches: vec![] };
    assert_eq!(orphans.total(), 0);
    assert!(orphans.is_empty());
}

#[test]
fn worktree_map_parses_agent_entries() {
    let cfg = test_config();
    let input = "\
worktree /home/user/acme-consultancy
HEAD abc123
branch refs/heads/main

worktree /home/user/acme-consultancy-agents/skulk-my-task
HEAD def456
branch refs/heads/skulk-my-task

";
    let map = get_worktree_map(input, &cfg);
    assert_eq!(map.len(), 1);
    assert_eq!(
        map.get("skulk-my-task").unwrap(),
        "/home/user/acme-consultancy-agents/skulk-my-task"
    );
}

#[test]
fn worktree_map_skips_non_agent() {
    let cfg = test_config();
    let input = "\
worktree /home/user/project
HEAD abc123
branch refs/heads/main

worktree /home/user/project-feature
HEAD def456
branch refs/heads/feature-x

";
    let map = get_worktree_map(input, &cfg);
    assert!(map.is_empty());
}

#[test]
fn worktree_map_empty_input() {
    let cfg = test_config();
    let map = get_worktree_map("", &cfg);
    assert!(map.is_empty());
}

#[test]
fn worktree_map_with_extra_metadata() {
    let cfg = test_config();
    let input = "\
worktree /home/user/acme-consultancy-agents/skulk-test
HEAD abc123
branch refs/heads/skulk-test
prunable

worktree /home/user/other
HEAD def456
detached

";
    let map = get_worktree_map(input, &cfg);
    assert_eq!(map.len(), 1);
    assert_eq!(
        map.get("skulk-test").unwrap(),
        "/home/user/acme-consultancy-agents/skulk-test"
    );
}

#[test]
fn parse_inventory_full() {
    let cfg = test_config();
    let raw = "\
__SESSIONS_START__
skulk-task1
skulk-task2
other-session
__SESSIONS_END__
__WORKTREES_START__
worktree /home/user/acme-consultancy
HEAD abc123
branch refs/heads/main

worktree /home/user/acme-consultancy-agents/skulk-task1
HEAD def456
branch refs/heads/skulk-task1

__WORKTREES_END__
__BRANCHES_START__
  skulk-task1
  skulk-task2
  feature-unrelated
__BRANCHES_END__
";
    let inv = parse_inventory(raw, &cfg);
    assert_eq!(inv.sessions, vec!["skulk-task1", "skulk-task2"]);
    assert_eq!(inv.worktrees.len(), 1);
    assert_eq!(
        inv.worktrees.get("skulk-task1").unwrap(),
        "/home/user/acme-consultancy-agents/skulk-task1"
    );
    assert_eq!(inv.branches, vec!["skulk-task1", "skulk-task2"]);
}

#[test]
fn parse_inventory_empty_sections() {
    let cfg = test_config();
    let raw = "\
__SESSIONS_START__
__SESSIONS_END__
__WORKTREES_START__
__WORKTREES_END__
__BRANCHES_START__
__BRANCHES_END__
";
    let inv = parse_inventory(raw, &cfg);
    assert!(inv.sessions.is_empty());
    assert!(inv.worktrees.is_empty());
    assert!(inv.branches.is_empty());
}

#[test]
fn parse_inventory_partial_state() {
    let cfg = test_config();
    let raw = "\
__SESSIONS_START__
skulk-orphan
__SESSIONS_END__
__WORKTREES_START__
worktree /home/user/acme-consultancy
HEAD abc123
branch refs/heads/main

__WORKTREES_END__
__BRANCHES_START__
  skulk-orphan
__BRANCHES_END__
";
    let inv = parse_inventory(raw, &cfg);
    assert_eq!(inv.sessions, vec!["skulk-orphan"]);
    assert!(inv.worktrees.is_empty());
    assert_eq!(inv.branches, vec!["skulk-orphan"]);
}

#[test]
fn inventory_command_names_the_three_sections() {
    let cmd = inventory_command(&test_config());
    assert!(cmd.contains("__SESSIONS_START__"));
    assert!(cmd.contains("__WORKTREES_START__"));
    assert!(cmd.contains("__BRANCHES_START__"));
    assert!(cmd.contains("~/test-project"));
    assert!(cmd.contains("skulk-"));
}
