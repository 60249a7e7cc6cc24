use skulk::commands::destroy::{
    agent_destroy_branch_command, agent_destroy_session_command, agent_destroy_state_file_command,
    agent_destroy_worktree_command, destroy_all_names, destroy_all_prompt, destroy_all_steps,
    destroy_all_summary, destroy_prompt, destroy_report, destroy_steps, destroy_targets, step_command,
    step_label, DestroyStep, DestroyTargets,
};
use skulk::config::{Config, OutputFormat};
use skulk::error::SkulkError;
use skulk::inventory::AgentInventory;
use skulk::kvmap::KvMap;

fn test_config() -> Config {
    Config {
        host: "testhost".to_string(),
        session_prefix: "skulk-".to_string(),
        base_path: "~/test-project".to_string(),
        worktree_base: "~/test-project-worktrees".to_string(),
        default_branch: "main".to_string(),
        init_script: None,
        output_format: OutputFormat::Human,
        root_dir: None,
        harness: "coder".to_string(),
    }
}

fn make_inventory(sessions: &[&str], worktrees: &[(&str, &str)], branches: &[&str]) -> AgentInventory {
    let mut map = KvMap::new();
    for (k, v) in worktrees {
        map.insert(k.to_string(), v.to_string());
    }
    AgentInventory {
        sessions: sessions.iter().map(|s| s.to_string()).collect(),
        worktrees: map,
        branches: branches.iter().map(|s| s.to_string()).collect(),
    }
}

#[test]
fn agent_destroy_session_command_generates_kill() {
    let cfg = test_config();
    let cmd = agent_destroy_session_command("my-task", &cfg);
    assert_eq!(cmd, "tmux kill-session -t skulk-my-task");
}

#[test]
fn agent_destroy_worktree_command_generates_remove() {
    let cfg = test_config();
    let cmd = agent_destroy_worktree_command("my-task", &cfg);
    assert!(cmd.contains("git worktree remove --force ~/test-project-worktrees/skulk-my-task"));
    assert!(cmd.starts_with("cd ~/test-project"));
}

#[test]
fn agent_destroy_branch_command_generates_delete() {
    let cfg = test_config();
    let cmd = agent_destroy_branch_command("my-task", &cfg);
    assert!(cmd.contains("git branch -D skulk-my-task"));
    assert!(cmd.starts_with("cd ~/test-project"));
}

#[test]
fn agent_destroy_state_file_command_generates_rm_f() {
    let cfg = test_config();
    let cmd = agent_destroy_state_file_command("my-task", &cfg);
    assert_eq!(cmd, "rm -f ~/.skulk/state/skulk-my-task");
}

#[test]
fn destroy_targets_not_found() {
    let cfg = test_config();
    let inv = make_inventory(&[], &[], &[]);
    match destroy_targets("ghost", &inv, &cfg) {
        Err(SkulkError::NotFound(m)) => assert_eq!(m, "No agent 'ghost' found."),
        other => panic!("unexpected: {other:?}"),
    }
}

#[test]
fn destroy_targets_invalid_name() {
    let cfg = test_config();
    let inv = make_inventory(&[], &[], &[]);
    assert!(matches!(destroy_targets("-bad", &inv, &cfg), Err(SkulkError::Validation(_))));
}

#[test]
fn destroy_targets_finds_each_resource() {
    let cfg = test_config();
    let inv = make_inventory(&["skulk-a"], &[("skulk-a", "/p")], &[]);
    let t = destroy_targets("a", &inv, &cfg).unwrap();
    assert_eq!(t, DestroyTargets { has_session: true, has_worktree: true, has_branch: false });
}

#[test]
fn destroy_steps_worktree_brings_branch() {
    let t = DestroyTargets { has_session: true, has_worktree: true, has_branch: false };
    assert_eq!(destroy_steps(t), vec![DestroyStep::Session, DestroyStep::Worktree, DestroyStep::Branch]);
    let t = DestroyTargets { has_session: false, has_worktree: false, has_branch: true };
    assert_eq!(destroy_steps(t), vec![DestroyStep::Branch]);
    let t = DestroyTargets { has_session: true, has_worktree: false, has_branch: false };
    assert_eq!(destroy_steps(t), vec![DestroyStep::Session]);
}

#[test]
fn destroy_all_steps_only_present() {
    let t = DestroyTargets { has_session: false, has_worktree: true, has_branch: false };
    assert_eq!(destroy_all_steps(t), vec![DestroyStep::Worktree]);
    let t = DestroyTargets { has_session: true, has_worktree: true, has_branch: true };
    assert_eq!(destroy_all_steps(t), vec![DestroyStep::Session, DestroyStep::Worktree, DestroyStep::Branch]);
}

#[test]
fn step_labels_and_commands() {
    let cfg = test_config();
    assert_eq!(step_label(DestroyStep::Session), "tmux session");
    assert_eq!(step_label(DestroyStep::Worktree), "worktree");
    assert_eq!(step_label(DestroyStep::Branch), "branch");
    assert_eq!(step_command(DestroyStep::Branch, "x", &cfg), "cd ~/test-project && git branch -D skulk-x");
}

#[test]
fn destroy_report_messages() {
    let (done, warn) = destroy_report(
        "my-task",
        &vec!["tmux session".to_string(), "worktree".to_string()],
        &vec!["branch".to_string()],
    );
    assert_eq!(done.unwrap(), "Destroyed agent 'my-task' (tmux session, worktree).");
    assert_eq!(warn.unwrap(), "Warning: failed to clean up branch for agent 'my-task'. Run `skulk gc` to retry.");
    let (done, warn) = destroy_report("x", &vec![], &vec![]);
    assert!(done.is_none() && warn.is_none());
}

#[test]
fn destroy_prompts() {
    assert_eq!(destroy_prompt("my-task"), "Destroy agent 'my-task'? [y/N]");
    assert_eq!(destroy_all_prompt(3), "Destroy 3 agent(s)? [y/N]");
}

#[test]
fn destroy_all_names_sorted_unique_bare() {
    let cfg = test_config();
    let inv = make_inventory(&["skulk-b", "skulk-a"], &[("skulk-c", "/p"), ("skulk-a", "/q")], &["skulk-b", "skulk-d"]);
    assert_eq!(destroy_all_names(&inv, &cfg), vec!["a", "b", "c", "d"]);
    assert!(destroy_all_names(&make_inventory(&[], &[], &[]), &cfg).is_empty());
}

#[test]
fn destroy_all_summaries() {
    assert_eq!(destroy_all_summary(3, 0), "Destroyed 3 agent(s).");
    assert_eq!(destroy_all_summary(3, 1), "Destroyed 2 agent(s), 1 with warnings.");
}
