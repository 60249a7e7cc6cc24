use std::cell::RefCell;
use std::collections::VecDeque;

use skulk::commands::flow::{Action, Event};
use skulk::commands::gc::GcRun;
use skulk::config::{Config, OutputFormat};
use skulk::error::SkulkError;

/// A scripted remote host: each command gets the next queued response.
struct MockSsh {
    responses: RefCell<VecDeque<Result<String, SkulkError>>>,
    calls: RefCell<Vec<String>>,
    stdout: RefCell<String>,
    stderr: RefCell<String>,
    clock: RefCell<u64>,
}

impl MockSsh {
    fn new(responses: Vec<Result<String, SkulkError>>) -> Self {
        MockSsh {
            responses: RefCell::new(responses.into()),
            calls: RefCell::new(Vec::new()),
            stdout: RefCell::new(String::new()),
            stderr: RefCell::new(String::new()),
            clock: RefCell::new(0),
        }
    }

    fn calls(&self) -> Vec<String> {
        self.calls.borrow().clone()
    }

    #[allow(dead_code)]
    fn stdout(&self) -> String {
        self.stdout.borrow().clone()
    }

    #[allow(dead_code)]
    fn stderr(&self) -> String {
        self.stderr.borrow().clone()
    }
}

/// Perform the actions of a command against the mock until it is done.
fn drive(ssh: &MockSsh, confirm: &dyn Fn(&str) -> bool, step: &mut dyn FnMut(Event) -> Action) -> Result<(), SkulkError> {
    let mut ev = Event::Begin;
    loop {
        match step(ev) {
            Action::Run(c) => {
                ssh.calls.borrow_mut().push(c);
                let r = ssh.responses.borrow_mut().pop_front().expect("MockSsh: unexpected extra SSH call");
                ev = Event::Output(r);
            }
            Action::Attach(c) => {
                ssh.calls.borrow_mut().push(c);
                ev = Event::Exited(Ok(true));
            }
            Action::Print(t) => {
                ssh.stdout.borrow_mut().push_str(&t);
                ev = Event::Shown;
            }
            Action::Note(t) => {
                ssh.stderr.borrow_mut().push_str(&t);
                ev = Event::Shown;
            }
            Action::Confirm(q) => {
                ev = Event::Answer(confirm(&q));
            }
            Action::Now => {
                ev = Event::Millis(*ssh.clock.borrow());
            }
            Action::Sleep(ms) => {
                *ssh.clock.borrow_mut() += ms.max(1);
                ev = Event::Shown;
            }
            Action::Prompt(_) | Action::Ask(_, _) | Action::Probe(_) => panic!("unexpected question"),
            Action::Done(r) => return r,
        }
    }
}

fn no_confirm(_q: &str) -> bool {
    panic!("unexpected confirmation")
}

fn ssh_ok() -> Result<String, SkulkError> {
    Ok(String::new())
}

#[allow(dead_code)]
fn ssh_err(msg: &str) -> Result<String, SkulkError> {
    Err(SkulkError::SshFailed(msg.to_string()))
}

fn test_config() -> Config {
    Config {
        host: "testhost".to_string(),
        session_prefix: "skulk-".to_string(),
        base_path: "~/test-project".to_string(),
        worktree_base: "~/test-project-worktrees".to_string(),
        default_branch: "main".to_string(),
        init_script: None,
        output_format: OutputFormat::Human,
        root_dir: None,
        harness: "coder".to_string(),
    }
}

#[allow(dead_code)]
fn mock_inventory(sessions: &[&str], worktrees: &[(&str, &str)], branches: &[&str]) -> String {
    let mut out = String::new();
    out.push_str("__SESSIONS_START__\n");
    for s in sessions {
        out.push_str(s);
        out.push('\n');
    }
    out.push_str("__SESSIONS_END__\n");
    out.push_str("__WORKTREES_START__\n");
    for (branch, path) in worktrees {
        out.push_str(&format!("worktree {path}\nHEAD abc123\nbranch refs/heads/{branch}\n\n"));
    }
    out.push_str("__WORKTREES_END__\n");
    out.push_str("__BRANCHES_START__\n");
    for b in branches {
        out.push_str(&format!("  {b}\n"));
    }
    out.push_str("__BRANCHES_END__\n");
    out
}

#[allow(dead_code)]
fn mock_empty_inventory() -> String {
    mock_inventory(&[], &[], &[])
}

#[allow(dead_code)]
fn mock_inventory_single_agent(name: &str) -> String {
    let path = format!("/path/{name}");
    mock_inventory(&[name], &[(name, &path)], &[name])
}

fn cmd_gc(ssh: &MockSsh, dry_run: bool, cfg: &Config) -> Result<(), SkulkError> {
    let mut m = GcRun::new(dry_run);
    drive(ssh, &no_confirm, &mut |ev| m.step(cfg, ev))
}

#[test]
fn cmd_gc_dry_run_with_orphans() {
    let cfg = test_config();
    let ssh = MockSsh::new(vec![Ok(mock_inventory(&["skulk-ghost"], &[], &[]))]);
    assert!(cmd_gc(&ssh, true, &cfg).is_ok());
}

#[test]
fn cmd_gc_clean_state() {
    let cfg = test_config();
    let ssh = MockSsh::new(vec![
        Ok(mock_inventory_single_agent("skulk-healthy")),
        // State dir empty -- nothing to reap.
        Ok(String::new()),
    ]);
    assert!(cmd_gc(&ssh, false, &cfg).is_ok());
}

#[test]
fn cmd_gc_cleans_orphaned_session() {
    let cfg = test_config();
    let ssh = MockSsh::new(vec![
        Ok(mock_inventory(&["skulk-ghost"], &[], &[])),
        ssh_ok(),          // kill session
        ssh_ok(),          // worktree prune
        Ok(String::new()), // state ls -- empty
    ]);
    assert!(cmd_gc(&ssh, false, &cfg).is_ok());
}

#[test]
fn cmd_gc_cleans_orphaned_worktree() {
    let cfg = test_config();
    let ssh = MockSsh::new(vec![
        // Branch absent -- truly dangling worktree, safe to reap.
        Ok(mock_inventory(
            &[],
            &[("skulk-stale", "/path/skulk-stale")],
            &[],
        )),
        ssh_ok(),          // worktree remove
        ssh_ok(),          // branch delete
        ssh_ok(),          // worktree prune
        Ok(String::new()), // state ls -- empty
    ]);
    assert!(cmd_gc(&ssh, false, &cfg).is_ok());
}

#[test]
fn cmd_gc_archived_agent_preserved() {
    // End-to-end: gc must not touch an archived agent's worktree or branch.
    // Only the inventory probe plus the state-file listing should run; no
    // destroy calls. (State listing is empty here -- see the companion
    // `cmd_gc_archived_agent_state_file_reaped` test for the case where a
    // state file does exist.)
    let cfg = test_config();
    let ssh = MockSsh::new(vec![
        Ok(mock_inventory(
            &[],
            &[("skulk-archived", "/path/skulk-archived")],
            &["skulk-archived"],
        )),
        Ok(String::new()), // state ls -- empty
    ]);
    assert!(cmd_gc(&ssh, false, &cfg).is_ok());
    let calls = ssh.calls();
    assert_eq!(
        calls.len(),
        2,
        "expected only inventory + state ls, got: {calls:?}"
    );
    assert!(
        !calls.iter().any(|c| c.contains("git worktree remove")
            || c.contains("git branch -D")
            || c.contains("tmux kill-session")),
        "no destroy calls should run for an archived agent: {calls:?}"
    );
}

#[test]
fn cmd_gc_cleans_orphaned_branch() {
    let cfg = test_config();
    let ssh = MockSsh::new(vec![
        Ok(mock_inventory(&[], &[], &["skulk-leftover"])),
        ssh_ok(),          // branch delete
        ssh_ok(),          // worktree prune
        Ok(String::new()), // state ls -- empty
    ]);
    assert!(cmd_gc(&ssh, false, &cfg).is_ok());
}

#[test]
fn cmd_gc_dry_run_does_not_modify() {
    let cfg = test_config();
    let ssh = MockSsh::new(vec![Ok(mock_inventory(
        &["skulk-ghost"],
        &[("skulk-stale", "/path/skulk-stale")],
        &["skulk-leftover"],
    ))]);
    assert!(cmd_gc(&ssh, true, &cfg).is_ok());
}

#[test]
fn cmd_gc_session_cleanup_fails() {
    let cfg = test_config();
    let ssh = MockSsh::new(vec![
        Ok(mock_inventory(&["skulk-ghost"], &[], &[])),
        Err(SkulkError::SshFailed("kill-session failed".into())),
        ssh_ok(),          // worktree prune
        Ok(String::new()), // state ls -- empty
    ]);
    assert!(cmd_gc(&ssh, false, &cfg).is_ok());
}

#[test]
fn cmd_gc_worktree_cleanup_fails() {
    let cfg = test_config();
    let ssh = MockSsh::new(vec![
        Ok(mock_inventory(
            &[],
            &[("skulk-stale", "/path/skulk-stale")],
            &[],
        )),
        Err(SkulkError::SshFailed("worktree remove failed".into())),
        ssh_ok(),          // branch delete
        ssh_ok(),          // worktree prune
        Ok(String::new()), // state ls -- empty
    ]);
    assert!(cmd_gc(&ssh, false, &cfg).is_ok());
}

#[test]
fn cmd_gc_branch_cleanup_fails() {
    let cfg = test_config();
    let ssh = MockSsh::new(vec![
        Ok(mock_inventory(&[], &[], &["skulk-leftover"])),
        Err(SkulkError::SshFailed("branch delete failed".into())),
        ssh_ok(),          // worktree prune
        Ok(String::new()), // state ls -- empty
    ]);
    assert!(cmd_gc(&ssh, false, &cfg).is_ok());
}

#[test]
fn cmd_gc_removes_stale_state_file_with_no_session() {
    // State file exists for a session that isn't running and has no
    // worktree/branch -- classic leak (hook fired, then destroy cleaned
    // up everything but the marker on a pre-cleanup version of skulk).
    let cfg = test_config();
    let ssh = MockSsh::new(vec![
        Ok(mock_empty_inventory()),
        Ok("skulk-stale\n".to_string()), // state ls
        ssh_ok(),                        // rm -f ~/.skulk/state/skulk-stale
    ]);
    assert!(cmd_gc(&ssh, false, &cfg).is_ok());
    let calls = ssh.calls();
    assert!(
        calls
            .iter()
            .any(|c| c == "rm -f ~/.skulk/state/skulk-stale"),
        "expected rm of stale state file, got: {calls:?}"
    );
}

#[test]
fn cmd_gc_preserves_state_file_for_live_session() {
    // Live healthy agent -- its state file must be preserved.
    let cfg = test_config();
    let ssh = MockSsh::new(vec![
        Ok(mock_inventory_single_agent("skulk-live")),
        Ok("skulk-live\n".to_string()), // state ls lists the live session
    ]);
    assert!(cmd_gc(&ssh, false, &cfg).is_ok());
    let calls = ssh.calls();
    assert!(
        !calls.iter().any(|c| c.starts_with("rm -f ~/.skulk/state/")),
        "must not rm state file for live session: {calls:?}"
    );
}

#[test]
fn cmd_gc_reaps_state_for_killed_orphan_session() {
    // Orphan session gets killed during gc; its state file should also be
    // reaped (the session is no longer in the "surviving" set).
    let cfg = test_config();
    let ssh = MockSsh::new(vec![
        Ok(mock_inventory(&["skulk-ghost"], &[], &[])),
        ssh_ok(),                        // kill session
        ssh_ok(),                        // worktree prune
        Ok("skulk-ghost\n".to_string()), // state ls
        ssh_ok(),                        // rm -f ~/.skulk/state/skulk-ghost
    ]);
    assert!(cmd_gc(&ssh, false, &cfg).is_ok());
    let calls = ssh.calls();
    assert!(
        calls
            .iter()
            .any(|c| c == "rm -f ~/.skulk/state/skulk-ghost"),
        "expected rm of state file for killed orphan: {calls:?}"
    );
}

#[test]
fn cmd_gc_archived_agent_state_file_reaped() {
    // Archived agent (no session, has worktree+branch): worktree/branch
    // are preserved for `skulk restart`, but the state file is tied to
    // the tmux session lifetime and is reaped. A fresh marker is written
    // on the next turn after restart.
    let cfg = test_config();
    let ssh = MockSsh::new(vec![
        Ok(mock_inventory(
            &[],
            &[("skulk-archived", "/path/skulk-archived")],
            &["skulk-archived"],
        )),
        Ok("skulk-archived\n".to_string()), // state ls
        ssh_ok(),                           // rm -f ~/.skulk/state/skulk-archived
    ]);
    assert!(cmd_gc(&ssh, false, &cfg).is_ok());
    let calls = ssh.calls();
    assert!(
        calls
            .iter()
            .any(|c| c == "rm -f ~/.skulk/state/skulk-archived"),
        "archived agent's state file should be reaped: {calls:?}"
    );
    assert!(
        !calls
            .iter()
            .any(|c| c.contains("git worktree remove") || c.contains("git branch -D")),
        "archived worktree + branch must not be touched: {calls:?}"
    );
}

#[test]
fn cmd_gc_ignores_non_prefixed_state_entries() {
    // Another tool could share `~/.skulk/state/`. Don't touch its files.
    let cfg = test_config();
    let ssh = MockSsh::new(vec![
        Ok(mock_empty_inventory()),
        Ok("other-tool-data\nunrelated\n".to_string()),
    ]);
    assert!(cmd_gc(&ssh, false, &cfg).is_ok());
    let calls = ssh.calls();
    assert!(
        !calls.iter().any(|c| c.starts_with("rm -f ~/.skulk/state/")),
        "must not rm entries outside our prefix: {calls:?}"
    );
}


#[test]
fn cmd_gc_dry_run_skips_state_cleanup() {
    // Dry run must be side-effect free: no state ls, no rm. The caller
    // wants to see what *would* be touched, and (for now) state files
    // aren't reported in the summary; skipping the probe entirely keeps
    // dry-run fully observational.
    let cfg = test_config();
    let ssh = MockSsh::new(vec![Ok(mock_empty_inventory())]);
    assert!(cmd_gc(&ssh, true, &cfg).is_ok());
    assert_eq!(
        ssh.calls().len(),
        1,
        "dry-run should only probe inventory, got: {:?}",
        ssh.calls()
    );
}

#[test]
fn gc_reports_progress_and_summary() {
    let cfg = test_config();
    let ssh = MockSsh::new(vec![
        Ok(mock_inventory(&["skulk-ghost"], &[], &[])),
        ssh_err("kill failed"),
        ssh_ok(),
        Ok(String::new()),
    ]);
    assert!(cmd_gc(&ssh, false, &cfg).is_ok());
    assert_eq!(ssh.calls()[1], "tmux kill-session -t skulk-ghost");
    assert_eq!(ssh.calls()[2], "cd ~/test-project && git worktree prune");
    assert_eq!(ssh.calls()[3], "ls ~/.skulk/state/ 2>/dev/null || true");
    assert_eq!(ssh.stderr(), "  Killing orphaned session skulk-ghost... failed\n");
    assert_eq!(
        ssh.stdout(),
        "\nCleaned 1 orphaned tmux session(s):\n  - skulk-ghost\n\nTotal: 1 orphaned resource(s).\n"
    );
}

#[test]
fn gc_worktree_failure_is_done_with_warnings() {
    let cfg = test_config();
    let ssh = MockSsh::new(vec![
        Ok(mock_inventory(&[], &[("skulk-stale", "/path/skulk-stale")], &[])),
        ssh_err("worktree remove failed"),
        ssh_ok(),
        ssh_ok(),
        Ok("skulk-stale\n".to_string()),
        ssh_ok(),
    ]);
    assert!(cmd_gc(&ssh, false, &cfg).is_ok());
    assert_eq!(
        ssh.calls()[1],
        "cd ~/test-project && git worktree remove --force ~/test-project-worktrees/skulk-stale"
    );
    assert_eq!(ssh.calls()[2], "cd ~/test-project && git branch -D skulk-stale");
    assert_eq!(ssh.calls()[5], "rm -f ~/.skulk/state/skulk-stale");
    assert_eq!(
        ssh.stderr(),
        "  Removing orphaned worktree skulk-stale... done (with warnings)\n  Removing stale state file skulk-stale... done\n"
    );
}

#[test]
fn gc_dry_run_prints_would_clean() {
    let cfg = test_config();
    let ssh = MockSsh::new(vec![Ok(mock_inventory(&["skulk-ghost"], &[], &["skulk-leftover"]))]);
    assert!(cmd_gc(&ssh, true, &cfg).is_ok());
    assert_eq!(
        ssh.stdout(),
        "Would clean 1 orphaned tmux session(s):\n  - skulk-ghost\nWould clean 1 orphaned branch(es):\n  - skulk-leftover\n\nTotal: 2 orphaned resource(s).\n"
    );
}

#[test]
fn gc_clean_host_says_everything_is_clean() {
    let cfg = test_config();
    let ssh = MockSsh::new(vec![Ok(mock_inventory_single_agent("skulk-live")), Err(SkulkError::SshFailed("ls failed".into()))]);
    assert!(cmd_gc(&ssh, false, &cfg).is_ok());
    assert_eq!(ssh.stdout(), "No orphaned resources found. Everything is clean.\n");
    assert_eq!(ssh.calls().len(), 2);
}

#[test]
fn gc_inventory_failure_is_returned() {
    let cfg = test_config();
    let ssh = MockSsh::new(vec![Err(SkulkError::SshExec("no ssh".into()))]);
    assert!(matches!(cmd_gc(&ssh, false, &cfg), Err(SkulkError::SshExec(_))));
}

#[test]
fn cmd_gc_ignores_state_entries_with_invalid_names() {
    // A state file whose suffix is not a plain `[a-z0-9-]` agent name is
    // never handed to `rm`, so it cannot smuggle in shell metacharacters.
    let cfg = test_config();
    let ssh = MockSsh::new(vec![
        Ok(mock_empty_inventory()),
        Ok("skulk-UPPER\nskulk-with space\nskulk-semi;colon\n".to_string()),
    ]);
    assert!(cmd_gc(&ssh, false, &cfg).is_ok());
    let calls = ssh.calls();
    assert!(
        !calls.iter().any(|c| c.starts_with("rm -f ~/.skulk/state/")),
        "must not rm invalid-named entries: {calls:?}"
    );
}
