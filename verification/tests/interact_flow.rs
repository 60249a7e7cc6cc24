use std::cell::RefCell;
use std::collections::VecDeque;

use skulk::commands::flow::{Action, Event};
use skulk::commands::interact::{AgentTask, Connect, DiffFormat, Follow, Send, TaskKind};
use std::time::Duration;
use skulk::config::{Config, OutputFormat};
use skulk::error::SkulkError;

/// A scripted remote host: each command gets the next queued response.
struct MockSsh {
    responses: RefCell<VecDeque<Result<String, SkulkError>>>,
    calls: RefCell<Vec<String>>,
    stdout: RefCell<String>,
    stderr: RefCell<String>,
    clock: RefCell<u64>,
}

impl MockSsh {
    fn new(responses: Vec<Result<String, SkulkError>>) -> Self {
        MockSsh {
            responses: RefCell::new(responses.into()),
            calls: RefCell::new(Vec::new()),
            stdout: RefCell::new(String::new()),
            stderr: RefCell::new(String::new()),
            clock: RefCell::new(0),
        }
    }

    fn calls(&self) -> Vec<String> {
        self.calls.borrow().clone()
    }

    #[allow(dead_code)]
    fn stdout(&self) -> String {
        self.stdout.borrow().clone()
    }

    #[allow(dead_code)]
    fn stderr(&self) -> String {
        self.stderr.borrow().clone()
    }
}

/// Perform the actions of a command against the mock until it is done.
fn drive(ssh: &MockSsh, confirm: &dyn Fn(&str) -> bool, step: &mut dyn FnMut(Event) -> Action) -> Result<(), SkulkError> {
    let mut ev = Event::Begin;
    loop {
        match step(ev) {
            Action::Run(c) => {
                ssh.calls.borrow_mut().push(c);
                let r = ssh.responses.borrow_mut().pop_front().expect("MockSsh: unexpected extra SSH call");
                ev = Event::Output(r);
            }
            Action::Attach(c) => {
                ssh.calls.borrow_mut().push(c);
                ev = Event::Exited(Ok(true));
            }
            Action::Print(t) => {
                ssh.stdout.borrow_mut().push_str(&t);
                ev = Event::Shown;
            }
            Action::Note(t) => {
                ssh.stderr.borrow_mut().push_str(&t);
                ev = Event::Shown;
            }
            Action::Confirm(q) => {
                ev = Event::Answer(confirm(&q));
            }
            Action::Now => {
                ev = Event::Millis(*ssh.clock.borrow());
            }
            Action::Sleep(ms) => {
                *ssh.clock.borrow_mut() += ms.max(1);
                ev = Event::Shown;
            }
            Action::Prompt(_) | Action::Ask(_, _) | Action::Probe(_) => panic!("unexpected question"),
            Action::Done(r) => return r,
        }
    }
}

fn no_confirm(_q: &str) -> bool {
    panic!("unexpected confirmation")
}

fn ssh_ok() -> Result<String, SkulkError> {
    Ok(String::new())
}

#[allow(dead_code)]
fn ssh_err(msg: &str) -> Result<String, SkulkError> {
    Err(SkulkError::SshFailed(msg.to_string()))
}

fn test_config() -> Config {
    Config {
        host: "testhost".to_string(),
        session_prefix: "skulk-".to_string(),
        base_path: "~/test-project".to_string(),
        worktree_base: "~/test-project-worktrees".to_string(),
        default_branch: "main".to_string(),
        init_script: None,
        output_format: OutputFormat::Human,
        root_dir: None,
        harness: "coder".to_string(),
    }
}

#[allow(dead_code)]
fn mock_inventory(sessions: &[&str], worktrees: &[(&str, &str)], branches: &[&str]) -> String {
    let mut out = String::new();
    out.push_str("__SESSIONS_START__\n");
    for s in sessions {
        out.push_str(s);
        out.push('\n');
    }
    out.push_str("__SESSIONS_END__\n");
    out.push_str("__WORKTREES_START__\n");
    for (branch, path) in worktrees {
        out.push_str(&format!("worktree {path}\nHEAD abc123\nbranch refs/heads/{branch}\n\n"));
    }
    out.push_str("__WORKTREES_END__\n");
    out.push_str("__BRANCHES_START__\n");
    for b in branches {
        out.push_str(&format!("  {b}\n"));
    }
    out.push_str("__BRANCHES_END__\n");
    out
}

#[allow(dead_code)]
fn mock_empty_inventory() -> String {
    mock_inventory(&[], &[], &[])
}

#[allow(dead_code)]
fn mock_inventory_single_agent(name: &str) -> String {
    let path = format!("/path/{name}");
    mock_inventory(&[name], &[(name, &path)], &[name])
}

fn task(ssh: &MockSsh, name: &str, kind: TaskKind, cfg: &Config) -> Result<(), SkulkError> {
    let mut m = AgentTask::new(name.to_string(), kind);
    drive(ssh, &no_confirm, &mut |ev| m.step(cfg, ev))
}

fn cmd_diff(ssh: &MockSsh, name: &str, format: DiffFormat, cfg: &Config) -> Result<(), SkulkError> {
    task(ssh, name, TaskKind::Diff(format), cfg)
}

fn cmd_push(ssh: &MockSsh, name: &str, cfg: &Config) -> Result<(), SkulkError> {
    task(ssh, name, TaskKind::Push, cfg)
}

fn cmd_git_log(ssh: &MockSsh, name: &str, cfg: &Config) -> Result<(), SkulkError> {
    task(ssh, name, TaskKind::GitLog, cfg)
}

fn cmd_archive(ssh: &MockSsh, name: &str, cfg: &Config) -> Result<(), SkulkError> {
    task(ssh, name, TaskKind::Archive, cfg)
}

fn cmd_disconnect(ssh: &MockSsh, name: &str, cfg: &Config) -> Result<(), SkulkError> {
    task(ssh, name, TaskKind::Disconnect, cfg)
}

fn cmd_logs(ssh: &MockSsh, name: &str, follow: bool, lines: Option<u32>, cfg: &Config) -> Result<(), SkulkError> {
    assert!(!follow, "follow mode runs until interrupted");
    task(ssh, name, TaskKind::Logs(lines), cfg)
}

fn cmd_transcript(ssh: &MockSsh, name: &str, output: Option<&std::path::Path>, cfg: &Config) -> Result<(), SkulkError> {
    assert!(output.is_none(), "writing a file is the caller's part");
    task(ssh, name, TaskKind::Transcript, cfg)
}

fn cmd_connect(ssh: &MockSsh, name: &str, cfg: &Config) -> Result<(), SkulkError> {
    let mut m = Connect::new(name.to_string());
    drive(ssh, &no_confirm, &mut |ev| m.step(cfg, ev))
}

fn cmd_send(ssh: &MockSsh, name: &str, prompt: &str, cfg: &Config, verify_delay: Duration) -> Result<(), SkulkError> {
    let delay_ms = u64::try_from(verify_delay.as_millis()).unwrap_or(u64::MAX);
    let mut m = Send::new(name.to_string(), prompt.to_string(), delay_ms);
    drive(ssh, &no_confirm, &mut |ev| m.step(cfg, ev))
}

#[test]
fn cmd_diff_succeeds_and_prints_output() {
    let cfg = test_config();
    let ssh = MockSsh::new(vec![Ok("diff --git a/foo b/foo\n+hello".into())]);
    assert!(cmd_diff(&ssh, "test", DiffFormat::Default, &cfg).is_ok());
}

#[test]
fn cmd_diff_returns_empty_output_when_no_changes() {
    let cfg = test_config();
    let ssh = MockSsh::new(vec![Ok(String::new())]);
    assert!(cmd_diff(&ssh, "test", DiffFormat::Default, &cfg).is_ok());
}

#[test]
fn cmd_diff_stat_succeeds_and_prints_output() {
    let cfg = test_config();
    let ssh = MockSsh::new(vec![Ok(" foo.rs | 2 +-\n 1 file changed".into())]);
    assert!(cmd_diff(&ssh, "test", DiffFormat::Stat, &cfg).is_ok());
}

#[test]
fn cmd_diff_name_only_succeeds_and_prints_output() {
    let cfg = test_config();
    let ssh = MockSsh::new(vec![Ok("foo.rs\nbar.rs".into())]);
    assert!(cmd_diff(&ssh, "test", DiffFormat::NameOnly, &cfg).is_ok());
}

#[test]
fn cmd_diff_agent_not_found() {
    let cfg = test_config();
    let ssh = MockSsh::new(vec![Err(SkulkError::SshFailed(
        "fatal: ambiguous argument 'main...skulk-nope': unknown revision or path not in the working tree".into(),
    ))]);
    let result = cmd_diff(&ssh, "nope", DiffFormat::Default, &cfg);
    assert!(result.is_err());
    match result.unwrap_err() {
        SkulkError::NotFound(msg) => assert!(msg.contains("nope")),
        other => panic!("expected NotFound, got: {other:?}"),
    }
}

#[test]
fn cmd_diff_rejects_invalid_name() {
    let cfg = test_config();
    let ssh = MockSsh::new(vec![]);
    let result = cmd_diff(&ssh, "../bad", DiffFormat::Default, &cfg);
    assert!(matches!(result, Err(SkulkError::Validation(_))));
}

#[test]
fn cmd_push_succeeds() {
    let cfg = test_config();
    let ssh = MockSsh::new(vec![Ok(String::new())]);
    assert!(cmd_push(&ssh, "test", &cfg).is_ok());
}

#[test]
fn cmd_push_succeeds_with_output() {
    let cfg = test_config();
    let ssh = MockSsh::new(vec![Ok(
        "branch skulk-test set up to track origin/skulk-test".into(),
    )]);
    assert!(cmd_push(&ssh, "test", &cfg).is_ok());
}

#[test]
fn cmd_push_rejects_invalid_name() {
    let cfg = test_config();
    let ssh = MockSsh::new(vec![]);
    let result = cmd_push(&ssh, "../bad", &cfg);
    assert!(matches!(result, Err(SkulkError::Validation(_))));
}

#[test]
fn cmd_push_generic_failure_surfaces_ssh_error() {
    let cfg = test_config();
    let ssh = MockSsh::new(vec![Err(SkulkError::SshFailed(
        "error: failed to push some refs".into(),
    ))]);
    let result = cmd_push(&ssh, "test", &cfg);
    assert!(matches!(result, Err(SkulkError::SshFailed(_))));
}

#[test]
fn cmd_push_branch_not_found() {
    let cfg = test_config();
    let ssh = MockSsh::new(vec![Err(SkulkError::SshFailed(
        "error: src refspec skulk-nope does not match any".into(),
    ))]);
    let result = cmd_push(&ssh, "nope", &cfg);
    assert!(result.is_err());
    match result.unwrap_err() {
        SkulkError::NotFound(msg) => assert!(msg.contains("nope")),
        other => panic!("expected NotFound, got: {other:?}"),
    }
}

#[test]
fn cmd_push_no_origin_remote() {
    let cfg = test_config();
    let ssh = MockSsh::new(vec![Err(SkulkError::SshFailed(
        "fatal: 'origin' does not appear to be a git repository\nfatal: Could not read from remote repository.".into(),
    ))]);
    let result = cmd_push(&ssh, "test", &cfg);
    assert!(result.is_err());
    match result.unwrap_err() {
        SkulkError::Diagnostic {
            message,
            suggestion,
        } => {
            assert!(message.to_lowercase().contains("origin"));
            assert!(!suggestion.is_empty());
        }
        other => panic!("expected Diagnostic, got: {other:?}"),
    }
}

#[test]
fn cmd_disconnect_succeeds() {
    let cfg = test_config();
    let ssh = MockSsh::new(vec![Ok(String::new())]);
    assert!(cmd_disconnect(&ssh, "test", &cfg).is_ok());
}

#[test]
fn cmd_disconnect_agent_not_found() {
    let cfg = test_config();
    let ssh = MockSsh::new(vec![Err(SkulkError::SshFailed(
        "can't find session: skulk-ghost".into(),
    ))]);
    let result = cmd_disconnect(&ssh, "ghost", &cfg);
    assert!(result.is_err());
    match result.unwrap_err() {
        SkulkError::NotFound(msg) => assert!(msg.contains("ghost")),
        other => panic!("expected NotFound, got: {other:?}"),
    }
}

#[test]
fn cmd_disconnect_rejects_invalid_name() {
    let cfg = test_config();
    let ssh = MockSsh::new(vec![]);
    let result = cmd_disconnect(&ssh, "../bad", &cfg);
    assert!(matches!(result, Err(SkulkError::Validation(_))));
}

#[test]
fn cmd_connect_succeeds() {
    let cfg = test_config();
    let ssh = MockSsh::new(vec![Ok(String::new())]);
    assert!(cmd_connect(&ssh, "test", &cfg).is_ok());
}

#[test]
fn cmd_connect_agent_not_found() {
    let cfg = test_config();
    let ssh = MockSsh::new(vec![Err(SkulkError::SshFailed(
        "can't find session: skulk-ghost".into(),
    ))]);
    let result = cmd_connect(&ssh, "ghost", &cfg);
    assert!(result.is_err());
    match result.unwrap_err() {
        SkulkError::NotFound(msg) => assert!(msg.contains("ghost")),
        other => panic!("expected NotFound, got: {other:?}"),
    }
}

#[test]
fn cmd_logs_snapshot_succeeds() {
    let cfg = test_config();
    let ssh = MockSsh::new(vec![Ok("line 1\nline 2\nline 3".into())]);
    assert!(cmd_logs(&ssh, "test", false, None, &cfg).is_ok());
}

#[test]
fn cmd_logs_deep_snapshot_succeeds() {
    let cfg = test_config();
    let ssh = MockSsh::new(vec![Ok("scrollback line 1\nscrollback line 2".into())]);
    assert!(cmd_logs(&ssh, "test", false, Some(500), &cfg).is_ok());
}

#[test]
fn cmd_logs_agent_not_found() {
    let cfg = test_config();
    let ssh = MockSsh::new(vec![Err(SkulkError::SshFailed(
        "can't find session: skulk-nope".into(),
    ))]);
    let result = cmd_logs(&ssh, "nope", false, None, &cfg);
    assert!(result.is_err());
    match result.unwrap_err() {
        SkulkError::NotFound(msg) => assert!(msg.contains("nope")),
        other => panic!("expected NotFound, got: {other:?}"),
    }
}

#[test]
fn cmd_logs_pane_not_found() {
    let cfg = test_config();
    let ssh = MockSsh::new(vec![Err(SkulkError::SshFailed(
        "can't find pane: skulk-missing".into(),
    ))]);
    let result = cmd_logs(&ssh, "missing", false, None, &cfg);
    assert!(result.is_err());
    match result.unwrap_err() {
        SkulkError::NotFound(msg) => assert!(msg.contains("missing")),
        other => panic!("expected NotFound, got: {other:?}"),
    }
}

#[test]
fn cmd_send_succeeds_with_delivery_confirmed() {
    let cfg = test_config();
    let ssh = MockSsh::new(vec![
        Ok("old pane content".into()),
        Ok(String::new()),
        Ok("new pane content".into()),
    ]);
    assert!(cmd_send(&ssh, "test", "fix the bug", &cfg, Duration::ZERO).is_ok());
}

#[test]
fn cmd_send_succeeds_with_unconfirmed_delivery() {
    let cfg = test_config();
    let ssh = MockSsh::new(vec![
        Ok("same pane content".into()),
        Ok(String::new()),
        Ok("same pane content".into()),
    ]);
    assert!(cmd_send(&ssh, "test", "fix the bug", &cfg, Duration::ZERO).is_ok());
}

#[test]
fn cmd_send_agent_not_found() {
    let cfg = test_config();
    let ssh = MockSsh::new(vec![Err(SkulkError::SshFailed(
        "can't find session: skulk-gone".into(),
    ))]);
    let result = cmd_send(&ssh, "gone", "hello", &cfg, Duration::ZERO);
    assert!(result.is_err());
    match result.unwrap_err() {
        SkulkError::NotFound(msg) => assert!(msg.contains("gone")),
        other => panic!("expected NotFound, got: {other:?}"),
    }
}

#[test]
fn cmd_send_pane_not_found() {
    let cfg = test_config();
    let ssh = MockSsh::new(vec![Err(SkulkError::SshFailed(
        "can't find pane: skulk-missing".into(),
    ))]);
    let result = cmd_send(&ssh, "missing", "hello", &cfg, Duration::ZERO);
    assert!(result.is_err());
    match result.unwrap_err() {
        SkulkError::NotFound(msg) => assert!(msg.contains("missing")),
        other => panic!("expected NotFound, got: {other:?}"),
    }
}

#[test]
fn cmd_send_verification_ssh_failure_does_not_false_positive() {
    let cfg = test_config();
    let ssh = MockSsh::new(vec![
        Ok("old pane content".into()),
        Ok(String::new()),
        Err(SkulkError::SshFailed("connection lost".into())),
    ]);
    assert!(cmd_send(&ssh, "test", "fix the bug", &cfg, Duration::ZERO).is_ok());
}

#[test]
fn cmd_archive_succeeds() {
    let cfg = test_config();
    let ssh = MockSsh::new(vec![Ok(String::new())]);
    assert!(cmd_archive(&ssh, "test", &cfg).is_ok());
}

#[test]
fn cmd_archive_agent_not_found() {
    let cfg = test_config();
    let ssh = MockSsh::new(vec![Err(SkulkError::SshFailed(
        "can't find session: skulk-ghost".into(),
    ))]);
    let result = cmd_archive(&ssh, "ghost", &cfg);
    assert!(result.is_err());
    match result.unwrap_err() {
        SkulkError::NotFound(msg) => assert!(msg.contains("ghost")),
        other => panic!("expected NotFound, got: {other:?}"),
    }
}

#[test]
fn cmd_archive_rejects_invalid_name() {
    let cfg = test_config();
    let ssh = MockSsh::new(vec![]);
    let result = cmd_archive(&ssh, "../bad", &cfg);
    assert!(matches!(result, Err(SkulkError::Validation(_))));
}

#[test]
fn cmd_git_log_succeeds_and_prints_output() {
    let cfg = test_config();
    let ssh = MockSsh::new(vec![Ok("abc1234 first commit\ndef5678 second".into())]);
    assert!(cmd_git_log(&ssh, "test", &cfg).is_ok());
}

#[test]
fn cmd_git_log_returns_empty_output_when_no_commits() {
    let cfg = test_config();
    let ssh = MockSsh::new(vec![Ok(String::new())]);
    assert!(cmd_git_log(&ssh, "test", &cfg).is_ok());
}

#[test]
fn cmd_git_log_agent_not_found() {
    let cfg = test_config();
    let ssh = MockSsh::new(vec![Err(SkulkError::SshFailed(
        "fatal: ambiguous argument 'main..skulk-nope': unknown revision or path not in the working tree".into(),
    ))]);
    let result = cmd_git_log(&ssh, "nope", &cfg);
    assert!(result.is_err());
    match result.unwrap_err() {
        SkulkError::NotFound(msg) => assert!(msg.contains("nope")),
        other => panic!("expected NotFound, got: {other:?}"),
    }
}

#[test]
fn cmd_git_log_rejects_invalid_name() {
    let cfg = test_config();
    let ssh = MockSsh::new(vec![]);
    let result = cmd_git_log(&ssh, "../bad", &cfg);
    assert!(matches!(result, Err(SkulkError::Validation(_))));
}

#[test]
fn cmd_transcript_prints_to_stdout_when_no_output_path() {
    let cfg = test_config();
    let ssh = MockSsh::new(vec![Ok("scrollback line 1\nscrollback line 2".into())]);
    assert!(cmd_transcript(&ssh, "test", None, &cfg).is_ok());
}

#[test]
fn cmd_transcript_agent_not_found() {
    let cfg = test_config();
    let ssh = MockSsh::new(vec![Err(SkulkError::SshFailed(
        "can't find session: skulk-ghost".into(),
    ))]);
    let result = cmd_transcript(&ssh, "ghost", None, &cfg);
    assert!(result.is_err());
    match result.unwrap_err() {
        SkulkError::NotFound(msg) => assert!(msg.contains("ghost")),
        other => panic!("expected NotFound, got: {other:?}"),
    }
}

#[test]
fn cmd_transcript_rejects_invalid_name() {
    let cfg = test_config();
    let ssh = MockSsh::new(vec![]);
    let result = cmd_transcript(&ssh, "../bad", None, &cfg);
    assert!(matches!(result, Err(SkulkError::Validation(_))));
}

#[test]
fn send_reports_delivery() {
    let cfg = test_config();
    let ssh = MockSsh::new(vec![Ok("before".into()), ssh_ok(), Ok("after".into())]);
    assert!(cmd_send(&ssh, "task", "it's done", &cfg, Duration::ZERO).is_ok());
    assert_eq!(ssh.stderr(), "Prompt delivered to skulk-task.\n");
    assert_eq!(
        ssh.calls()[1],
        "mkdir -p ~/.skulk/state && printf busy > ~/.skulk/state/skulk-task && tmux send-keys -t skulk-task 'it'\\''s done' && sleep 0.1 && tmux send-keys -t skulk-task Enter"
    );
}

#[test]
fn push_prints_output_then_note() {
    let cfg = test_config();
    let ssh = MockSsh::new(vec![Ok("branch set up".into())]);
    assert!(cmd_push(&ssh, "task", &cfg).is_ok());
    assert_eq!(ssh.stdout(), "branch set up");
    assert_eq!(ssh.stderr(), "Pushed skulk-task to origin.\n");
    assert_eq!(ssh.calls()[0], "cd ~/test-project && git push -u origin skulk-task");
}

#[test]
fn archive_notes_what_is_kept() {
    let cfg = test_config();
    let ssh = MockSsh::new(vec![ssh_ok()]);
    assert!(cmd_archive(&ssh, "task", &cfg).is_ok());
    assert_eq!(ssh.stderr(), "Archived agent 'task'. Worktree and branch preserved.\n");
    assert_eq!(ssh.stdout(), "");
}

#[test]
fn connect_attaches_after_checking_the_session() {
    let cfg = test_config();
    let ssh = MockSsh::new(vec![ssh_ok()]);
    assert!(cmd_connect(&ssh, "task", &cfg).is_ok());
    assert_eq!(
        ssh.calls(),
        vec!["tmux has-session -t skulk-task".to_string(), "tmux attach-session -t skulk-task".to_string()]
    );
    assert_eq!(ssh.stderr(), "Detached from skulk-task.\n");
}

#[test]
fn follow_prints_only_new_lines() {
    let cfg = test_config();
    let mut f = Follow::new("task".to_string());
    assert!(matches!(f.step(&cfg, Event::Begin), Action::Run(_)));
    match f.step(&cfg, Event::Output(Ok("a\nb\n".into()))) {
        Action::Note(t) => assert_eq!(t, "Following task (Ctrl+C to stop)...\n"),
        other => panic!("unexpected {other:?}"),
    }
    match f.step(&cfg, Event::Shown) {
        Action::Print(t) => assert_eq!(t, "a\nb\n"),
        other => panic!("unexpected {other:?}"),
    }
    assert!(matches!(f.step(&cfg, Event::Shown), Action::Sleep(2000)));
    match f.step(&cfg, Event::Shown) {
        Action::Run(c) => assert_eq!(c, "tmux capture-pane -p -t skulk-task -S -200"),
        other => panic!("unexpected {other:?}"),
    }
    match f.step(&cfg, Event::Output(Ok("a\nb\nc\n".into()))) {
        Action::Print(t) => assert_eq!(t, "c\n"),
        other => panic!("unexpected {other:?}"),
    }
    assert!(matches!(f.step(&cfg, Event::Shown), Action::Sleep(2000)));
    assert!(matches!(f.step(&cfg, Event::Shown), Action::Run(_)));
    match f.step(&cfg, Event::Output(Err(SkulkError::SshFailed("gone".into())))) {
        Action::Note(t) => assert_eq!(t, "Warning: capture failed: SSH error: gone\n"),
        other => panic!("unexpected {other:?}"),
    }
}

#[test]
fn send_waits_the_given_delay_before_verifying() {
    let cfg = test_config();
    let mut m = Send::new("task".to_string(), "hello".to_string(), 750);
    assert!(matches!(m.step(&cfg, Event::Begin), Action::Run(_)));
    assert!(matches!(m.step(&cfg, Event::Output(Ok("old".into()))), Action::Run(_)));
    match m.step(&cfg, Event::Output(Ok(String::new()))) {
        Action::Sleep(ms) => assert_eq!(ms, 750),
        other => panic!("expected a pause, got {other:?}"),
    }
}
