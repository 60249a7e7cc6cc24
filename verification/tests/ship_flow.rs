use std::cell::RefCell;
use std::collections::VecDeque;

use skulk::commands::flow::{Action, Event};
use skulk::commands::ship::Ship;
use skulk::config::{Config, OutputFormat};
use skulk::error::SkulkError;

/// A scripted remote host: each command gets the next queued response.
struct MockSsh {
    responses: RefCell<VecDeque<Result<String, SkulkError>>>,
    calls: RefCell<Vec<String>>,
    stdout: RefCell<String>,
    stderr: RefCell<String>,
    clock: RefCell<u64>,
}

impl MockSsh {
    fn new(responses: Vec<Result<String, SkulkError>>) -> Self {
        MockSsh {
            responses: RefCell::new(responses.into()),
            calls: RefCell::new(Vec::new()),
            stdout: RefCell::new(String::new()),
            stderr: RefCell::new(String::new()),
            clock: RefCell::new(0),
        }
    }

    fn calls(&self) -> Vec<String> {
        self.calls.borrow().clone()
    }

    #[allow(dead_code)]
    fn stdout(&self) -> String {
        self.stdout.borrow().clone()
    }

    #[allow(dead_code)]
    fn stderr(&self) -> String {
        self.stderr.borrow().clone()
    }
}

/// Perform the actions of a command against the mock until it is done.
fn drive(ssh: &MockSsh, confirm: &dyn Fn(&str) -> bool, step: &mut dyn FnMut(Event) -> Action) -> Result<(), SkulkError> {
    let mut ev = Event::Begin;
    loop {
        match step(ev) {
            Action::Run(c) => {
                ssh.calls.borrow_mut().push(c);
                let r = ssh.responses.borrow_mut().pop_front().expect("MockSsh: unexpected extra SSH call");
                ev = Event::Output(r);
            }
            Action::Attach(c) => {
                ssh.calls.borrow_mut().push(c);
                ev = Event::Exited(Ok(true));
            }
            Action::Print(t) => {
                ssh.stdout.borrow_mut().push_str(&t);
                ev = Event::Shown;
            }
            Action::Note(t) => {
                ssh.stderr.borrow_mut().push_str(&t);
                ev = Event::Shown;
            }
            Action::Confirm(q) => {
                ev = Event::Answer(confirm(&q));
            }
            Action::Now => {
                ev = Event::Millis(*ssh.clock.borrow());
            }
            Action::Sleep(ms) => {
                *ssh.clock.borrow_mut() += ms.max(1);
                ev = Event::Shown;
            }
            Action::Prompt(_) | Action::Ask(_, _) | Action::Probe(_) => panic!("unexpected question"),
            Action::Done(r) => return r,
        }
    }
}

fn no_confirm(_q: &str) -> bool {
    panic!("unexpected confirmation")
}

fn ssh_ok() -> Result<String, SkulkError> {
    Ok(String::new())
}

#[allow(dead_code)]
fn ssh_err(msg: &str) -> Result<String, SkulkError> {
    Err(SkulkError::SshFailed(msg.to_string()))
}

fn test_config() -> Config {
    Config {
        host: "testhost".to_string(),
        session_prefix: "skulk-".to_string(),
        base_path: "~/test-project".to_string(),
        worktree_base: "~/test-project-worktrees".to_string(),
        default_branch: "main".to_string(),
        init_script: None,
        output_format: OutputFormat::Human,
        root_dir: None,
        harness: "coder".to_string(),
    }
}

#[allow(dead_code)]
fn mock_inventory(sessions: &[&str], worktrees: &[(&str, &str)], branches: &[&str]) -> String {
    let mut out = String::new();
    out.push_str("__SESSIONS_START__\n");
    for s in sessions {
        out.push_str(s);
        out.push('\n');
    }
    out.push_str("__SESSIONS_END__\n");
    out.push_str("__WORKTREES_START__\n");
    for (branch, path) in worktrees {
        out.push_str(&format!("worktree {path}\nHEAD abc123\nbranch refs/heads/{branch}\n\n"));
    }
    out.push_str("__WORKTREES_END__\n");
    out.push_str("__BRANCHES_START__\n");
    for b in branches {
        out.push_str(&format!("  {b}\n"));
    }
    out.push_str("__BRANCHES_END__\n");
    out
}

#[allow(dead_code)]
fn mock_empty_inventory() -> String {
    mock_inventory(&[], &[], &[])
}

#[allow(dead_code)]
fn mock_inventory_single_agent(name: &str) -> String {
    let path = format!("/path/{name}");
    mock_inventory(&[name], &[(name, &path)], &[name])
}

fn cmd_ship(ssh: &MockSsh, name: &str, cfg: &Config) -> Result<(), SkulkError> {
    let mut m = Ship::new(name.to_string());
    drive(ssh, &no_confirm, &mut |ev| m.step(cfg, ev))
}

#[test]
fn cmd_ship_runs_precheck_push_then_ship_in_order() {
    let cfg = test_config();
    let ssh = MockSsh::new(vec![
        Ok(String::new()),                           // precheck
        Ok(String::new()),                           // push
        Ok("https://github.com/x/y/pull/42".into()), // gh pr create
    ]);
    let result = cmd_ship(&ssh, "feat", &cfg);
    assert!(result.is_ok(), "expected Ok, got {result:?}");
    let calls = ssh.calls();
    assert_eq!(calls.len(), 3);
    assert!(calls[0].contains("command -v gh"));
    assert!(calls[1].contains("git push -u origin skulk-feat"));
    assert!(calls[2].contains("gh pr create"));
}


#[test]
fn cmd_ship_diagnoses_missing_gh_or_claude() {
    let cfg = test_config();
    let ssh = MockSsh::new(vec![Err(SkulkError::SshFailed("exit code 127".into()))]);
    let result = cmd_ship(&ssh, "feat", &cfg);
    match result {
        Err(SkulkError::Diagnostic {
            message,
            suggestion,
        }) => {
            assert!(message.contains("gh"));
            assert!(message.contains("coder"));
            assert!(suggestion.contains("cli.github.com"));
            assert!(suggestion.contains("coder"));
        }
        other => panic!("expected Diagnostic, got {other:?}"),
    }
}

#[test]
fn cmd_ship_passes_through_non_ssh_failed_precheck_errors() {
    let cfg = test_config();
    let ssh = MockSsh::new(vec![Err(SkulkError::Diagnostic {
        message: "Connection timed out.".into(),
        suggestion: "Check network.".into(),
    })]);
    let result = cmd_ship(&ssh, "feat", &cfg);
    match result {
        Err(SkulkError::Diagnostic { message, .. }) => {
            assert!(message.contains("timed out"));
        }
        other => panic!("expected timeout Diagnostic, got {other:?}"),
    }
}

#[test]
fn cmd_ship_classifies_push_branch_not_found() {
    let cfg = test_config();
    let ssh = MockSsh::new(vec![
        Ok(String::new()), // precheck OK
        Err(SkulkError::SshFailed(
            "error: src refspec skulk-nope does not match any".into(),
        )),
    ]);
    let result = cmd_ship(&ssh, "nope", &cfg);
    match result {
        Err(SkulkError::NotFound(msg)) => assert!(msg.contains("nope")),
        other => panic!("expected NotFound, got {other:?}"),
    }
}

#[test]
fn cmd_ship_propagates_pr_creation_failure() {
    let cfg = test_config();
    let ssh = MockSsh::new(vec![
        Ok(String::new()), // precheck OK
        Ok(String::new()), // push OK
        Err(SkulkError::SshFailed(
            "a pull request for branch \"skulk-feat\" already exists".into(),
        )),
    ]);
    let result = cmd_ship(&ssh, "feat", &cfg);
    match result {
        Err(SkulkError::SshFailed(msg)) => {
            assert!(msg.contains("already exists"));
        }
        other => panic!("expected SshFailed, got {other:?}"),
    }
}

#[test]
fn cmd_ship_succeeds_with_empty_gh_output() {
    let cfg = test_config();
    let ssh = MockSsh::new(vec![
        Ok(String::new()),
        Ok(String::new()),
        Ok(String::new()),
    ]);
    assert!(cmd_ship(&ssh, "feat", &cfg).is_ok());
}

#[test]
fn cmd_ship_rejects_invalid_name() {
    let cfg = test_config();
    let ssh = MockSsh::new(vec![]);
    let result = cmd_ship(&ssh, "Bad-Name", &cfg);
    assert!(matches!(result, Err(SkulkError::Validation(_))));
}

#[test]
fn cmd_ship_rejects_uppercase_before_any_remote_call() {
    let cfg = test_config();
    let ssh = MockSsh::new(vec![]);
    match cmd_ship(&ssh, "Bad-Name", &cfg) {
        Err(SkulkError::Validation(m)) => assert_eq!(
            m,
            "Invalid character 'B' in agent name. Only lowercase letters, digits, and hyphens allowed."
        ),
        other => panic!("expected Validation, got {other:?}"),
    }
    assert!(ssh.calls().is_empty());
}

#[test]
fn cmd_ship_rejects_slash_in_name() {
    let cfg = test_config();
    let ssh = MockSsh::new(vec![]);
    assert!(matches!(cmd_ship(&ssh, "feat/x", &cfg), Err(SkulkError::Validation(_))));
    assert!(ssh.calls().is_empty());
}
