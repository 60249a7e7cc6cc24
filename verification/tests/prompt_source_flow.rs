use std::cell::RefCell;
use std::collections::VecDeque;

use skulk::commands::flow::{Action, Event};
use skulk::commands::prompt_source::{
    gh_availability_command, gh_availability_outcome, gh_issue_fetch_command, issue_fetch_outcome, wrap_github_prompt, GhAuthor,
    GhComment, GhIssue, IssueFetch,
};
use skulk::config::{Config, OutputFormat};
use skulk::error::SkulkError;

/// A scripted remote host: each command gets the next queued response.
struct MockSsh {
    responses: RefCell<VecDeque<Result<String, SkulkError>>>,
    calls: RefCell<Vec<String>>,
    stdout: RefCell<String>,
    stderr: RefCell<String>,
    clock: RefCell<u64>,
}

impl MockSsh {
    fn new(responses: Vec<Result<String, SkulkError>>) -> Self {
        MockSsh {
            responses: RefCell::new(responses.into()),
            calls: RefCell::new(Vec::new()),
            stdout: RefCell::new(String::new()),
            stderr: RefCell::new(String::new()),
            clock: RefCell::new(0),
        }
    }

    fn calls(&self) -> Vec<String> {
        self.calls.borrow().clone()
    }

    #[allow(dead_code)]
    fn stdout(&self) -> String {
        self.stdout.borrow().clone()
    }

    #[allow(dead_code)]
    fn stderr(&self) -> String {
        self.stderr.borrow().clone()
    }
}

/// Perform the actions of a command against the mock until it is done.
fn drive(ssh: &MockSsh, confirm: &dyn Fn(&str) -> bool, step: &mut dyn FnMut(Event) -> Action) -> Result<(), SkulkError> {
    let mut ev = Event::Begin;
    loop {
        match step(ev) {
            Action::Run(c) => {
                ssh.calls.borrow_mut().push(c);
                let r = ssh.responses.borrow_mut().pop_front().expect("MockSsh: unexpected extra SSH call");
                ev = Event::Output(r);
            }
            Action::Attach(c) => {
                ssh.calls.borrow_mut().push(c);
                ev = Event::Exited(Ok(true));
            }
            Action::Print(t) => {
                ssh.stdout.borrow_mut().push_str(&t);
                ev = Event::Shown;
            }
            Action::Note(t) => {
                ssh.stderr.borrow_mut().push_str(&t);
                ev = Event::Shown;
            }
            Action::Confirm(q) => {
                ev = Event::Answer(confirm(&q));
            }
            Action::Now => {
                ev = Event::Millis(*ssh.clock.borrow());
            }
            Action::Sleep(ms) => {
                *ssh.clock.borrow_mut() += ms.max(1);
                ev = Event::Shown;
            }
            Action::Prompt(_) | Action::Ask(_, _) | Action::Probe(_) => panic!("unexpected question"),
            Action::Done(r) => return r,
        }
    }
}

fn no_confirm(_q: &str) -> bool {
    panic!("unexpected confirmation")
}

fn ssh_ok() -> Result<String, SkulkError> {
    Ok(String::new())
}

#[allow(dead_code)]
fn ssh_err(msg: &str) -> Result<String, SkulkError> {
    Err(SkulkError::SshFailed(msg.to_string()))
}

fn test_config() -> Config {
    Config {
        host: "testhost".to_string(),
        session_prefix: "skulk-".to_string(),
        base_path: "~/test-project".to_string(),
        worktree_base: "~/test-project-worktrees".to_string(),
        default_branch: "main".to_string(),
        init_script: None,
        output_format: OutputFormat::Human,
        root_dir: None,
        harness: "coder".to_string(),
    }
}

#[allow(dead_code)]
fn mock_inventory(sessions: &[&str], worktrees: &[(&str, &str)], branches: &[&str]) -> String {
    let mut out = String::new();
    out.push_str("__SESSIONS_START__\n");
    for s in sessions {
        out.push_str(s);
        out.push('\n');
    }
    out.push_str("__SESSIONS_END__\n");
    out.push_str("__WORKTREES_START__\n");
    for (branch, path) in worktrees {
        out.push_str(&format!("worktree {path}\nHEAD abc123\nbranch refs/heads/{branch}\n\n"));
    }
    out.push_str("__WORKTREES_END__\n");
    out.push_str("__BRANCHES_START__\n");
    for b in branches {
        out.push_str(&format!("  {b}\n"));
    }
    out.push_str("__BRANCHES_END__\n");
    out
}

#[allow(dead_code)]
fn mock_empty_inventory() -> String {
    mock_inventory(&[], &[], &[])
}

#[allow(dead_code)]
fn mock_inventory_single_agent(name: &str) -> String {
    let path = format!("/path/{name}");
    mock_inventory(&[name], &[(name, &path)], &[name])
}

fn run(ssh: &MockSsh, cmd: &str) -> Result<String, SkulkError> {
    ssh.calls.borrow_mut().push(cmd.to_string());
    ssh.responses.borrow_mut().pop_front().expect("MockSsh: unexpected extra SSH call")
}

fn check_gh_available(ssh: &MockSsh, cfg: &Config) -> Result<(), SkulkError> {
    let out = run(ssh, gh_availability_command())?;
    gh_availability_outcome(&out, cfg)
}

fn fetch_github_issue_raw(ssh: &MockSsh, issue_id: &str, cfg: &Config) -> Result<String, SkulkError> {
    let r = run(ssh, &gh_issue_fetch_command(issue_id, cfg));
    issue_fetch_outcome(r, issue_id, cfg)
}

fn text_field(v: &serde_json::Value, key: &str) -> Result<String, SkulkError> {
    v[key]
        .as_str()
        .map(|s| s.to_string())
        .ok_or_else(|| SkulkError::SshFailed(format!("Failed to parse gh output as JSON: missing {key}")))
}

/// The issue in `gh`'s JSON, as the command-line program reads it.
fn parse_gh_issue(raw: &str) -> Result<GhIssue, SkulkError> {
    let v: serde_json::Value = serde_json::from_str(raw)
        .map_err(|e| SkulkError::SshFailed(format!("Failed to parse gh output as JSON: {e}")))?;
    let mut comments = Vec::new();
    for c in v["comments"].as_array().cloned().unwrap_or_default() {
        comments.push(GhComment {
            author: GhAuthor { login: text_field(&c["author"], "login")? },
            body: text_field(&c, "body")?,
            created_at: text_field(&c, "createdAt")?,
        });
    }
    Ok(GhIssue { title: text_field(&v, "title")?, body: text_field(&v, "body")?, comments })
}

fn load_github_prompt(ssh: &MockSsh, issue_id: &str, branch: &str, cfg: &Config) -> Result<String, SkulkError> {
    let mut m = IssueFetch::new(issue_id.to_string());
    drive(ssh, &no_confirm, &mut |ev| m.step(cfg, ev))?;
    let raw = m.raw.clone().expect("a successful fetch holds the JSON");
    let issue = parse_gh_issue(&raw)?;
    Ok(wrap_github_prompt(issue_id, branch, &issue))
}

#[test]
fn check_gh_available_ok() {
    let cfg = test_config();
    let ssh = MockSsh::new(vec![Ok("SKULK_GH_OK".into())]);
    assert!(check_gh_available(&ssh, &cfg).is_ok());
}

#[test]
fn check_gh_available_missing_returns_diagnostic() {
    let cfg = test_config();
    let ssh = MockSsh::new(vec![Ok("SKULK_GH_MISSING".into())]);
    let err = check_gh_available(&ssh, &cfg).unwrap_err();
    match err {
        SkulkError::Diagnostic {
            message,
            suggestion,
        } => {
            assert!(message.contains("not installed"));
            assert!(suggestion.contains("skulk init"));
        }
        other => panic!("expected Diagnostic, got {other:?}"),
    }
}

#[test]
fn check_gh_available_unauthenticated_returns_diagnostic() {
    let cfg = test_config();
    let ssh = MockSsh::new(vec![Ok("SKULK_GH_UNAUTHENTICATED".into())]);
    let err = check_gh_available(&ssh, &cfg).unwrap_err();
    match err {
        SkulkError::Diagnostic {
            message,
            suggestion,
        } => {
            assert!(message.contains("not authenticated"));
            assert!(suggestion.contains("gh auth login"));
        }
        other => panic!("expected Diagnostic, got {other:?}"),
    }
}

#[test]
fn fetch_github_issue_raw_passes_through_output() {
    let cfg = test_config();
    let ssh = MockSsh::new(vec![Ok(r#"{"title":"t","body":"b","comments":[]}"#.into())]);
    let out = fetch_github_issue_raw(&ssh, "42", &cfg).unwrap();
    assert!(out.contains("\"title\""));
}

#[test]
fn fetch_github_issue_raw_maps_not_found_to_clean_error() {
    let cfg = test_config();
    let ssh = MockSsh::new(vec![Err(SkulkError::SshFailed(
        "GraphQL: Could not resolve to an Issue with the number of 999.".into(),
    ))]);
    let err = fetch_github_issue_raw(&ssh, "999", &cfg).unwrap_err();
    match err {
        SkulkError::NotFound(msg) => assert!(msg.contains("#999")),
        other => panic!("expected NotFound, got {other:?}"),
    }
}

#[test]
fn fetch_github_issue_raw_passes_through_other_errors() {
    let cfg = test_config();
    let ssh = MockSsh::new(vec![Err(SkulkError::SshFailed(
        "some other failure".into(),
    ))]);
    let err = fetch_github_issue_raw(&ssh, "42", &cfg).unwrap_err();
    assert!(matches!(err, SkulkError::SshFailed(_)));
}

#[test]
fn load_github_prompt_happy_path() {
    let cfg = test_config();
    let ssh = MockSsh::new(vec![
        Ok("SKULK_GH_OK".into()),
        Ok(r#"{"title":"T","body":"B","comments":[]}"#.into()),
    ]);
    let out = load_github_prompt(&ssh, "42", "skulk-x", &cfg).unwrap();
    assert!(out.contains("#42"));
    assert!(out.contains('T'));
    assert!(out.contains("skulk-x"));
}

#[test]
fn load_github_prompt_rejects_invalid_id_before_ssh() {
    let cfg = test_config();
    let ssh = MockSsh::new(vec![]);
    let err = load_github_prompt(&ssh, "not-a-number", "skulk-x", &cfg).unwrap_err();
    assert!(matches!(err, SkulkError::Validation(_)));
    // No SSH call made
    assert!(ssh.calls().is_empty());
}

#[test]
fn load_github_prompt_surfaces_missing_gh() {
    let cfg = test_config();
    let ssh = MockSsh::new(vec![Ok("SKULK_GH_MISSING".into())]);
    let err = load_github_prompt(&ssh, "42", "skulk-x", &cfg).unwrap_err();
    assert!(matches!(err, SkulkError::Diagnostic { .. }));
}
