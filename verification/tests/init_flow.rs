use std::cell::RefCell;
use std::collections::VecDeque;

use skulk::commands::flow::{Action, Event};
use skulk::commands::bootstrap::{RemoteSetup, SetupStyle, SetupTarget};
use skulk::commands::init::{generate_config_toml, GitContext, InitAnswers, Wizard};
use skulk::util::reply_of;
use skulk::config::{Config, OutputFormat};
use skulk::error::SkulkError;

/// A scripted remote host: each command gets the next queued response.
struct MockSsh {
    responses: RefCell<VecDeque<Result<String, SkulkError>>>,
    calls: RefCell<Vec<String>>,
    stdout: RefCell<String>,
    stderr: RefCell<String>,
    clock: RefCell<u64>,
}

impl MockSsh {
    fn new(responses: Vec<Result<String, SkulkError>>) -> Self {
        MockSsh {
            responses: RefCell::new(responses.into()),
            calls: RefCell::new(Vec::new()),
            stdout: RefCell::new(String::new()),
            stderr: RefCell::new(String::new()),
            clock: RefCell::new(0),
        }
    }

    fn calls(&self) -> Vec<String> {
        self.calls.borrow().clone()
    }

    #[allow(dead_code)]
    fn stdout(&self) -> String {
        self.stdout.borrow().clone()
    }

    #[allow(dead_code)]
    fn stderr(&self) -> String {
        self.stderr.borrow().clone()
    }
}

/// Perform the actions of a command against the mock until it is done.
fn drive(ssh: &MockSsh, confirm: &dyn Fn(&str) -> bool, step: &mut dyn FnMut(Event) -> Action) -> Result<(), SkulkError> {
    let mut ev = Event::Begin;
    loop {
        match step(ev) {
            Action::Run(c) => {
                ssh.calls.borrow_mut().push(c);
                let r = ssh.responses.borrow_mut().pop_front().expect("MockSsh: unexpected extra SSH call");
                ev = Event::Output(r);
            }
            Action::Attach(c) => {
                ssh.calls.borrow_mut().push(c);
                ev = Event::Exited(Ok(true));
            }
            Action::Print(t) => {
                ssh.stdout.borrow_mut().push_str(&t);
                ev = Event::Shown;
            }
            Action::Note(t) => {
                ssh.stderr.borrow_mut().push_str(&t);
                ev = Event::Shown;
            }
            Action::Confirm(q) => {
                ev = Event::Answer(confirm(&q));
            }
            Action::Now => {
                ev = Event::Millis(*ssh.clock.borrow());
            }
            Action::Sleep(ms) => {
                *ssh.clock.borrow_mut() += ms.max(1);
                ev = Event::Shown;
            }
            Action::Prompt(_) | Action::Ask(_, _) | Action::Probe(_) => panic!("unexpected question"),
            Action::Done(r) => return r,
        }
    }
}

fn no_confirm(_q: &str) -> bool {
    panic!("unexpected confirmation")
}

fn ssh_ok() -> Result<String, SkulkError> {
    Ok(String::new())
}

#[allow(dead_code)]
fn ssh_err(msg: &str) -> Result<String, SkulkError> {
    Err(SkulkError::SshFailed(msg.to_string()))
}

fn test_config() -> Config {
    Config {
        host: "testhost".to_string(),
        session_prefix: "skulk-".to_string(),
        base_path: "~/test-project".to_string(),
        worktree_base: "~/test-project-worktrees".to_string(),
        default_branch: "main".to_string(),
        init_script: None,
        output_format: OutputFormat::Human,
        root_dir: None,
        harness: "coder".to_string(),
    }
}

#[allow(dead_code)]
fn mock_inventory(sessions: &[&str], worktrees: &[(&str, &str)], branches: &[&str]) -> String {
    let mut out = String::new();
    out.push_str("__SESSIONS_START__\n");
    for s in sessions {
        out.push_str(s);
        out.push('\n');
    }
    out.push_str("__SESSIONS_END__\n");
    out.push_str("__WORKTREES_START__\n");
    for (branch, path) in worktrees {
        out.push_str(&format!("worktree {path}\nHEAD abc123\nbranch refs/heads/{branch}\n\n"));
    }
    out.push_str("__WORKTREES_END__\n");
    out.push_str("__BRANCHES_START__\n");
    for b in branches {
        out.push_str(&format!("  {b}\n"));
    }
    out.push_str("__BRANCHES_END__\n");
    out
}

#[allow(dead_code)]
fn mock_empty_inventory() -> String {
    mock_inventory(&[], &[], &[])
}

#[allow(dead_code)]
fn mock_inventory_single_agent(name: &str) -> String {
    let path = format!("/path/{name}");
    mock_inventory(&[name], &[(name, &path)], &[name])
}

struct MockPrompter {
    responses: VecDeque<String>,
}

impl MockPrompter {
    fn new(responses: Vec<&str>) -> Self {
        MockPrompter { responses: responses.into_iter().map(|s| s.to_string()).collect() }
    }

    fn next(&mut self) -> Result<String, SkulkError> {
        self.responses
            .pop_front()
            .ok_or_else(|| SkulkError::Validation("MockPrompter: no more responses".into()))
    }
}

fn run_wizard(
    prompter: &mut MockPrompter,
    git_ctx: &GitContext,
    config_exists: bool,
    color: bool,
    test_ssh: &dyn Fn(&str) -> Result<(), SkulkError>,
) -> Result<InitAnswers, SkulkError> {
    let mut w = Wizard::new(git_ctx.clone(), config_exists, color, "coder".to_string());
    let mut ev = Event::Begin;
    loop {
        match w.step(ev) {
            Action::Prompt(_) => ev = Event::Input(prompter.next()),
            Action::Ask(_, d) => ev = Event::Reply(prompter.next().map(|l| reply_of(&l, d))),
            Action::Probe(h) => ev = Event::Output(test_ssh(&h).map(|_| String::new())),
            Action::Note(_) | Action::Print(_) => ev = Event::Shown,
            Action::Done(r) => return r.map(|_| w.answers.clone().expect("a finished wizard has answers")),
            other => panic!("unexpected action {other:?}"),
        }
    }
}

fn run_remote_setup(ssh: &MockSsh, answers: &InitAnswers, color: bool) -> Result<(), SkulkError> {
    let target = SetupTarget {
        host: answers.host.clone(),
        base_path: answers.base_path.clone(),
        worktree_base: answers.worktree_base.clone(),
        harness: answers.harness.clone(),
        repo_url: answers.repo_url.clone(),
    };
    let mut m = RemoteSetup::new(SetupStyle::Init(color), target);
    drive(ssh, &no_confirm, &mut |ev| m.step(ev))
}

fn mock_ssh_test_ok(_host: &str) -> Result<(), SkulkError> {
    Ok(())
}

fn mock_ssh_test_fail(_host: &str) -> Result<(), SkulkError> {
    Err(SkulkError::Diagnostic {
        message: "Connection refused.".into(),
        suggestion: "Check host.".into(),
    })
}

fn git_ctx_full() -> GitContext {
    GitContext {
        remote_url: Some("git@github.com:user/my-project.git".into()),
        default_branch: Some("main".into()),
        repo_name: Some("my-project".into()),
    }
}

fn git_ctx_empty() -> GitContext {
    GitContext { remote_url: None, default_branch: None, repo_name: None }
}

fn test_answers() -> InitAnswers {
    InitAnswers {
        host: "testhost".into(),
        session_prefix: "test-".into(),
        default_branch: "main".into(),
        base_path: "~/test".into(),
        worktree_base: "~/test-worktrees".into(),
        repo_url: "https://example.com/repo.git".into(),
        repo_name: "test".into(),
        run_setup: true,
        harness: "coder".into(),
    }
}

#[test]
fn generate_config_produces_valid_toml() {
    let answers = InitAnswers {
        host: "myhost".into(),
        session_prefix: "test-".into(),
        default_branch: "main".into(),
        base_path: "~/test".into(),
        worktree_base: "~/test-worktrees".into(),
        repo_url: "https://github.com/user/test.git".into(),
        repo_name: "test".into(),
        run_setup: false,
        harness: "coder".into(),
    };
    let toml_str = generate_config_toml(&answers);
    let cfg: toml::Value = toml::from_str(&toml_str).expect("should parse as valid Config");
    assert_eq!(cfg["host"].as_str(), Some("myhost"));
    assert_eq!(cfg["session_prefix"].as_str(), Some("test-"));
    assert_eq!(cfg["base_path"].as_str(), Some("~/test"));
    assert_eq!(cfg["worktree_base"].as_str(), Some("~/test-worktrees"));
    assert_eq!(cfg["default_branch"].as_str(), Some("main"));
}

#[test]
fn wizard_happy_path_with_git_context() {
    let mut prompter = MockPrompter::new(vec![
        "myserver", // SSH host
        "",         // session prefix (accept default)
        "",         // default branch (accept default)
        "y",        // run setup
    ]);
    let result = run_wizard(
        &mut prompter,
        &git_ctx_full(),
        false,
        false,
        &mock_ssh_test_ok,
    );
    let answers = result.expect("wizard should succeed");
    assert_eq!(answers.host, "myserver");
    assert_eq!(answers.session_prefix, "my-project-");
    assert_eq!(answers.default_branch, "main");
    assert_eq!(answers.base_path, "~/my-project");
    assert_eq!(answers.worktree_base, "~/my-project-worktrees");
    assert_eq!(answers.repo_url, "git@github.com:user/my-project.git");
    assert!(answers.run_setup);
}

#[test]
fn wizard_happy_path_without_git_context() {
    let mut prompter = MockPrompter::new(vec![
        "https://github.com/user/cool-app.git", // repo URL
        "myserver",                             // SSH host
        "",                                     // session prefix (accept default)
        "",                                     // default branch (accept default "main")
        "n",                                    // skip setup
    ]);
    let result = run_wizard(
        &mut prompter,
        &git_ctx_empty(),
        false,
        false,
        &mock_ssh_test_ok,
    );
    let answers = result.expect("wizard should succeed");
    assert_eq!(answers.host, "myserver");
    assert_eq!(answers.session_prefix, "cool-app-");
    assert_eq!(answers.default_branch, "main");
    assert_eq!(answers.repo_name, "cool-app");
    assert!(!answers.run_setup);
}

#[test]
fn wizard_aborts_when_config_exists_and_user_declines() {
    let mut prompter = MockPrompter::new(vec!["n"]);
    let result = run_wizard(
        &mut prompter,
        &git_ctx_full(),
        true,
        false,
        &mock_ssh_test_ok,
    );
    assert!(matches!(result, Err(SkulkError::InitAborted)));
}

#[test]
fn wizard_reconfigures_when_config_exists_and_user_accepts() {
    let mut prompter = MockPrompter::new(vec![
        "y",       // reconfigure
        "newhost", // SSH host
        "custom-", // custom prefix
        "develop", // custom branch
        "n",       // skip setup
    ]);
    let result = run_wizard(
        &mut prompter,
        &git_ctx_full(),
        true,
        false,
        &mock_ssh_test_ok,
    );
    let answers = result.expect("wizard should succeed");
    assert_eq!(answers.host, "newhost");
    assert_eq!(answers.session_prefix, "custom-");
    assert_eq!(answers.default_branch, "develop");
}

#[test]
fn wizard_uses_defaults_for_prefix_and_branch() {
    let mut prompter = MockPrompter::new(vec![
        "myserver", // host
        "",         // prefix default
        "",         // branch default
        "n",        // skip setup
    ]);
    let result = run_wizard(
        &mut prompter,
        &git_ctx_full(),
        false,
        false,
        &mock_ssh_test_ok,
    );
    let answers = result.expect("wizard should succeed");
    assert_eq!(answers.session_prefix, "my-project-");
    assert_eq!(answers.default_branch, "main");
}

#[test]
fn wizard_ssh_test_retry_then_succeed() {
    let call_count = std::cell::Cell::new(0);
    let test_ssh = |_host: &str| -> Result<(), SkulkError> {
        let count = call_count.get();
        call_count.set(count + 1);
        if count == 0 {
            Err(SkulkError::Diagnostic {
                message: "Connection refused.".into(),
                suggestion: "Check host.".into(),
            })
        } else {
            Ok(())
        }
    };
    let mut prompter = MockPrompter::new(vec![
        "myserver", // host
        "y",        // retry SSH
        "",         // prefix default
        "",         // branch default
        "n",        // skip setup
    ]);
    let result = run_wizard(&mut prompter, &git_ctx_full(), false, false, &test_ssh);
    assert!(result.is_ok());
}

#[test]
fn wizard_ssh_test_retry_then_abort() {
    let mut prompter = MockPrompter::new(vec![
        "myserver", // host
        "n",        // don't retry
    ]);
    let result = run_wizard(
        &mut prompter,
        &git_ctx_full(),
        false,
        false,
        &mock_ssh_test_fail,
    );
    assert!(matches!(result, Err(SkulkError::InitAborted)));
}

#[test]
fn wizard_rejects_unsafe_manual_repo_name() {
    // Git context has URL but no parseable repo name
    let ctx = GitContext {
        remote_url: Some("not-a-url".into()),
        default_branch: Some("main".into()),
        repo_name: None,
    };
    let mut prompter = MockPrompter::new(vec![
        "bad name",  // repo name with space (rejected)
        "good-name", // repo name (accepted)
        "myserver",  // SSH host
        "",          // prefix default
        "",          // branch default
        "n",         // skip setup
    ]);
    let result = run_wizard(&mut prompter, &ctx, false, false, &mock_ssh_test_ok);
    let answers = result.expect("wizard should succeed after retry");
    assert_eq!(answers.repo_name, "good-name");
}

#[test]
fn wizard_validates_auto_detected_repo_name() {
    // Git context with a repo_name that somehow contains unsafe chars
    let bad_ctx = GitContext {
        remote_url: Some("https://example.com/repo.git".into()),
        default_branch: Some("main".into()),
        repo_name: Some("bad name".into()),
    };
    let mut prompter = MockPrompter::new(vec![
        "myserver", // SSH host (never reached)
    ]);
    let result = run_wizard(&mut prompter, &bad_ctx, false, false, &mock_ssh_test_ok);
    assert!(result.is_err());
}

#[test]
fn remote_setup_all_installed() {
    let ssh =
        MockSsh::new(vec![
        Ok(String::new()), // apt-get check
        Ok("tmux:installed\ngit:installed\ncoder:installed\nrepo:cloned\nworktree-dir:exists"
            .into()),
    ]);
    assert!(run_remote_setup(&ssh, &test_answers(), false).is_ok());
}

#[test]
fn remote_setup_installs_missing_tools() {
    let ssh =
        MockSsh::new(vec![
        Ok(String::new()), // apt-get check
        Ok("tmux:missing\ngit:installed\ncoder:missing\nrepo:missing\nworktree-dir:missing"
            .into()),
        Ok(String::new()), // tmux install
        Ok(String::new()), // harness install
        Ok(String::new()), // clone
        Ok(String::new()), // mkdir
    ]);
    assert!(run_remote_setup(&ssh, &test_answers(), false).is_ok());
}

#[test]
fn remote_setup_no_apt_get_returns_error() {
    let ssh = MockSsh::new(vec![Err(SkulkError::SshFailed("command not found".into()))]);
    let result = run_remote_setup(&ssh, &test_answers(), false);
    assert!(result.is_err());
}

#[test]
fn remote_setup_tool_install_fails_continues() {
    let ssh =
        MockSsh::new(vec![
        Ok(String::new()), // apt-get check
        Ok("tmux:missing\ngit:installed\ncoder:installed\nrepo:cloned\nworktree-dir:exists"
            .into()),
        Err(SkulkError::SshFailed("install failed".into())), // tmux install fails
    ]);
    // Should succeed (tool install failures are non-fatal)
    assert!(run_remote_setup(&ssh, &test_answers(), false).is_ok());
}

#[test]
fn remote_setup_repo_already_cloned() {
    let ssh =
        MockSsh::new(vec![
        Ok(String::new()), // apt-get check
        Ok("tmux:installed\ngit:installed\ncoder:installed\nrepo:cloned\nworktree-dir:exists"
            .into()),
    ]);
    assert!(run_remote_setup(&ssh, &test_answers(), false).is_ok());
}

#[test]
fn wizard_asks_in_order_and_summarizes() {
    let mut w = Wizard::new(git_ctx_full(), false, false, "coder".into());
    match w.step(Event::Begin) {
        Action::Note(t) => assert_eq!(t, "  Detected git remote: git@github.com:user/my-project.git\n"),
        other => panic!("unexpected {other:?}"),
    }
    match w.step(Event::Shown) {
        Action::Prompt(t) => assert_eq!(t, "\n? SSH host: "),
        other => panic!("unexpected {other:?}"),
    }
    match w.step(Event::Input(Ok("box".into()))) {
        Action::Probe(h) => assert_eq!(h, "box"),
        other => panic!("unexpected {other:?}"),
    }
    match w.step(Event::Output(Ok(String::new()))) {
        Action::Note(t) => assert_eq!(t, "  [ok] Connected to box\n"),
        other => panic!("unexpected {other:?}"),
    }
    match w.step(Event::Shown) {
        Action::Prompt(t) => assert_eq!(t, "? Session prefix [my-project-]: "),
        other => panic!("unexpected {other:?}"),
    }
    match w.step(Event::Input(Ok("bad prefix".into()))) {
        Action::Note(t) => assert!(t.starts_with("  'session_prefix' contains character ' '"), "{t}"),
        other => panic!("unexpected {other:?}"),
    }
    match w.step(Event::Shown) {
        Action::Prompt(t) => assert_eq!(t, "? Session prefix [my-project-]: "),
        other => panic!("unexpected {other:?}"),
    }
    match w.step(Event::Input(Ok(String::new()))) {
        Action::Prompt(t) => assert_eq!(t, "? Default branch [main]: "),
        other => panic!("unexpected {other:?}"),
    }
    match w.step(Event::Input(Ok(String::new()))) {
        Action::Note(t) => assert_eq!(
            t,
            "\n  Config:\n    host           = box\n    session_prefix = my-project-\n    base_path      = ~/my-project\n    worktree_base  = ~/my-project-worktrees\n    default_branch = main\n"
        ),
        other => panic!("unexpected {other:?}"),
    }
    match w.step(Event::Shown) {
        Action::Ask(q, d) => {
            assert_eq!(q, "\n? Set up box now? [Y/n]");
            assert!(d);
        }
        other => panic!("unexpected {other:?}"),
    }
    assert!(matches!(w.step(Event::Reply(Ok(false))), Action::Done(Ok(()))));
    let a = w.answers.expect("answers");
    assert!(!a.run_setup);
    assert_eq!(a.harness, "coder");
    assert_eq!(a.repo_name, "my-project");
}

#[test]
fn wizard_read_failure_ends_it() {
    let mut w = Wizard::new(git_ctx_empty(), false, false, "coder".into());
    match w.step(Event::Begin) {
        Action::Note(t) => assert_eq!(t, "  No git remote detected.\n"),
        other => panic!("unexpected {other:?}"),
    }
    assert!(matches!(w.step(Event::Shown), Action::Prompt(_)));
    let r = w.step(Event::Input(Err(SkulkError::Validation("Failed to read input: eof".into()))));
    assert!(matches!(r, Action::Done(Err(SkulkError::Validation(_)))));
    assert!(w.answers.is_none());
}

#[test]
fn remote_setup_reports_each_component() {
    let ssh = MockSsh::new(vec![
        ssh_ok(),
        Ok("tmux:installed\ngit:installed\ncoder:missing\nrepo:cloned\nworktree-dir:missing".into()),
        ssh_err("nope"),
        ssh_ok(),
    ]);
    assert!(run_remote_setup(&ssh, &test_answers(), false).is_ok());
    assert_eq!(
        ssh.calls(),
        vec![
            "command -v apt-get".to_string(),
            ssh.calls()[1].clone(),
            "curl -fsSL https://coder.ai/install.sh | sh".to_string(),
            "mkdir -p ~/test-worktrees".to_string(),
        ]
    );
    assert_eq!(
        ssh.stderr(),
        "\n  Setting up testhost...\n  [ok] tmux (already installed)\n  [ok] git (already installed)\n  \u{27f3} Installing coder...\n  [FAIL] coder install failed: SSH error: nope\n  [ok] repo (already cloned at ~/test)\n  [ok] worktree dir created\n"
    );
}

#[test]
fn remote_setup_without_apt_explains() {
    let ssh = MockSsh::new(vec![ssh_err("missing")]);
    match run_remote_setup(&ssh, &test_answers(), false) {
        Err(SkulkError::Validation(m)) => assert_eq!(m, "apt-get not found. Debian/Ubuntu required."),
        other => panic!("unexpected {other:?}"),
    }
    assert!(ssh.stderr().contains("  [FAIL] apt-get not found on testhost.\n"));
}
