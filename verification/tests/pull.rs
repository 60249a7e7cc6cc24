use skulk::commands::pull::{
    base_check_command, base_check_outcome, ff_pull_command, force_reset_command, force_warning,
    missing_clone_error_message, pull_outcome,
};
use skulk::config::{Config, OutputFormat};
use skulk::error::SkulkError;

fn test_config() -> Config {
    Config {
        host: "testhost".to_string(),
        session_prefix: "skulk-".to_string(),
        base_path: "~/test-project".to_string(),
        worktree_base: "~/test-project-worktrees".to_string(),
        default_branch: "main".to_string(),
        init_script: None,
        output_format: OutputFormat::Human,
        root_dir: None,
        harness: "coder".to_string(),
    }
}


#[test]
fn missing_base_clone_error_does_not_reference_skulk_bootstrap() {
    let cfg = test_config();
    let msg = format!("Error: {}", missing_clone_error_message(&cfg));
    assert!(msg.contains("git clone"));
    assert!(!msg.contains("skulk bootstrap"));
}

#[test]
fn force_pull_warning_contains_discard() {
    let cfg = test_config();
    let warning = force_warning(&cfg);
    assert!(warning.contains("discard"));
    assert_eq!(warning, "Warning: This will discard any local changes on testhost.");
}

#[test]
fn pull_commands() {
    let cfg = test_config();
    assert_eq!(base_check_command(&cfg), "test -d ~/test-project/.git && echo exists");
    assert_eq!(force_reset_command(&cfg), "cd ~/test-project && git fetch origin && git reset --hard origin/main");
    assert_eq!(ff_pull_command(&cfg), "cd ~/test-project && git pull --ff-only origin main");
}

#[test]
fn base_check_outcomes() {
    let cfg = test_config();
    assert!(base_check_outcome(Ok("exists".into()), &cfg).is_ok());
    match base_check_outcome(Err(SkulkError::SshFailed("x".into())), &cfg) {
        Err(SkulkError::Validation(m)) => assert_eq!(
            m,
            "Base clone not found at ~/test-project on testhost.\nSet it up with: ssh testhost 'git clone <your-repo-url> ~/test-project'"
        ),
        other => panic!("unexpected {other:?}"),
    }
    let e = SkulkError::Diagnostic { message: "Connection refused.".into(), suggestion: "SSH not running.".into() };
    assert!(matches!(base_check_outcome(Err(e), &cfg), Err(SkulkError::Diagnostic { .. })));
}

#[test]
fn pull_outcome_classifies_git_failures() {
    let cfg = test_config();
    let v = |s: &str| pull_outcome(Err(SkulkError::SshFailed(s.into())), &cfg);
    match v("fatal: Not possible to fast-forward, aborting.") {
        Err(SkulkError::Validation(m)) => assert!(m.contains("Cannot fast-forward")),
        other => panic!("unexpected {other:?}"),
    }
    match v("error: x\nPlease commit your changes or stash them before you merge.") {
        Err(SkulkError::Validation(m)) => assert!(m.contains("uncommitted changes")),
        other => panic!("unexpected {other:?}"),
    }
    match v("fatal: couldn't find remote ref main") {
        Err(SkulkError::Validation(m)) => assert!(m.contains("Cannot find 'main' branch")),
        other => panic!("unexpected {other:?}"),
    }
    match v("some totally unknown git error") {
        Err(SkulkError::SshFailed(m)) => assert!(m.contains("some totally unknown git error")),
        other => panic!("unexpected {other:?}"),
    }
    assert_eq!(pull_outcome(Ok("Already up to date.".into()), &cfg).unwrap(), "Already up to date.");
}
