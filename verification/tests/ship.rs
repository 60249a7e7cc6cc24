use skulk::commands::ship::{
    precheck_command, precheck_outcome, ship_command, shipped_message, DESCRIPTION_PROMPT,
};
use skulk::config::{Config, OutputFormat};
use skulk::error::SkulkError;

fn test_config() -> Config {
    Config {
        host: "testhost".to_string(),
        session_prefix: "skulk-".to_string(),
        base_path: "~/test-project".to_string(),
        worktree_base: "~/test-project-worktrees".to_string(),
        default_branch: "main".to_string(),
        init_script: None,
        output_format: OutputFormat::Human,
        root_dir: None,
        harness: "coder".to_string(),
    }
}

#[test]
fn precheck_command_checks_gh_and_claude() {
    let cmd = precheck_command(&test_config());
    assert!(cmd.contains("command -v gh"));
    assert!(cmd.contains("command -v coder"));
}

#[test]
fn precheck_command_silences_stdout_and_stderr() {
    let cmd = precheck_command(&test_config());
    assert!(cmd.contains("> /dev/null 2>&1"));
}

#[test]
fn ship_command_runs_in_base_path() {
    let cfg = test_config();
    let cmd = ship_command("feat", &cfg);
    assert!(cmd.contains(&format!("cd {}", cfg.base_path)));
}

#[test]
fn ship_command_sets_pipefail() {
    let cfg = test_config();
    let cmd = ship_command("feat", &cfg);
    assert!(cmd.contains("set -o pipefail"), "ship_command must set pipefail: {cmd}");
}

#[test]
fn ship_command_uses_set_e_for_fail_fast() {
    let cfg = test_config();
    let cmd = ship_command("feat", &cfg);
    assert!(cmd.contains("set -e"), "ship_command must set -e: {cmd}");
}

#[test]
fn ship_command_uses_session_prefix_and_default_branch() {
    let cfg = test_config();
    let cmd = ship_command("feat", &cfg);
    assert!(cmd.contains("main...skulk-feat"));
    assert!(cmd.contains("--base main"));
    assert!(cmd.contains("--head skulk-feat"));
}

#[test]
fn ship_command_uses_configured_default_branch() {
    let mut cfg = test_config();
    cfg.default_branch = "develop".into();
    let cmd = ship_command("feat", &cfg);
    assert!(cmd.contains("develop...skulk-feat"));
    assert!(cmd.contains("--base develop"));
}

#[test]
fn ship_command_pipes_diff_to_claude() {
    let cfg = test_config();
    let cmd = ship_command("feat", &cfg);
    assert!(cmd.contains("git diff main...skulk-feat | coder -p"));
}

#[test]
fn ship_command_invokes_gh_pr_create_with_title_and_body_file() {
    let cfg = test_config();
    let cmd = ship_command("feat", &cfg);
    assert!(cmd.contains("gh pr create"));
    assert!(cmd.contains("--title"));
    assert!(cmd.contains("--body-file"));
}

#[test]
fn ship_command_cleans_up_temp_dir_via_exit_trap() {
    let cfg = test_config();
    let cmd = ship_command("feat", &cfg);
    assert!(cmd.contains("trap 'rm -rf \"$T\"' EXIT"), "ship_command must register an EXIT trap to clean up: {cmd}");
}

#[test]
fn ship_command_aborts_on_empty_title() {
    let cfg = test_config();
    let cmd = ship_command("feat", &cfg);
    assert!(cmd.contains("[ -s \"$T/title\" ]"), "ship_command must validate title file is non-empty: {cmd}");
}

#[test]
fn ship_command_aborts_on_empty_body() {
    let cfg = test_config();
    let cmd = ship_command("feat", &cfg);
    assert!(cmd.contains("[ -s \"$T/body\" ]"), "ship_command must validate body file is non-empty: {cmd}");
}

#[test]
fn ship_command_rejects_code_fenced_title() {
    let cfg = test_config();
    let cmd = ship_command("feat", &cfg);
    assert!(cmd.contains("'```'"), "ship_command must reject titles starting with code fences: {cmd}");
}

#[test]
fn description_prompt_specifies_title_body_format() {
    assert!(DESCRIPTION_PROMPT.to_lowercase().contains("title"));
    assert!(DESCRIPTION_PROMPT.to_lowercase().contains("body"));
    assert!(DESCRIPTION_PROMPT.to_lowercase().contains("blank line"));
}

#[test]
fn description_prompt_contains_no_single_quotes() {
    assert!(!DESCRIPTION_PROMPT.contains('\''), "prompt must not contain single quotes");
}

#[test]
fn ship_command_embeds_prompt_and_title_split() {
    let cmd = ship_command("feat", &test_config());
    assert!(cmd.contains(&format!("coder -p '{DESCRIPTION_PROMPT}' > \"$T/desc\"")));
    assert!(cmd.contains("head -n 1 \"$T/desc\" > \"$T/title\""));
    assert!(cmd.contains("tail -n +3 \"$T/desc\" > \"$T/body\""));
    assert!(cmd.ends_with("--body-file \"$T/body\""));
}

#[test]
fn precheck_outcome_diagnoses_missing_tools() {
    let cfg = test_config();
    assert!(precheck_outcome(Ok(String::new()), &cfg).is_ok());
    match precheck_outcome(Err(SkulkError::SshFailed(String::new())), &cfg) {
        Err(SkulkError::Diagnostic { message, suggestion }) => {
            assert_eq!(message, "`gh` and/or `coder` not installed on testhost.");
            assert!(suggestion.contains("https://cli.github.com"));
        }
        other => panic!("unexpected {other:?}"),
    }
    assert!(matches!(
        precheck_outcome(Err(SkulkError::SshExec("x".into())), &cfg),
        Err(SkulkError::SshExec(_))
    ));
}

#[test]
fn shipped_message_names_branch() {
    assert_eq!(shipped_message("feat", &test_config()), "Opened PR for skulk-feat.");
}
