use skulk::commands::doctor::{
    clean_version, config_row, doctor_outcome, doctor_rows, parse_probe_output, probe_command,
    remote_rows, render_row, skipped_remote_rows, skulk_row, ssh_fail_row, CheckRow, CheckStatus,
    ProbeResults, LABEL_WIDTH,
};
use skulk::config::{Config, OutputFormat};
use skulk::error::SkulkError;

fn test_config() -> Config {
    Config {
        host: "testhost".to_string(),
        session_prefix: "skulk-".to_string(),
        base_path: "~/test-project".to_string(),
        worktree_base: "~/test-project-worktrees".to_string(),
        default_branch: "main".to_string(),
        init_script: None,
        output_format: OutputFormat::Human,
        root_dir: None,
        harness: "coder".to_string(),
    }
}


fn probe_output_all_ok() -> String {
    "tmux:installed:tmux 3.3a\n\
     harness:installed:1.2.0\n\
     gh:installed:gh version 2.40.1 (2023-12-13)\n\
     gh-auth:yes\n\
     base:exists\n\
     worktree:exists\n"
        .to_string()
}

#[test]
fn probe_command_includes_all_checks() {
    let cfg = test_config();
    let cmd = probe_command(&cfg);
    assert!(cmd.contains("tmux -V"));
    assert!(cmd.contains("coder --version"));
    assert!(cmd.contains("gh --version"));
    assert!(cmd.contains("gh auth status"));
    assert!(cmd.contains("~/test-project/.git"));
    assert!(cmd.contains("~/test-project-worktrees"));
}

#[test]
fn probe_command_uses_configured_paths() {
    let mut cfg = test_config();
    cfg.base_path = "~/custom-repo".into();
    cfg.worktree_base = "~/custom-wt".into();
    let cmd = probe_command(&cfg);
    assert!(cmd.contains("~/custom-repo/.git"));
    assert!(cmd.contains("~/custom-wt"));
}

#[test]
fn parse_probe_all_installed_authenticated() {
    let r = parse_probe_output(&probe_output_all_ok());
    assert_eq!(r.tmux.as_deref(), Some("3.3a"));
    assert_eq!(r.harness.as_deref(), Some("1.2.0"));
    assert_eq!(r.gh.as_deref(), Some("2.40.1 (2023-12-13)"));
    assert!(r.gh_authenticated);
    assert!(r.base_exists);
    assert!(r.worktree_exists);
}

#[test]
fn parse_probe_all_missing() {
    let output = "tmux:missing\nharness:missing\ngh:missing\ngh-auth:na\n\
                  base:missing\nworktree:missing\n";
    let r = parse_probe_output(output);
    assert!(r.tmux.is_none());
    assert!(r.harness.is_none());
    assert!(r.gh.is_none());
    assert!(!r.gh_authenticated);
    assert!(!r.base_exists);
    assert!(!r.worktree_exists);
}

#[test]
fn parse_probe_gh_installed_but_unauthenticated() {
    let output = "tmux:installed:tmux 3.3a\nharness:installed:1.2.0\n\
                  gh:installed:gh version 2.40.1\ngh-auth:no\n\
                  base:exists\nworktree:exists\n";
    let r = parse_probe_output(output);
    assert!(r.gh.is_some());
    assert!(!r.gh_authenticated);
}

#[test]
fn parse_probe_ignores_unknown_lines() {
    let output = "garbage line\ntmux:installed:tmux 3.3a\nrandom\n";
    let r = parse_probe_output(output);
    assert_eq!(r.tmux.as_deref(), Some("3.3a"));
}

#[test]
fn clean_version_strips_tmux_prefix() {
    assert_eq!(clean_version("tmux 3.3a"), "3.3a");
}

#[test]
fn clean_version_strips_gh_prefix() {
    assert_eq!(clean_version("gh version 2.40.1 (2023-12-13)"), "2.40.1 (2023-12-13)");
}

#[test]
fn clean_version_passthrough_for_claude() {
    assert_eq!(clean_version("1.2.0 (Coder)"), "1.2.0 (Coder)");
}

fn probe(tmux: bool, harness: bool, gh: bool, auth: bool, base: bool, wt: bool) -> ProbeResults {
    ProbeResults {
        tmux: if tmux { Some("3.3a".into()) } else { None },
        harness: if harness { Some("1.2.0".into()) } else { None },
        gh: if gh { Some("2.40.1".into()) } else { None },
        gh_authenticated: auth,
        base_exists: base,
        worktree_exists: wt,
    }
}

#[test]
fn remote_rows_all_ok() {
    let cfg = test_config();
    let p = parse_probe_output(&probe_output_all_ok());
    let rows = remote_rows(&p, &cfg);
    assert_eq!(rows.len(), 5);
    assert!(rows.iter().all(|r| r.status == CheckStatus::Pass));
}

#[test]
fn remote_rows_missing_tmux_fails() {
    let cfg = test_config();
    let rows = remote_rows(&probe(false, true, true, true, true, true), &cfg);
    let tmux_row = &rows[0];
    assert_eq!(tmux_row.label, "tmux");
    assert_eq!(tmux_row.status, CheckStatus::Fail);
    assert!(tmux_row.note.as_ref().unwrap().contains("apt-get install"));
}

#[test]
fn remote_rows_missing_gh_warns_not_fails() {
    let cfg = test_config();
    let rows = remote_rows(&probe(true, true, false, false, true, true), &cfg);
    let gh_row = rows.iter().find(|r| r.label == "gh").unwrap();
    assert_eq!(gh_row.status, CheckStatus::Warn);
}

#[test]
fn remote_rows_unauthenticated_gh_warns() {
    let cfg = test_config();
    let rows = remote_rows(&probe(true, true, true, false, true, true), &cfg);
    let gh_row = rows.iter().find(|r| r.label == "gh").unwrap();
    assert_eq!(gh_row.status, CheckStatus::Warn);
    assert!(gh_row.note.as_ref().unwrap().contains("gh auth login"));
}

#[test]
fn remote_rows_missing_base_clone_fails() {
    let cfg = test_config();
    let rows = remote_rows(&probe(true, true, true, true, false, true), &cfg);
    let row = rows.iter().find(|r| r.label == "Base clone").unwrap();
    assert_eq!(row.status, CheckStatus::Fail);
    assert!(row.note.as_ref().unwrap().contains("git clone"));
}

#[test]
fn remote_rows_missing_worktree_dir_fails() {
    let cfg = test_config();
    let rows = remote_rows(&probe(true, true, true, true, true, false), &cfg);
    let row = rows.iter().find(|r| r.label == "Worktree dir").unwrap();
    assert_eq!(row.status, CheckStatus::Fail);
    assert!(row.note.as_ref().unwrap().contains("mkdir -p"));
}

#[test]
fn remote_rows_missing_harness_names_install_script() {
    let cfg = test_config();
    let rows = remote_rows(&probe(true, false, true, true, true, true), &cfg);
    assert_eq!(rows[1].label, "coder");
    assert_eq!(rows[1].status, CheckStatus::Fail);
    assert_eq!(
        rows[1].note.as_deref(),
        Some("coder is not installed on testhost.\nInstall with: ssh testhost 'curl -fsSL https://coder.ai/install.sh | sh'")
    );
}

#[test]
fn render_row_appends_indented_note() {
    let row = CheckRow {
        label: "SSH".into(),
        value: "myhost".into(),
        status: CheckStatus::Fail,
        note: Some("line one\nline two".into()),
    };
    let rendered = render_row(&row, false);
    let lines: Vec<&str> = rendered.lines().collect();
    assert_eq!(lines.len(), 3);
    assert!(lines[0].contains("SSH:"));
    assert!(lines[0].contains("myhost"));
    assert!(lines[0].contains("[FAIL]"));
    let prefix = " ".repeat(LABEL_WIDTH);
    assert_eq!(lines[1], format!("{prefix}line one"));
    assert_eq!(lines[2], format!("{prefix}line two"));
}

#[test]
fn render_row_no_note_is_single_line() {
    let row = CheckRow {
        label: "Config".into(),
        value: ".skulk/config.toml".into(),
        status: CheckStatus::Pass,
        note: None,
    };
    let rendered = render_row(&row, false);
    assert_eq!(rendered.lines().count(), 1);
    assert!(rendered.contains("[ok]"));
    assert_eq!(rendered, format!("{:<14}{:<32}[ok]", "Config:", ".skulk/config.toml"));
}

#[test]
fn ssh_fail_row_includes_diagnostic_suggestion() {
    let cfg = test_config();
    let err = SkulkError::Diagnostic {
        message: "Cannot resolve hostname 'testhost'.".into(),
        suggestion: "Check your DNS.".into(),
    };
    let row = ssh_fail_row(&cfg, &err);
    assert_eq!(row.status, CheckStatus::Fail);
    let note = row.note.as_ref().unwrap();
    assert!(note.contains("resolve hostname"));
    assert!(note.contains("Check your DNS"));
}

#[test]
fn doctor_outcome_counts_failures() {
    let cfg = test_config();
    let rows = doctor_rows(&cfg, "0.1.0", &Ok(probe_output_all_ok()));
    assert_eq!(rows.len(), 8);
    assert!(doctor_outcome(&rows).is_ok());
    let probe = "tmux:missing\nharness:installed:1.2.0\ngh:installed:gh version 2.40.1\ngh-auth:yes\nbase:exists\nworktree:exists\n";
    match doctor_outcome(&doctor_rows(&cfg, "0.1.0", &Ok(probe.into()))) {
        Err(SkulkError::Validation(m)) => assert!(m.contains("1 check failed")),
        other => panic!("unexpected {other:?}"),
    }
    let probe = "tmux:missing\nharness:missing\ngh:installed:gh version 2.40.1\ngh-auth:yes\nbase:exists\nworktree:exists\n";
    match doctor_outcome(&doctor_rows(&cfg, "0.1.0", &Ok(probe.into()))) {
        Err(SkulkError::Validation(m)) => assert!(m.contains("2 checks failed")),
        other => panic!("unexpected {other:?}"),
    }
    let warn_only = "tmux:installed:tmux 3.3a\nharness:installed:1.2.0\ngh:missing\ngh-auth:na\nbase:exists\nworktree:exists\n";
    assert!(doctor_outcome(&doctor_rows(&cfg, "0.1.0", &Ok(warn_only.into()))).is_ok());
    let err = SkulkError::Diagnostic { message: "refused".into(), suggestion: "start ssh".into() };
    match doctor_outcome(&doctor_rows(&cfg, "0.1.0", &Err(err))) {
        Err(SkulkError::Validation(m)) => assert!(m.contains("1 check failed")),
        other => panic!("unexpected {other:?}"),
    }
}

#[test]
fn fixed_rows() {
    let mut cfg = test_config();
    assert_eq!(config_row(&cfg).value, ".skulk/config.toml");
    cfg.root_dir = Some("/home/u/p".into());
    assert_eq!(config_row(&cfg).value, "/home/u/p/.skulk/config.toml");
    assert_eq!(skulk_row("1.0.0").value, "1.0.0");
    let skipped = skipped_remote_rows(&cfg);
    assert_eq!(skipped.len(), 5);
    assert!(skipped.iter().all(|r| r.status == CheckStatus::Skipped));
    assert_eq!(skipped[1].label, "coder");
}
