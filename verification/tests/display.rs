use skulk::config::{Config, OutputFormat};
use skulk::display::{
    derive_idle_state, format_gc_summary, format_sessions_table_with_color, format_uptime, IdleState,
    Session, SessionState,
};
use skulk::inventory::GcOrphans;

fn test_config() -> Config {
    Config {
        host: "testhost".to_string(),
        session_prefix: "skulk-".to_string(),
        base_path: "~/test-project".to_string(),
        worktree_base: "~/test-project-worktrees".to_string(),
        default_branch: "main".to_string(),
        init_script: None,
        output_format: OutputFormat::Human,
        root_dir: None,
        harness: "coder".to_string(),
    }
}

fn sess(name: &str, created: i64, state: SessionState, worktree: Option<&str>) -> Session {
    let idle = if state == SessionState::Stopped { IdleState::Stopped } else { IdleState::Working };
    Session {
        name: name.to_string(),
        created,
        activity: created,
        state,
        idle,
        worktree: worktree.map(ToString::to_string),
    }
}

// The default terminal configuration has colour enabled.
fn format_sessions_table(sessions: &[Session], now: i64, cfg: &Config) -> String {
    format_sessions_table_with_color(sessions, now, true, cfg)
}

#[test]
fn format_uptime_minutes() {
    assert_eq!(format_uptime(1000090, 1000000), "1m");
}

#[test]
fn format_uptime_hours_and_minutes() {
    assert_eq!(format_uptime(1003700, 1000000), "1h 1m");
}

#[test]
fn format_uptime_days_and_hours() {
    assert_eq!(format_uptime(1090000, 1000000), "1d 1h");
}

#[test]
fn format_uptime_negative_returns_just_now() {
    assert_eq!(format_uptime(1000000, 1000100), "just now");
}

#[test]
fn format_uptime_zero_returns_0m() {
    assert_eq!(format_uptime(1000000, 1000000), "0m");
}

#[test]
fn format_uptime_exact_values() {
    assert_eq!(format_uptime(2 * 86400 + 3 * 3600 + 59, 0), "2d 3h");
    assert_eq!(format_uptime(3600 * 5 + 60 * 7 + 3, 0), "5h 7m");
    assert_eq!(format_uptime(59, 0), "0m");
}

#[test]
fn format_sessions_table_empty() {
    let cfg = test_config();
    let result = format_sessions_table(&[], 1000000, &cfg);
    assert_eq!(result, "No agents running.\nUse `skulk new <name>` to create one.");
}

#[test]
fn format_sessions_table_has_header() {
    let cfg = test_config();
    let sessions = vec![sess("skulk-test", 1000000, SessionState::Running, None)];
    let result = format_sessions_table(&sessions, 1000090, &cfg);
    let first_line = result.lines().next().unwrap();
    assert!(first_line.contains("NAME"));
    assert!(first_line.contains("STATUS"));
    assert!(first_line.contains("IDLE"));
    assert!(first_line.contains("UPTIME"));
    assert!(first_line.contains("WORKTREE"));
    assert!(result.contains("test"));
    assert!(!result.lines().nth(1).unwrap().starts_with("skulk-"));
}

#[test]
fn format_sessions_table_attached_status() {
    let cfg = test_config();
    let sessions = vec![sess("skulk-attached", 1000000, SessionState::Attached, None)];
    let result = format_sessions_table(&sessions, 1000090, &cfg);
    assert!(result.contains("attached"));
}

#[test]
fn format_sessions_table_detached_status() {
    let cfg = test_config();
    let sessions = vec![sess("skulk-detached", 1000000, SessionState::Running, None)];
    let result = format_sessions_table(&sessions, 1000090, &cfg);
    assert!(result.contains("running"));
}

#[test]
fn format_sessions_table_worktree_placeholder() {
    let cfg = test_config();
    let sessions = vec![sess("skulk-wt", 1000000, SessionState::Running, None)];
    let result = format_sessions_table(&sessions, 1000090, &cfg);
    let data_lines: Vec<&str> = result.lines().skip(1).collect();
    assert!(!data_lines.is_empty());
    for line in data_lines {
        assert!(line.contains('-'));
    }
}

#[test]
fn format_sessions_table_with_worktree_path() {
    let cfg = test_config();
    let sessions = vec![sess(
        "skulk-test",
        1000000,
        SessionState::Running,
        Some("~/test-project-worktrees/skulk-test"),
    )];
    let result = format_sessions_table(&sessions, 1000090, &cfg);
    assert!(result.contains("~/test-project-worktrees/skulk-test"));
}

#[test]
fn format_sessions_table_strips_agent_prefix_from_name() {
    let cfg = test_config();
    let sessions = vec![sess("skulk-my-task", 1000000, SessionState::Running, None)];
    let result = format_sessions_table_with_color(&sessions, 1000090, false, &cfg);
    let data_line = result.lines().nth(1).unwrap();
    assert!(data_line.starts_with("my-task"));
    assert!(!data_line.starts_with("skulk-"));
}

#[test]
fn format_sessions_table_stopped_status() {
    let cfg = test_config();
    let sessions = vec![sess("skulk-zombie", 0, SessionState::Stopped, Some("~/test-project-worktrees/skulk-zombie"))];
    let result = format_sessions_table_with_color(&sessions, 1000090, false, &cfg);
    assert!(result.contains("stopped"), "should show stopped status: {result}");
}

#[test]
fn format_sessions_table_stopped_shows_dash_for_uptime() {
    let cfg = test_config();
    let sessions = vec![sess("skulk-zombie", 0, SessionState::Stopped, Some("~/test-project-worktrees/skulk-zombie"))];
    let result = format_sessions_table_with_color(&sessions, 1000090, false, &cfg);
    let data_line = result.lines().nth(1).unwrap();
    assert!(data_line.contains("stopped"), "should show stopped: {data_line}");
    let parts: Vec<&str> = data_line.split_whitespace().collect();
    assert_eq!(parts[1], "stopped");
    assert_eq!(parts[2], "stopped");
    assert_eq!(parts[3], "-");
}

#[test]
fn format_sessions_table_shows_idle_column_values() {
    let cfg = test_config();
    let mut working = sess("skulk-busy", 1000000, SessionState::Running, None);
    working.idle = IdleState::Working;
    let mut idle_agent = sess("skulk-done", 1000000, SessionState::Running, None);
    idle_agent.idle = IdleState::Idle;
    let result = format_sessions_table_with_color(&[working, idle_agent], 1000090, false, &cfg);
    assert!(result.contains("working"));
    assert!(result.contains("idle"));
}

#[test]
fn format_sessions_table_idle_highlighted_in_color() {
    let cfg = test_config();
    let mut s = sess("skulk-done", 1000000, SessionState::Running, None);
    s.idle = IdleState::Idle;
    let output = format_sessions_table_with_color(&[s], 1000090, true, &cfg);
    assert!(output.contains("idle"));
    assert!(output.contains("\x1b[32m"));
    assert!(output.contains("\x1b[1m"));
}

#[test]
fn format_sessions_table_contains_color_when_enabled() {
    let cfg = test_config();
    let sessions = vec![sess("skulk-test", 1700000000, SessionState::Running, None)];
    let output = format_sessions_table_with_color(&sessions, 1700000200, true, &cfg);
    assert!(output.contains("\x1b[32m"));
    assert!(output.contains("\x1b[0m"));
    assert!(output.contains("\x1b[1m"));
}

#[test]
fn format_sessions_table_no_color_when_disabled() {
    let cfg = test_config();
    let sessions = vec![sess("skulk-test", 1700000000, SessionState::Running, None)];
    let output = format_sessions_table_with_color(&sessions, 1700000200, false, &cfg);
    assert!(!output.contains("\x1b["));
}

#[test]
fn format_sessions_table_exact_plain_row() {
    let cfg = test_config();
    let sessions = vec![sess("skulk-a", 0, SessionState::Running, Some("/w"))];
    let output = format_sessions_table_with_color(&sessions, 120, false, &cfg);
    assert_eq!(
        output,
        format!(
            "{:<20} {:<10} {:<9} {:<12} {}\n{:<20} {:<10} {:<9} {:<12} {}",
            "NAME", "STATUS", "IDLE", "UPTIME", "WORKTREE", "a", "running", "working", "2m", "/w"
        )
    );
}

#[test]
fn derive_idle_state_stopped_when_session_gone() {
    assert_eq!(derive_idle_state(&SessionState::Stopped, 0, None), IdleState::Stopped);
    assert_eq!(derive_idle_state(&SessionState::Stopped, 1000, Some(2000)), IdleState::Stopped);
}

#[test]
fn derive_idle_state_working_without_state_file() {
    assert_eq!(derive_idle_state(&SessionState::Running, 1000, None), IdleState::Working);
}

#[test]
fn derive_idle_state_idle_when_mtime_ge_activity() {
    assert_eq!(derive_idle_state(&SessionState::Running, 1000, Some(1000)), IdleState::Idle);
    assert_eq!(derive_idle_state(&SessionState::Attached, 1000, Some(1005)), IdleState::Idle);
}

#[test]
fn derive_idle_state_working_when_activity_after_mtime() {
    assert_eq!(derive_idle_state(&SessionState::Running, 2000, Some(1000)), IdleState::Working);
}

#[test]
fn display_gc_orphans_total() {
    let orphans = GcOrphans {
        sessions: vec!["a".into()],
        worktrees: vec!["b".into(), "c".into()],
        branches: vec!["d".into()],
    };
    assert_eq!(orphans.total(), 4);
    assert!(!orphans.is_empty());
}

fn orphans(s: &[&str], w: &[&str], b: &[&str]) -> GcOrphans {
    GcOrphans {
        sessions: s.iter().map(|x| x.to_string()).collect(),
        worktrees: w.iter().map(|x| x.to_string()).collect(),
        branches: b.iter().map(|x| x.to_string()).collect(),
    }
}

#[test]
fn format_gc_summary_clean() {
    let summary = format_gc_summary(&orphans(&[], &[], &[]), false);
    assert!(summary.contains("clean"));
}

#[test]
fn format_gc_summary_dry_run() {
    let summary = format_gc_summary(&orphans(&["skulk-ghost"], &[], &[]), true);
    assert!(summary.contains("Would clean"));
}

#[test]
fn format_gc_summary_actual_run() {
    let summary = format_gc_summary(&orphans(&["skulk-ghost"], &[], &[]), false);
    assert!(summary.contains("Cleaned"));
    assert!(summary.contains("skulk-ghost"));
}

#[test]
fn format_gc_summary_shows_total() {
    let summary = format_gc_summary(&orphans(&["a"], &["b"], &["c"]), false);
    assert!(summary.contains("Total: 3"));
}

#[test]
fn format_gc_summary_dry_run_all_types() {
    let summary = format_gc_summary(&orphans(&["skulk-sess"], &["skulk-wt"], &["skulk-br"]), true);
    assert!(summary.contains("Would clean"));
    assert!(summary.contains("skulk-sess"));
    assert!(summary.contains("skulk-wt"));
    assert!(summary.contains("skulk-br"));
    assert!(summary.contains("Total: 3"));
    assert!(!summary.contains("Cleaned"));
}

#[test]
fn format_gc_summary_actual_all_types() {
    let summary = format_gc_summary(&orphans(&["skulk-sess"], &["skulk-wt"], &["skulk-br"]), false);
    assert!(summary.contains("Cleaned"));
    assert!(!summary.contains("Would clean"));
}

#[test]
fn format_gc_summary_empty_is_same_for_dry_run() {
    let dry = format_gc_summary(&orphans(&[], &[], &[]), true);
    let actual = format_gc_summary(&orphans(&[], &[], &[]), false);
    assert_eq!(dry, actual);
}

#[test]
fn format_gc_summary_exact_layout() {
    let summary = format_gc_summary(&orphans(&["s1"], &[], &["b1", "b2"]), true);
    assert_eq!(
        summary,
        "Would clean 1 orphaned tmux session(s):\n  - s1\nWould clean 2 orphaned branch(es):\n  - b1\n  - b2\n\nTotal: 3 orphaned resource(s)."
    );
}

#[test]
fn display_parse_sessions_single_line() {
    let raw = "skulk-test\t1700000000\t1700000100\t0\n";
    let sessions = skulk::display::parse_sessions(raw);
    assert_eq!(sessions.len(), 1);
    assert_eq!(sessions[0].name, "skulk-test");
    assert_eq!(sessions[0].created, 1700000000);
    assert_eq!(sessions[0].activity, 1700000100);
    assert_eq!(sessions[0].state, SessionState::Running);
    assert_eq!(sessions[0].idle, IdleState::Working);
    assert!(sessions[0].worktree.is_none());
}

#[test]
fn display_parse_sessions_empty_input() {
    let sessions = skulk::display::parse_sessions("");
    assert!(sessions.is_empty());
}

#[test]
fn display_parse_sessions_malformed_skipped() {
    let sessions = skulk::display::parse_sessions("bad\tdata");
    assert!(sessions.is_empty());
}

#[test]
fn display_parse_sessions_multiple_lines() {
    let raw = "skulk-a\t1\t2\t0\nskulk-b\t3\t4\t1\n";
    let sessions = skulk::display::parse_sessions(raw);
    assert_eq!(sessions.len(), 2);
    assert_eq!(sessions[0].state, SessionState::Running);
    assert_eq!(sessions[1].state, SessionState::Attached);
}

#[test]
fn display_parse_sessions_bad_epoch_skipped() {
    let raw = "skulk-a\tnotanumber\t2\t0\nskulk-b\t3\t4\t0\n";
    let sessions = skulk::display::parse_sessions(raw);
    assert_eq!(sessions.len(), 1);
    assert_eq!(sessions[0].name, "skulk-b");
}
