use skulk::commands::restart::{check_restart_target, partial_session_warning, restarted_report};
use skulk::commands::update::{
    cache_content, cache_fresh, find_asset, no_asset_error, parse_cache, staleness, strip_v_exec,
    up_to_date_message, updated_message, version_is_newer, ReleaseAsset,
};
use skulk::commands::interact::{diff_format, DiffFormat};
use skulk::config::{Config, OutputFormat};
use skulk::error::SkulkError;
use skulk::inventory::AgentInventory;
use skulk::kvmap::KvMap;
use skulk::timings::Timings;

fn test_config() -> Config {
    Config {
        host: "testhost".to_string(),
        session_prefix: "skulk-".to_string(),
        base_path: "~/test-project".to_string(),
        worktree_base: "~/test-project-worktrees".to_string(),
        default_branch: "main".to_string(),
        init_script: None,
        output_format: OutputFormat::Human,
        root_dir: None,
        harness: "coder".to_string(),
    }
}


fn inv(sessions: &[&str], worktrees: &[&str]) -> AgentInventory {
    let mut map = KvMap::new();
    for k in worktrees {
        map.insert(k.to_string(), format!("/p/{k}"));
    }
    AgentInventory { sessions: sessions.iter().map(|s| s.to_string()).collect(), worktrees: map, branches: vec![] }
}

#[test]
fn restart_target_rules() {
    let cfg = test_config();
    assert!(check_restart_target("a", &inv(&[], &["skulk-a"]), &cfg).is_ok());
    match check_restart_target("a", &inv(&["skulk-a"], &["skulk-a"]), &cfg) {
        Err(SkulkError::Validation(m)) => assert_eq!(m, "Agent 'a' is already running. Use `skulk connect a` to attach."),
        other => panic!("unexpected {other:?}"),
    }
    match check_restart_target("a", &inv(&[], &[]), &cfg) {
        Err(SkulkError::NotFound(m)) => assert_eq!(m, "No worktree for agent 'a'. Use `skulk new a` to create a new agent."),
        other => panic!("unexpected {other:?}"),
    }
}

#[test]
fn restart_messages() {
    let cfg = test_config();
    assert!(partial_session_warning("a").contains("skulk destroy a"));
    let r = restarted_report("a", &cfg);
    assert!(r.starts_with("Agent 'a' restarted.\n  Branch: skulk-a\n  Worktree: ~/test-project-worktrees/skulk-a\n"));
    assert!(r.ends_with("skulk archive a    # stop without losing work"));
}

#[test]
fn timings_values() {
    let p = Timings::production();
    assert_eq!((p.send_verify_delay, p.wait_poll_interval), (500, 500));
    let z = Timings::zero();
    assert_eq!((z.send_verify_delay, z.wait_poll_interval), (0, 0));
}

#[test]
fn diff_format_from_flags() {
    assert_eq!(diff_format(false, false), DiffFormat::Default);
    assert_eq!(diff_format(true, false), DiffFormat::Stat);
    assert_eq!(diff_format(false, true), DiffFormat::NameOnly);
    assert_eq!(diff_format(true, true), DiffFormat::Stat);
}

#[test]
fn version_comparison() {
    assert!(version_is_newer("v0.4.3", "0.4.2"));
    assert!(!version_is_newer("v0.4.2", "0.4.2"));
    assert!(!version_is_newer("0.4.1", "0.4.2"));
    assert_eq!(strip_v_exec("v1.0"), "1.0");
    assert_eq!(strip_v_exec("1.0"), "1.0");
    assert_eq!(staleness("v0.4.3", "0.4.2"), Some(("v0.4.3".to_string(), "0.4.2".to_string())));
    assert_eq!(staleness("v0.4.2", "0.4.2"), None);
}

#[test]
fn cache_round_trip_and_freshness() {
    let c = cache_content("v1.2.3", 1_700_000_000);
    assert_eq!(c, "v1.2.3\n1700000000");
    assert_eq!(parse_cache(&c), Some(("v1.2.3".to_string(), 1_700_000_000)));
    assert_eq!(parse_cache("v1\nsoon"), None);
    assert_eq!(parse_cache("v1"), None);
    assert!(cache_fresh(1000, 1000));
    assert!(cache_fresh(1000 + 86399, 1000));
    assert!(!cache_fresh(1000 + 86400, 1000));
    assert!(!cache_fresh(999, 1000));
}

#[test]
fn asset_selection_and_messages() {
    let assets = vec![
        ReleaseAsset { name: "skulk-x86_64-apple-darwin.tar.gz".into(), browser_download_url: "u1".into() },
        ReleaseAsset { name: "skulk-x86_64-unknown-linux-gnu".into(), browser_download_url: "u2".into() },
    ];
    assert_eq!(find_asset(&assets, "linux"), Some(1));
    assert_eq!(find_asset(&assets, "windows"), None);
    match no_asset_error("t") {
        SkulkError::UpdateFailed(m) => assert_eq!(m, "No release asset found for target t"),
        other => panic!("unexpected {other:?}"),
    }
    assert_eq!(up_to_date_message("0.4.2"), "skulk is already up to date (v0.4.2)");
    assert_eq!(updated_message("0.4.3"), "Updated skulk to v0.4.3");
}
