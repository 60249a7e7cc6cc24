use skulk::commands::prompt_source::{
    file_prompt_from_contents, gh_availability_command, gh_availability_outcome,
    gh_issue_fetch_command, issue_fetch_outcome, validate_issue_id, wrap_file_prompt,
    wrap_github_prompt, GhAuthor, GhComment, GhIssue,
};
use skulk::config::{Config, OutputFormat};
use skulk::error::SkulkError;

fn test_config() -> Config {
    Config {
        host: "testhost".to_string(),
        session_prefix: "skulk-".to_string(),
        base_path: "~/test-project".to_string(),
        worktree_base: "~/test-project-worktrees".to_string(),
        default_branch: "main".to_string(),
        init_script: None,
        output_format: OutputFormat::Human,
        root_dir: None,
        harness: "coder".to_string(),
    }
}


#[test]
fn validate_issue_id_accepts_digits() {
    assert!(validate_issue_id("42").is_ok());
    assert!(validate_issue_id("1").is_ok());
    assert!(validate_issue_id("99999").is_ok());
}

#[test]
fn validate_issue_id_rejects_empty() {
    let err = validate_issue_id("").unwrap_err();
    assert!(matches!(err, SkulkError::Validation(_)));
}

#[test]
fn validate_issue_id_rejects_non_digits() {
    assert!(validate_issue_id("abc").is_err());
    assert!(validate_issue_id("42a").is_err());
    assert!(validate_issue_id("-1").is_err());
    assert!(validate_issue_id("1.5").is_err());
}

#[test]
fn validate_issue_id_rejects_cross_repo_syntax() {
    assert!(validate_issue_id("owner/repo#123").is_err());
    assert!(validate_issue_id("#123").is_err());
}

#[test]
fn validate_issue_id_message() {
    match validate_issue_id("x") {
        Err(SkulkError::Validation(m)) => assert_eq!(m, "Invalid GitHub issue ID 'x'. Must be a positive integer (e.g. 42)."),
        other => panic!("unexpected {other:?}"),
    }
}

#[test]
fn wrap_file_prompt_includes_branch_and_content() {
    let out = wrap_file_prompt("skulk-my-task", "Fix the thing.");
    assert!(out.contains("skulk-my-task"));
    assert!(out.contains("Fix the thing."));
    assert!(out.contains("dedicated git worktree"));
    assert!(out.contains("ask me clarifying questions"));
    assert!(out.contains("---"));
}

#[test]
fn wrap_file_prompt_multi_line_content_preserved() {
    let content = "Line 1\nLine 2\nLine 3";
    let out = wrap_file_prompt("skulk-t", content);
    assert!(out.contains("Line 1\nLine 2\nLine 3"));
}

fn sample_issue() -> GhIssue {
    GhIssue {
        title: "Add feature X".into(),
        body: "We need X to do Y.".into(),
        comments: vec![GhComment {
            author: GhAuthor { login: "alice".into() },
            body: "Agreed, let's scope it.".into(),
            created_at: "2025-01-02T10:00:00Z".into(),
        }],
    }
}

#[test]
fn wrap_github_prompt_contains_id_title_branch() {
    let out = wrap_github_prompt("42", "skulk-fix", &sample_issue());
    assert!(out.contains("#42"));
    assert!(out.contains("Add feature X"));
    assert!(out.contains("skulk-fix"));
    assert!(out.contains("gh` available"));
}

#[test]
fn wrap_github_prompt_formats_comments_with_author_and_date() {
    let out = wrap_github_prompt("42", "skulk-fix", &sample_issue());
    assert!(out.contains("--- Comments (1) ---"));
    assert!(out.contains("alice (2025-01-02T10:00:00Z):"));
    assert!(out.contains("Agreed, let's scope it."));
    assert!(out.ends_with("Agreed, let's scope it."));
}

#[test]
fn wrap_github_prompt_no_comments_shows_zero_count() {
    let issue = GhIssue { title: "Quiet issue".into(), body: "Just me here.".into(), comments: vec![] };
    let out = wrap_github_prompt("7", "skulk-quiet", &issue);
    assert!(out.contains("--- Comments (0) ---"));
    assert!(out.ends_with("--- Comments (0) ---"));
}

#[test]
fn gh_availability_command_checks_gh_and_auth() {
    let cmd = gh_availability_command();
    assert!(cmd.contains("command -v gh"));
    assert!(cmd.contains("gh auth status"));
    assert!(cmd.contains("SKULK_GH_MISSING"));
    assert!(cmd.contains("SKULK_GH_UNAUTHENTICATED"));
    assert!(cmd.contains("SKULK_GH_OK"));
}

#[test]
fn check_gh_available_outcomes() {
    let cfg = test_config();
    assert!(gh_availability_outcome("SKULK_GH_OK", &cfg).is_ok());
    match gh_availability_outcome("SKULK_GH_MISSING", &cfg) {
        Err(SkulkError::Diagnostic { message, suggestion }) => {
            assert!(message.contains("not installed"));
            assert!(suggestion.contains("skulk init"));
        }
        other => panic!("unexpected {other:?}"),
    }
    match gh_availability_outcome("SKULK_GH_UNAUTHENTICATED", &cfg) {
        Err(SkulkError::Diagnostic { message, suggestion }) => {
            assert!(message.contains("not authenticated"));
            assert!(suggestion.contains("gh auth login"));
        }
        other => panic!("unexpected {other:?}"),
    }
}

#[test]
fn gh_issue_fetch_command_uses_base_path_and_json() {
    let cfg = test_config();
    let cmd = gh_issue_fetch_command("42", &cfg);
    assert!(cmd.contains("cd ~/test-project"));
    assert!(cmd.contains("gh issue view 42"));
    assert!(cmd.contains("--json title,body,comments"));
}

#[test]
fn fetch_outcomes() {
    let cfg = test_config();
    assert_eq!(issue_fetch_outcome(Ok("{}".into()), "42", &cfg).unwrap(), "{}");
    match issue_fetch_outcome(
        Err(SkulkError::SshFailed("GraphQL: Could not resolve to an Issue with the number of 999.".into())),
        "999",
        &cfg,
    ) {
        Err(SkulkError::NotFound(msg)) => assert!(msg.contains("#999")),
        other => panic!("unexpected {other:?}"),
    }
    assert!(matches!(
        issue_fetch_outcome(Err(SkulkError::SshFailed("some other failure".into())), "42", &cfg),
        Err(SkulkError::SshFailed(_))
    ));
}

#[test]
fn file_prompt_from_contents_wraps_or_rejects_blank() {
    let out = file_prompt_from_contents("p.txt", "skulk-t", "Do the thing.\n\n").unwrap();
    assert!(out.contains("Do the thing.\n---"));
    match file_prompt_from_contents("p.txt", "skulk-t", "   \n\n  ") {
        Err(SkulkError::Validation(msg)) => assert_eq!(msg, "Prompt file p.txt is empty."),
        other => panic!("unexpected {other:?}"),
    }
}
