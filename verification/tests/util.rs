use skulk::error::SkulkError;
use skulk::util::{extract_section, shell_escape, validate_model, validate_name, validate_plain_name};

fn err_msg(r: Result<(), SkulkError>) -> String {
    r.unwrap_err().message()
}

#[test]
fn validate_name_valid_simple() {
    assert!(validate_name("my-task").is_ok());
}

#[test]
fn validate_name_valid_digits() {
    assert!(validate_name("fix-123").is_ok());
}

#[test]
fn validate_name_valid_single_char() {
    assert!(validate_name("a").is_ok());
}

#[test]
fn validate_name_valid_max_length() {
    let name = "a".repeat(100);
    assert!(validate_name(&name).is_ok());
}

#[test]
fn validate_name_empty() {
    let result = validate_name("");
    assert!(result.is_err());
    let msg = err_msg(result);
    assert!(msg.contains("empty"), "error should mention 'empty': {msg}");
}

#[test]
fn validate_name_too_long() {
    let name = "a".repeat(101);
    let result = validate_name(&name);
    assert!(result.is_err());
    assert!(err_msg(result).contains("100 characters"));
}

#[test]
fn validate_name_uppercase() {
    assert!(validate_name("My-Task").is_ok());
}

#[test]
fn validate_name_underscore() {
    assert!(validate_name("my_task").is_ok());
}

#[test]
fn validate_name_space() {
    let result = validate_name("my task");
    assert!(result.is_err());
    assert!(err_msg(result).contains("Invalid character"));
}

#[test]
fn validate_name_leading_hyphen() {
    let result = validate_name("-leading");
    assert!(result.is_err());
    assert!(err_msg(result).contains("start with a hyphen"));
}

#[test]
fn validate_name_valid_slash() {
    assert!(validate_name("feat/add-feature").is_ok());
}

#[test]
fn validate_name_valid_namespaced_slash() {
    assert!(validate_name("feat/fix/deep").is_ok());
}

#[test]
fn validate_name_leading_slash_rejected() {
    let result = validate_name("/absolute");
    assert!(result.is_err());
    assert!(err_msg(result).contains("start with a slash"));
}

#[test]
fn validate_name_trailing_slash_rejected() {
    let result = validate_name("feat/");
    assert!(result.is_err());
    assert!(err_msg(result).contains("end with a slash"));
}

#[test]
fn validate_name_consecutive_slashes_rejected() {
    let result = validate_name("feat//thing");
    assert!(result.is_err());
    assert!(err_msg(result).contains("consecutive slashes"));
}

#[test]
fn validate_name_valid_100_chars() {
    let name = "a".repeat(100);
    assert!(validate_name(&name).is_ok());
}

#[test]
fn validate_name_101_chars_rejected() {
    let name = "a".repeat(101);
    let result = validate_name(&name);
    assert!(result.is_err());
    assert!(err_msg(result).contains("100 characters"));
}

#[test]
fn validate_name_counts_bytes_not_characters() {
    // 50 two-byte characters: 100 bytes, still rejected for the character set.
    let name = "\u{e9}".repeat(51);
    assert!(err_msg(validate_name(&name)).contains("100 characters"));
}

#[test]
fn validate_name_invalid_character_message_names_it() {
    assert_eq!(
        err_msg(validate_name("ab$c")),
        "Invalid character '$' in agent name. Only letters, digits, hyphens, underscores, and slashes allowed."
    );
}

#[test]
fn validate_name_trailing_hyphen_rejected() {
    assert_eq!(err_msg(validate_name("a-")), "Agent name cannot end with a hyphen.");
}

#[test]
fn validate_name_consecutive_hyphens_rejected() {
    assert_eq!(err_msg(validate_name("fix--bug")), "Agent name cannot contain consecutive hyphens.");
}

#[test]
fn validate_name_single_hyphens_accepted() {
    assert!(validate_name("fix-the-bug-2").is_ok());
}

#[test]
fn validate_plain_name_accepts_lowercase_digits_hyphens() {
    assert!(validate_plain_name("fix-123").is_ok());
}

#[test]
fn validate_plain_name_rejects_uppercase_underscore_slash() {
    assert_eq!(
        err_msg(validate_plain_name("My-Task")),
        "Invalid character 'M' in agent name. Only lowercase letters, digits, and hyphens allowed."
    );
    assert!(validate_plain_name("my_task").is_err());
    assert!(validate_plain_name("feat/x").is_err());
}

#[test]
fn validate_plain_name_keeps_general_checks_first() {
    assert_eq!(err_msg(validate_plain_name("")), "Agent name cannot be empty.");
    assert_eq!(err_msg(validate_plain_name("a-")), "Agent name cannot end with a hyphen.");
}

#[test]
fn shell_escape_no_quotes() {
    assert_eq!(shell_escape("hello"), "hello");
}

#[test]
fn shell_escape_single_quote() {
    assert_eq!(shell_escape("it's"), "it'\\''s");
}

#[test]
fn shell_escape_empty() {
    assert_eq!(shell_escape(""), "");
}

#[test]
fn shell_escape_backticks_unchanged() {
    assert_eq!(shell_escape("hello `world`"), "hello `world`");
}

#[test]
fn shell_escape_dollar_unchanged() {
    assert_eq!(shell_escape("$HOME/path"), "$HOME/path");
}

#[test]
fn shell_escape_multiple_quotes() {
    assert_eq!(shell_escape("''"), "'\\'''\\''");
}

#[test]
fn validate_model_valid_short_alias() {
    assert!(validate_model("opus").is_ok());
    assert!(validate_model("sonnet").is_ok());
}

#[test]
fn validate_model_valid_full_id() {
    assert!(validate_model("model-opus-4-7").is_ok());
    assert!(validate_model("model-sonnet-4-6").is_ok());
}

#[test]
fn validate_model_valid_with_underscore_and_dot() {
    assert!(validate_model("claude_4.7").is_ok());
}

#[test]
fn validate_model_valid_provider_slash_model() {
    assert!(validate_model("provider/model-opus-4-7").is_ok());
    assert!(validate_model("openai/gpt-4o").is_ok());
}

#[test]
fn validate_model_empty() {
    let result = validate_model("");
    assert!(result.is_err());
    assert!(err_msg(result).contains("empty"));
}

#[test]
fn validate_model_too_long() {
    let m = "a".repeat(65);
    let result = validate_model(&m);
    assert!(result.is_err());
    assert!(err_msg(result).contains("64 characters"));
}

#[test]
fn validate_model_rejects_semicolon() {
    let result = validate_model("opus; rm -rf /");
    assert!(result.is_err());
    assert!(err_msg(result).contains("Invalid character"));
}

#[test]
fn validate_model_rejects_whitespace() {
    assert!(validate_model("opus sonnet").is_err());
}

#[test]
fn validate_model_rejects_single_quote() {
    assert!(validate_model("it's").is_err());
}

#[test]
fn validate_model_rejects_command_substitution() {
    assert!(validate_model("$(whoami)").is_err());
    assert!(validate_model("`id`").is_err());
}

#[test]
fn extract_section_returns_content_between_markers() {
    assert_eq!(extract_section("xx<a>hello</a>yy", "<a>", "</a>"), "hello");
}

#[test]
fn extract_section_missing_marker_is_empty() {
    assert_eq!(extract_section("xx<a>hello", "<a>", "</a>"), "");
    assert_eq!(extract_section("hello</a>", "<a>", "</a>"), "");
}

#[test]
fn extract_section_markers_out_of_order_is_empty() {
    assert_eq!(extract_section("</a>x<a>", "<a>", "</a>"), "");
}

#[test]
fn extract_section_adjacent_markers_is_empty() {
    assert_eq!(extract_section("S\n\nE", "S\n", "\nE"), "");
}
