//! Errors of the agent manager and the classification of remote failures.

use vstd::prelude::*;
use crate::text::{contains, contains_str, lowercase, owned, to_lowercase, trim, trim_str};

verus! {

/// Errors surfaced to the user.
#[derive(Debug)]
pub enum SkulkError {
    /// SSH command could not be spawned
    SshExec(String),
    /// Diagnosed SSH failure with user-friendly message
    Diagnostic { message: String, suggestion: String },
    /// SSH succeeded but remote command failed (unrecognized stderr)
    SshFailed(String),
    /// Validation error (name, input)
    Validation(String),
    /// Resource not found
    NotFound(String),
    /// The user declined to continue the setup wizard
    InitAborted,
    /// A self-update step failed
    UpdateFailed(String),
}

/// The mathematical form of a `SkulkError`: the same variants over character
/// sequences.
pub enum ErrorView {
    SshExec(Seq<char>),
    Diagnostic { message: Seq<char>, suggestion: Seq<char> },
    SshFailed(Seq<char>),
    Validation(Seq<char>),
    NotFound(Seq<char>),
    InitAborted,
    UpdateFailed(Seq<char>),
}

impl View for SkulkError {
    type V = ErrorView;

    open spec fn view(&self) -> ErrorView {
        match self {
            SkulkError::SshExec(m) => ErrorView::SshExec(m@),
            SkulkError::Diagnostic { message, suggestion } => ErrorView::Diagnostic {
                message: message@,
                suggestion: suggestion@,
            },
            SkulkError::SshFailed(m) => ErrorView::SshFailed(m@),
            SkulkError::Validation(m) => ErrorView::Validation(m@),
            SkulkError::NotFound(m) => ErrorView::NotFound(m@),
            SkulkError::InitAborted => ErrorView::InitAborted,
            SkulkError::UpdateFailed(m) => ErrorView::UpdateFailed(m@),
        }
    }
}

/// The text an error displays as.
pub open spec fn display_spec(e: ErrorView) -> Seq<char> {
    match e {
        ErrorView::SshExec(m) => "Failed to run ssh: "@ + m,
        ErrorView::Diagnostic { message, suggestion } => message + "\n  Suggestion: "@ + suggestion,
        ErrorView::SshFailed(m) => "SSH error: "@ + m,
        ErrorView::Validation(m) => m,
        ErrorView::NotFound(m) => m,
        ErrorView::InitAborted => "Setup aborted."@,
        ErrorView::UpdateFailed(m) => "Update failed: "@ + m,
    }
}

impl SkulkError {
    /// The text this error displays as.
    pub fn message(&self) -> (r: String)
        ensures
            r@ == display_spec(self@),
    {
        match self {
            SkulkError::SshExec(m) => {
                let mut r = owned("Failed to run ssh: ");
                r.append(m.as_str());
                r
            },
            SkulkError::Diagnostic { message, suggestion } => {
                let mut r = message.clone();
                r.append("\n  Suggestion: ");
                r.append(suggestion.as_str());
                r
            },
            SkulkError::SshFailed(m) => {
                let mut r = owned("SSH error: ");
                r.append(m.as_str());
                r
            },
            SkulkError::Validation(m) => m.clone(),
            SkulkError::NotFound(m) => m.clone(),
            SkulkError::InitAborted => owned("Setup aborted."),
            SkulkError::UpdateFailed(m) => {
                let mut r = owned("Update failed: ");
                r.append(m.as_str());
                r
            },
        }
    }
}

/// The diagnosis of a remote failure from its stderr (`stderr`), a lowercase
/// copy of it (`lower`) and the host.
pub open spec fn classify_lower_spec(stderr: Seq<char>, lower: Seq<char>, host: Seq<char>) -> ErrorView {
    if contains(lower, "connection timed out"@) || contains(lower, "operation timed out"@) {
        ErrorView::Diagnostic {
            message: "Connection to "@ + host + " timed out."@,
            suggestion: "Check your network connection and that the host is reachable."@,
        }
    } else if contains(lower, "connection refused"@) {
        ErrorView::Diagnostic {
            message: "SSH connection refused by "@ + host + "."@,
            suggestion: "Ensure SSH is running on "@ + host + "."@,
        }
    } else if contains(lower, "host key verification failed"@) {
        ErrorView::Diagnostic {
            message: "Host key verification failed for "@ + host + "."@,
            suggestion: "Accept the host key first: ssh "@ + host,
        }
    } else if contains(lower, "permission denied"@) || contains(lower, "authentication"@) {
        ErrorView::Diagnostic {
            message: "SSH authentication rejected."@,
            suggestion: "Check your SSH key: ssh "@ + host + " whoami"@,
        }
    } else if contains(lower, "could not resolve hostname"@) {
        ErrorView::Diagnostic {
            message: "Cannot resolve hostname '"@ + host + "'."@,
            suggestion: "Check your network connection and DNS resolution."@,
        }
    } else if contains(lower, "command not found"@) {
        ErrorView::Diagnostic {
            message: "Required command not found on "@ + host + "."@,
            suggestion: "Ensure required tools (tmux, git, gh) are installed on "@ + host + "."@,
        }
    } else {
        ErrorView::SshFailed(trim(stderr))
    }
}

/// Turn the stderr of a failed remote command into a diagnosis.
pub fn classify_ssh_error(stderr: &str, host: &str) -> (r: SkulkError)
    ensures
        r@ == classify_lower_spec(stderr@, lowercase(stderr@), host@),
{
    let lower = to_lowercase(stderr);
    classify_ssh_error_lower(stderr, lower.as_str(), host)
}

/// Same as `classify_ssh_error` but takes a lowercased copy of `stderr`.
pub fn classify_ssh_error_lower(stderr: &str, lower: &str, host: &str) -> (r: SkulkError)
    ensures
        r@ == classify_lower_spec(stderr@, lower@, host@),
{
    if contains_str(lower, "connection timed out") || contains_str(lower, "operation timed out") {
        let mut m = owned("Connection to ");
        m.append(host);
        m.append(" timed out.");
        SkulkError::Diagnostic {
            message: m,
            suggestion: owned("Check your network connection and that the host is reachable."),
        }
    } else if contains_str(lower, "connection refused") {
        let mut m = owned("SSH connection refused by ");
        m.append(host);
        m.append(".");
        let mut s = owned("Ensure SSH is running on ");
        s.append(host);
        s.append(".");
        SkulkError::Diagnostic { message: m, suggestion: s }
    } else if contains_str(lower, "host key verification failed") {
        let mut m = owned("Host key verification failed for ");
        m.append(host);
        m.append(".");
        let mut s = owned("Accept the host key first: ssh ");
        s.append(host);
        SkulkError::Diagnostic { message: m, suggestion: s }
    } else if contains_str(lower, "permission denied") || contains_str(lower, "authentication") {
        let mut s = owned("Check your SSH key: ssh ");
        s.append(host);
        s.append(" whoami");
        SkulkError::Diagnostic { message: owned("SSH authentication rejected."), suggestion: s }
    } else if contains_str(lower, "could not resolve hostname") {
        let mut m = owned("Cannot resolve hostname '");
        m.append(host);
        m.append("'.");
        SkulkError::Diagnostic {
            message: m,
            suggestion: owned("Check your network connection and DNS resolution."),
        }
    } else if contains_str(lower, "command not found") {
        let mut m = owned("Required command not found on ");
        m.append(host);
        m.append(".");
        let mut s = owned("Ensure required tools (tmux, git, gh) are installed on ");
        s.append(host);
        s.append(".");
        SkulkError::Diagnostic { message: m, suggestion: s }
    } else {
        SkulkError::SshFailed(trim_str(stderr))
    }
}

/// The diagnosis of a failed agent command whose stderr is `stderr`.
pub open spec fn agent_error_spec(name: Seq<char>, stderr: Seq<char>, lower: Seq<char>, host: Seq<char>) -> ErrorView {
    if contains(lower, "session not found"@) || contains(lower, "can't find session"@) || contains(
        lower,
        "can't find pane"@,
    ) || contains(lower, "unknown revision"@) || contains(lower, "not a valid object name"@)
        || contains(lower, "src refspec"@) {
        ErrorView::NotFound(
            "Agent '"@ + name + "' not found. Check running agents with `skulk list`."@,
        )
    } else if contains(lower, "does not appear to be a git repository"@) || contains(
        lower,
        "no such remote"@,
    ) {
        ErrorView::Diagnostic {
            message: "Remote 'origin' is not configured on the base repository."@,
            suggestion: "Configure origin on "@ + host
                + ": `git -C <base_path> remote add origin <url>`"@,
        }
    } else {
        classify_lower_spec(stderr, lower, host)
    }
}

/// Classify tmux/SSH errors with agent-specific context: a missing session,
/// pane, revision or refspec becomes `NotFound` naming the agent, a missing
/// `origin` a diagnostic; other remote failures are classified as SSH errors
/// and every other error passes through unchanged.
pub fn classify_agent_error(name: &str, err: SkulkError, host: &str) -> (r: SkulkError)
    ensures
        r@ == match err@ {
            ErrorView::SshFailed(s) => agent_error_spec(name@, s, lowercase(s), host@),
            other => other,
        },
{
    match err {
        SkulkError::SshFailed(stderr) => {
            let lower = to_lowercase(stderr.as_str());
            let l = lower.as_str();
            if contains_str(l, "session not found") || contains_str(l, "can't find session")
                || contains_str(l, "can't find pane") || contains_str(l, "unknown revision")
                || contains_str(l, "not a valid object name") || contains_str(l, "src refspec") {
                let mut m = owned("Agent '");
                m.append(name);
                m.append("' not found. Check running agents with `skulk list`.");
                SkulkError::NotFound(m)
            } else if contains_str(l, "does not appear to be a git repository") || contains_str(
                l,
                "no such remote",
            ) {
                let mut s = owned("Configure origin on ");
                s.append(host);
                s.append(": `git -C <base_path> remote add origin <url>`");
                SkulkError::Diagnostic {
                    message: owned("Remote 'origin' is not configured on the base repository."),
                    suggestion: s,
                }
            } else {
                classify_ssh_error_lower(stderr.as_str(), l, host)
            }
        },
        other => other,
    }
}

/// Whether tmux reported that no server or no session exists.
pub fn is_tmux_no_server(stderr: &str) -> (b: bool)
    ensures
        b == (contains(lowercase(stderr@), "no server running"@) || contains(
            lowercase(stderr@),
            "no sessions"@,
        )),
{
    let lower = to_lowercase(stderr);
    contains_str(lower.as_str(), "no server running") || contains_str(lower.as_str(), "no sessions")
}

} // verus!
