//! Where a prompt can come from besides the command line: a local file or
//! a GitHub issue fetched with `gh` on the remote.

use vstd::prelude::*;
use crate::commands::flow::{Action, Event};
use crate::config::Config;
use crate::error::{ErrorView, SkulkError};
use crate::text::{
    contains, contains_str, is_digit, lowercase, nat_dec, owned, to_chars, to_lowercase, trim,
    trim_str, u64_to_dec,
};

verus! {

/// A GitHub issue as `gh issue view --json title,body,comments` gives it.
#[derive(Debug)]
pub struct GhIssue {
    pub title: String,
    pub body: String,
    pub comments: Vec<GhComment>,
}

/// A comment on an issue.
#[derive(Debug)]
pub struct GhComment {
    pub author: GhAuthor,
    pub body: String,
    pub created_at: String,
}

/// The author of a comment.
#[derive(Debug)]
pub struct GhAuthor {
    pub login: String,
}

/// The message for an issue id that is not a plain number.
pub open spec fn bad_issue_message(id: Seq<char>) -> Seq<char> {
    "Invalid GitHub issue ID '"@ + id + "'. Must be a positive integer (e.g. 42)."@
}

/// A GitHub issue id is a non-empty run of ASCII digits; other forms
/// (`owner/repo#123`) are not accepted.
pub fn validate_issue_id(id: &str) -> (r: Result<(), SkulkError>)
    ensures
        (id@.len() > 0 && forall|i: int| 0 <= i < id@.len() ==> is_digit(id@[i])) ==> r is Ok,
        !(id@.len() > 0 && forall|i: int| 0 <= i < id@.len() ==> is_digit(id@[i])) ==> (r matches Err(e)
            && e@ == ErrorView::Validation(bad_issue_message(id@))),
{
    let v = to_chars(id);
    let mut ok = v.len() > 0;
    let mut i: usize = 0;
    while i < v.len()
        invariant
            i <= v.len(),
            v@ == id@,
            ok == (v@.len() > 0 && forall|j: int| 0 <= j < i ==> is_digit(v@[j])),
        decreases v.len() - i,
    {
        if !('0' <= v[i] && v[i] <= '9') {
            ok = false;
        }
        i = i + 1;
    }
    if !ok {
        let mut m = owned("Invalid GitHub issue ID '");
        m.append(id);
        m.append("'. Must be a positive integer (e.g. 42).");
        return Err(SkulkError::Validation(m));
    }
    Ok(())
}

/// The `gh` availability probe.
pub open spec fn gh_availability_spec() -> Seq<char> {
    "if ! command -v gh >/dev/null 2>&1; then echo 'SKULK_GH_MISSING'; exit 0; fi; if ! gh auth status >/dev/null 2>&1; then echo 'SKULK_GH_UNAUTHENTICATED'; exit 0; fi; echo 'SKULK_GH_OK'"@
}

/// The SSH command that prints `SKULK_GH_MISSING`, `SKULK_GH_UNAUTHENTICATED`
/// or `SKULK_GH_OK`, always exiting 0 so the marker reaches us.
pub fn gh_availability_command() -> (r: &'static str)
    ensures
        r@ == gh_availability_spec(),
{
    "if ! command -v gh >/dev/null 2>&1; then echo 'SKULK_GH_MISSING'; exit 0; fi; if ! gh auth status >/dev/null 2>&1; then echo 'SKULK_GH_UNAUTHENTICATED'; exit 0; fi; echo 'SKULK_GH_OK'"
}

/// What the availability marker means: missing or unauthenticated `gh` is
/// diagnosed with the fix; anything else is fine.
pub fn gh_availability_outcome(output: &str, cfg: &Config) -> (r: Result<(), SkulkError>)
    ensures
        contains(output@, "SKULK_GH_MISSING"@) ==> (r matches Err(e) && e@ == (ErrorView::Diagnostic {
            message: "`gh` is not installed on "@ + cfg.host@ + "."@,
            suggestion: "Re-run `skulk init` to install gh, or install manually: ssh "@ + cfg.host@
                + " 'sudo apt-get install gh'"@,
        })),
        !contains(output@, "SKULK_GH_MISSING"@) && contains(output@, "SKULK_GH_UNAUTHENTICATED"@) ==> (r matches Err(e) && e@ == (ErrorView::Diagnostic {
            message: "`gh` is not authenticated on "@ + cfg.host@ + "."@,
            suggestion: "Authenticate on the remote: ssh -t "@ + cfg.host@ + " gh auth login"@,
        })),
        !contains(output@, "SKULK_GH_MISSING"@) && !contains(output@, "SKULK_GH_UNAUTHENTICATED"@) ==> r is Ok,
{
    if contains_str(output, "SKULK_GH_MISSING") {
        let mut m = owned("`gh` is not installed on ");
        m.append(cfg.host.as_str());
        m.append(".");
        let mut s = owned("Re-run `skulk init` to install gh, or install manually: ssh ");
        s.append(cfg.host.as_str());
        s.append(" 'sudo apt-get install gh'");
        Err(SkulkError::Diagnostic { message: m, suggestion: s })
    } else if contains_str(output, "SKULK_GH_UNAUTHENTICATED") {
        let mut m = owned("`gh` is not authenticated on ");
        m.append(cfg.host.as_str());
        m.append(".");
        let mut s = owned("Authenticate on the remote: ssh -t ");
        s.append(cfg.host.as_str());
        s.append(" gh auth login");
        Err(SkulkError::Diagnostic { message: m, suggestion: s })
    } else {
        Ok(())
    }
}

/// The SSH command that fetches an issue as JSON from the base clone. The
/// id must have passed `validate_issue_id`.
pub fn gh_issue_fetch_command(issue_id: &str, cfg: &Config) -> (r: String)
    ensures
        r@ == "cd "@ + cfg.base_path@ + " && gh issue view "@ + issue_id@ + " --json title,body,comments"@,
{
    let mut s = owned("cd ");
    s.append(cfg.base_path.as_str());
    s.append(" && gh issue view ");
    s.append(issue_id);
    s.append(" --json title,body,comments");
    s
}

/// What the fetch means: `gh` failing with "could not resolve to an issue"
/// (in any case) is `NotFound`; other failures pass through.
pub fn issue_fetch_outcome(fetch: Result<String, SkulkError>, issue_id: &str, cfg: &Config) -> (r: Result<String, SkulkError>)
    ensures
        match fetch {
            Ok(o) => r matches Ok(x) && x@ == o@,
            Err(e) => match e@ {
                ErrorView::SshFailed(stderr) => if contains(lowercase(stderr), "could not resolve to an issue"@) {
                    r matches Err(f) && f@ == ErrorView::NotFound(
                        "GitHub issue #"@ + issue_id@ + " not found in the repository on "@ + cfg.host@ + "."@,
                    )
                } else {
                    r == Err::<String, SkulkError>(e)
                },
                _ => r == Err::<String, SkulkError>(e),
            },
        },
{
    match fetch {
        Ok(o) => Ok(o),
        Err(SkulkError::SshFailed(stderr)) => {
            let lower = to_lowercase(stderr.as_str());
            if contains_str(lower.as_str(), "could not resolve to an issue") {
                let mut m = owned("GitHub issue #");
                m.append(issue_id);
                m.append(" not found in the repository on ");
                m.append(cfg.host.as_str());
                m.append(".");
                Err(SkulkError::NotFound(m))
            } else {
                Err(SkulkError::SshFailed(stderr))
            }
        },
        Err(e) => Err(e),
    }
}

/// The task prompt made from a file's contents.
pub open spec fn file_prompt_spec(branch: Seq<char>, contents: Seq<char>) -> Seq<char> {
    "You've been assigned a task. Read it carefully, then ask me clarifying questions one at a time before you start implementing.\n\nYou're working in a dedicated git worktree on branch `"@
        + branch + "` \u{2014} feel free to commit freely; the branch is isolated.\n\n---\n"@ + contents
        + "\n---"@
}

/// Wrap a file's contents into the task prompt.
pub fn wrap_file_prompt(branch: &str, contents: &str) -> (r: String)
    ensures
        r@ == file_prompt_spec(branch@, contents@),
{
    let mut s = owned(
        "You've been assigned a task. Read it carefully, then ask me clarifying questions one at a time before you start implementing.\n\nYou're working in a dedicated git worktree on branch `",
    );
    s.append(branch);
    s.append("` \u{2014} feel free to commit freely; the branch is isolated.\n\n---\n");
    s.append(contents);
    s.append("\n---");
    s
}

/// `s` without its trailing newlines.
pub open spec fn trim_end_newlines(s: Seq<char>) -> Seq<char>
    decreases s.len(),
{
    if s.len() > 0 && s.last() == '\n' {
        trim_end_newlines(s.drop_last())
    } else {
        s
    }
}

/// `s` with its trailing newlines dropped.
pub fn trim_end_newlines_exec(s: &str) -> (r: String)
    ensures
        r@ == trim_end_newlines(s@),
{
    let v = to_chars(s);
    let mut n: usize = v.len();
    assert(v@.take(n as int) =~= v@);
    while n > 0 && v[n - 1] == '\n'
        invariant
            n <= v.len(),
            trim_end_newlines(s@) == trim_end_newlines(v@.take(n as int)),
            v@ == s@,
        decreases n,
    {
        assert(v@.take(n as int).drop_last() =~= v@.take(n - 1));
        n = n - 1;
    }
    crate::text::from_chars_range(v.as_slice(), 0, n)
}

/// The block of one comment: `<login> (<date>):\n<body>\n\n`.
pub open spec fn comment_block(c: &GhComment) -> Seq<char> {
    c.author.login@ + " ("@ + c.created_at@ + "):\n"@ + c.body@ + "\n\n"@
}

/// The comment blocks in order.
pub open spec fn comment_blocks(cs: Seq<GhComment>) -> Seq<char>
    decreases cs.len(),
{
    if cs.len() == 0 {
        Seq::empty()
    } else {
        comment_blocks(cs.drop_last()) + comment_block(&cs.last())
    }
}

/// The task prompt made from an issue: the assignment, the branch, the
/// issue title and body, and each comment with its author and date;
/// trailing newlines dropped.
pub open spec fn github_prompt_spec(issue_id: Seq<char>, branch: Seq<char>, issue: &GhIssue) -> Seq<char> {
    trim_end_newlines(
        "You've been assigned GitHub issue #"@ + issue_id
            + ". The full issue and all comments are below. Read them carefully, then ask me clarifying questions one at a time before you start implementing.\n\n"@
            + "You're working in a dedicated git worktree on branch `"@ + branch
            + "` \u{2014} feel free to commit freely. You have `gh` available if you need to interact with the issue further.\n\n"@
            + "--- Issue #"@ + issue_id + ": "@ + issue.title@ + " ---\n"@ + issue.body@ + "\n\n--- Comments ("@
            + nat_dec(issue.comments@.len()) + ") ---\n"@ + comment_blocks(issue.comments@),
    )
}

/// Wrap an issue into the task prompt.
pub fn wrap_github_prompt(issue_id: &str, branch: &str, issue: &GhIssue) -> (r: String)
    ensures
        r@ == github_prompt_spec(issue_id@, branch@, issue),
{
    let mut out = owned("You've been assigned GitHub issue #");
    out.append(issue_id);
    out.append(
        ". The full issue and all comments are below. Read them carefully, then ask me clarifying questions one at a time before you start implementing.\n\n",
    );
    out.append("You're working in a dedicated git worktree on branch `");
    out.append(branch);
    out.append(
        "` \u{2014} feel free to commit freely. You have `gh` available if you need to interact with the issue further.\n\n",
    );
    out.append("--- Issue #");
    out.append(issue_id);
    out.append(": ");
    out.append(issue.title.as_str());
    out.append(" ---\n");
    out.append(issue.body.as_str());
    out.append("\n\n--- Comments (");
    out.append(u64_to_dec(issue.comments.len() as u64).as_str());
    out.append(") ---\n");
    let ghost head = out@;
    let mut i: usize = 0;
    assert(issue.comments@.take(0) =~= Seq::<GhComment>::empty());
    while i < issue.comments.len()
        invariant
            i <= issue.comments.len(),
            out@ == head + comment_blocks(issue.comments@.take(i as int)),
        decreases issue.comments.len() - i,
    {
        let c = &issue.comments[i];
        let ghost t = issue.comments@.take(i + 1);
        assert(t.drop_last() =~= issue.comments@.take(i as int));
        assert(t.last() == issue.comments@[i as int]);
        out.append(c.author.login.as_str());
        out.append(" (");
        out.append(c.created_at.as_str());
        out.append("):\n");
        out.append(c.body.as_str());
        out.append("\n\n");
        i = i + 1;
    }
    assert(issue.comments@.take(issue.comments.len() as int) =~= issue.comments@);
    trim_end_newlines_exec(out.as_str())
}

/// The prompt from a file's contents: an error naming the file when it is
/// blank, else the contents without trailing newlines, wrapped.
pub fn file_prompt_from_contents(path_display: &str, branch: &str, contents: &str) -> (r: Result<String, SkulkError>)
    ensures
        trim(contents@).len() == 0 ==> (r matches Err(e) && e@ == ErrorView::Validation(
            "Prompt file "@ + path_display@ + " is empty."@,
        )),
        trim(contents@).len() > 0 ==> (r matches Ok(p) && p@ == file_prompt_spec(branch@, trim_end_newlines(contents@))),
{
    let t = trim_str(contents);
    if t.as_str().is_empty() {
        let mut m = owned("Prompt file ");
        m.append(path_display);
        m.append(" is empty.");
        return Err(SkulkError::Validation(m));
    }
    let body = trim_end_newlines_exec(contents);
    Ok(wrap_file_prompt(branch, body.as_str()))
}


/// An issue id is a non-empty run of ASCII digits.
pub open spec fn issue_id_ok(id: Seq<char>) -> bool {
    id.len() > 0 && forall|i: int| 0 <= i < id.len() ==> is_digit(id[i])
}

/// What a `gh` availability marker means, over views.
pub open spec fn gh_marker_error(output: Seq<char>, cfg: Config) -> Option<ErrorView> {
    if contains(output, "SKULK_GH_MISSING"@) {
        Some(
            ErrorView::Diagnostic {
                message: "`gh` is not installed on "@ + cfg.host@ + "."@,
                suggestion: "Re-run `skulk init` to install gh, or install manually: ssh "@ + cfg.host@
                    + " 'sudo apt-get install gh'"@,
            },
        )
    } else if contains(output, "SKULK_GH_UNAUTHENTICATED"@) {
        Some(
            ErrorView::Diagnostic {
                message: "`gh` is not authenticated on "@ + cfg.host@ + "."@,
                suggestion: "Authenticate on the remote: ssh -t "@ + cfg.host@ + " gh auth login"@,
            },
        )
    } else {
        None
    }
}

/// Where the fetch of an issue stands.
pub enum IssueStage {
    Start,
    /// Waiting for the `gh` check.
    CheckingGh,
    /// Waiting for the issue's JSON.
    Fetching,
    Finished,
}

/// Fetching a GitHub issue's JSON through `gh` on the remote, driven step
/// by step; once it has succeeded, `raw` holds the JSON.
pub struct IssueFetch {
    pub issue_id: String,
    pub stage: IssueStage,
    pub raw: Option<String>,
}

/// The event a stage waits for.
pub open spec fn issue_expects(st: IssueStage, ev: Event) -> bool {
    match st {
        IssueStage::Start => ev is Begin,
        IssueStage::CheckingGh | IssueStage::Fetching => ev is Output,
        IssueStage::Finished => false,
    }
}

impl IssueFetch {
    /// A fetch of issue `issue_id`, not yet begun.
    pub fn new(issue_id: String) -> (r: Self)
        ensures
            r.issue_id == issue_id,
            r.stage is Start,
            r.raw is None,
    {
        IssueFetch { issue_id, stage: IssueStage::Start, raw: None }
    }

    /// Take the next step: given what happened, say what to do. The id is
    /// checked before anything is sent; `gh` must be installed and logged
    /// in on the host; an issue `gh` cannot resolve is not found.
    pub fn step(&mut self, cfg: &Config, ev: Event) -> (a: Action)
        requires
            issue_expects(old(self).stage, ev),
        ensures
            final(self).issue_id == old(self).issue_id,
            ({
                let id = old(self).issue_id@;
                let st = final(self).stage;
                match old(self).stage {
                    IssueStage::Start => if issue_id_ok(id) {
                        st is CheckingGh && final(self).raw == old(self).raw && (a matches Action::Run(c) && c@
                            == gh_availability_spec())
                    } else {
                        st is Finished && final(self).raw == old(self).raw && (a matches Action::Done(Err(e)) && e@
                            == ErrorView::Validation(bad_issue_message(id)))
                    },
                    IssueStage::CheckingGh => final(self).raw == old(self).raw && match ev {
                        Event::Output(Err(e)) => st is Finished && a == Action::Done(Err(e)),
                        Event::Output(Ok(o)) => match gh_marker_error(o@, *cfg) {
                            Some(v) => st is Finished && (a matches Action::Done(Err(e)) && e@ == v),
                            None => st is Fetching && (a matches Action::Run(c) && c@ == "cd "@ + cfg.base_path@
                                + " && gh issue view "@ + id + " --json title,body,comments"@),
                        },
                        _ => false,
                    },
                    IssueStage::Fetching => match ev {
                        Event::Output(Ok(o)) => st is Finished && (a matches Action::Done(Ok(()))) && (final(self).raw matches Some(
                            x,
                        ) && x@ == o@),
                        Event::Output(Err(e)) => st is Finished && final(self).raw == old(self).raw && match e@ {
                            ErrorView::SshFailed(stderr) => if contains(lowercase(stderr), "could not resolve to an issue"@) {
                                a matches Action::Done(Err(f)) && f@ == ErrorView::NotFound(
                                    "GitHub issue #"@ + id + " not found in the repository on "@ + cfg.host@ + "."@,
                                )
                            } else {
                                a == Action::Done(Err(e))
                            },
                            _ => a == Action::Done(Err(e)),
                        },
                        _ => false,
                    },
                    IssueStage::Finished => false,
                }
            }),
    {
        let mut stage = IssueStage::Finished;
        core::mem::swap(&mut stage, &mut self.stage);
        match stage {
            IssueStage::Start => match validate_issue_id(self.issue_id.as_str()) {
                Err(e) => Action::Done(Err(e)),
                Ok(()) => {
                    self.stage = IssueStage::CheckingGh;
                    Action::Run(owned(gh_availability_command()))
                },
            },
            IssueStage::CheckingGh => match ev {
                Event::Output(Err(e)) => Action::Done(Err(e)),
                Event::Output(Ok(o)) => match gh_availability_outcome(o.as_str(), cfg) {
                    Err(e) => Action::Done(Err(e)),
                    Ok(()) => {
                        self.stage = IssueStage::Fetching;
                        Action::Run(gh_issue_fetch_command(self.issue_id.as_str(), cfg))
                    },
                },
                _ => Action::Done(Ok(())),
            },
            IssueStage::Fetching => match ev {
                Event::Output(r) => match issue_fetch_outcome(r, self.issue_id.as_str(), cfg) {
                    Err(e) => Action::Done(Err(e)),
                    Ok(x) => {
                        self.raw = Some(x);
                        Action::Done(Ok(()))
                    },
                },
                _ => Action::Done(Ok(())),
            },
            IssueStage::Finished => Action::Done(Ok(())),
        }
    }
}

} // verus!
