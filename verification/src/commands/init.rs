//! `skulk init`: the setup wizard's pieces: git context detection, the
//! generated config file, the remote setup commands and the messages.

use vstd::prelude::*;
use crate::commands::bootstrap::{
    check_spec, clone_command, install_command, install_spec, parse_status_lines,
    remote_check_command, status_fold,
};
use crate::commands::bootstrap::{is_note, opt_seq};
use crate::commands::flow::{Action, Event};
use crate::config::{shell_safe, shell_safe_error, validate_shell_safe};
use crate::display::{bold, bold_code, checkmark, crossmark, dim, dim_code, green, green_code, mark_fail, mark_ok, styled};
use crate::error::{display_spec, ErrorView, SkulkError};
use crate::kvmap::KvMap;
use crate::text::{
    chars_eq, ends_with, ends_with_str, is_last_index, lines, lines_of, owned, rsplit_once_char,
    starts_with, strip_prefix_str, strip_suffix_str, to_chars, trim, trim_str, views,
};
use crate::util::escape_quotes;

verus! {

/// What could be learned about the local git repository.
#[derive(Debug, Clone)]
pub struct GitContext {
    pub remote_url: Option<String>,
    pub default_branch: Option<String>,
    pub repo_name: Option<String>,
}

/// The wizard's answers.
#[derive(Debug, Clone)]
pub struct InitAnswers {
    pub host: String,
    pub session_prefix: String,
    pub default_branch: String,
    pub base_path: String,
    pub worktree_base: String,
    pub repo_url: String,
    pub repo_name: String,
    pub run_setup: bool,
    /// The agent command-line tool the host must provide.
    pub harness: String,
}

/// The text after the last `c`, when `c` occurs.
pub open spec fn after_last(s: Seq<char>, c: char) -> Option<Seq<char>> {
    if s.contains(c) {
        let i = choose|i: int| is_last_index(s, c, i);
        Some(s.skip(i + 1))
    } else {
        None
    }
}

/// A character that occurs has exactly one last index.
proof fn lemma_last_index_unique(s: Seq<char>, c: char, i: int)
    requires
        is_last_index(s, c, i),
    ensures
        s.contains(c),
        (choose|j: int| is_last_index(s, c, j)) == i,
{
    assert(s[i] == c);
    let j = choose|j: int| is_last_index(s, c, j);
    assert(is_last_index(s, c, j));
    if j < i {
        assert(s[i] != c);
    } else if j > i {
        assert(s[j] != c);
    }
}

/// The text after the last `c`, when `c` occurs.
fn after_last_exec(s: &str, c: char) -> (r: Option<String>)
    ensures
        match r {
            Some(x) => after_last(s@, c) == Some(x@),
            None => after_last(s@, c) is None,
        },
{
    match rsplit_once_char(s, c) {
        Some((_, b)) => {
            proof {
                let i = choose|i: int| is_last_index(s@, c, i) && b@ == s@.skip(i + 1);
                lemma_last_index_unique(s@, c, i);
            }
            Some(b)
        },
        None => None,
    }
}

/// The repository name of a remote URL: trimmed, without a `.git` suffix
/// and then a trailing `/`, the text after the last `/`, else after the last
/// `:`; none when that is empty or neither occurs.
pub open spec fn repo_name_spec(url: Seq<char>) -> Option<Seq<char>> {
    let u0 = trim(url);
    let u1 = if ends_with(u0, ".git"@) { u0.take(u0.len() - 4) } else { u0 };
    let u2 = if ends_with(u1, "/"@) { u1.take(u1.len() - 1) } else { u1 };
    let name = match after_last(u2, '/') {
        Some(n) => Some(n),
        None => after_last(u2, ':'),
    };
    match name {
        Some(n) => if n.len() == 0 {
            None
        } else {
            Some(n)
        },
        None => None,
    }
}

/// Parse a repository name from an HTTPS or SSH remote URL.
pub fn parse_repo_name(url: &str) -> (r: Option<String>)
    ensures
        match r {
            Some(n) => repo_name_spec(url@) == Some(n@),
            None => repo_name_spec(url@) is None,
        },
{
    proof {
        reveal_strlit(".git");
        reveal_strlit("/");
    }
    let u0 = trim_str(url);
    let u1 = match strip_suffix_str(u0.as_str(), ".git") {
        Some(x) => x,
        None => u0,
    };
    let u2 = match strip_suffix_str(u1.as_str(), "/") {
        Some(x) => x,
        None => u1,
    };
    let name = match after_last_exec(u2.as_str(), '/') {
        Some(n) => Some(n),
        None => after_last_exec(u2.as_str(), ':'),
    };
    match name {
        Some(n) => {
            if n.as_str().is_empty() {
                None
            } else {
                Some(n)
            }
        },
        None => None,
    }
}

/// The view of an optional owned text.
pub open spec fn opt_view(o: Option<String>) -> Option<Seq<char>> {
    match o {
        Some(s) => Some(s@),
        None => None,
    }
}

/// The git context from the answers to `git remote get-url origin` and
/// `git symbolic-ref refs/remotes/origin/HEAD`: the remote URL, the branch
/// after `refs/remotes/origin/`, and the repository name of the URL.
pub open spec fn git_context_spec(remote: Result<Seq<char>, Seq<char>>, head: Result<Seq<char>, Seq<char>>) -> (
    Option<Seq<char>>,
    Option<Seq<char>>,
    Option<Seq<char>>,
) {
    let url = match remote {
        Ok(u) => Some(u),
        Err(_) => None,
    };
    let branch = match head {
        Ok(h) => if starts_with(h, "refs/remotes/origin/"@) {
            Some(h.skip(20))
        } else {
            None
        },
        Err(_) => None,
    };
    let name = match url {
        Some(u) => repo_name_spec(u),
        None => None,
    };
    (url, branch, name)
}

/// The view of a command's result.
pub open spec fn res_view(r: Result<String, String>) -> Result<Seq<char>, Seq<char>> {
    match r {
        Ok(s) => Ok(s@),
        Err(e) => Err(e@),
    }
}

/// The git context from the two git commands' results.
pub fn git_context_from(remote: Result<String, String>, head: Result<String, String>) -> (r: GitContext)
    ensures
        (opt_view(r.remote_url), opt_view(r.default_branch), opt_view(r.repo_name)) == git_context_spec(
            res_view(remote),
            res_view(head),
        ),
{
    proof {
        reveal_strlit("refs/remotes/origin/");
    }
    let remote_url = match remote {
        Ok(u) => Some(u),
        Err(_) => None,
    };
    let default_branch = match head {
        Ok(h) => strip_prefix_str(h.as_str(), "refs/remotes/origin/"),
        Err(_) => None,
    };
    let repo_name = match &remote_url {
        Some(u) => parse_repo_name(u.as_str()),
        None => None,
    };
    GitContext { remote_url, default_branch, repo_name }
}

/// The generated `.skulk/config.toml`.
pub open spec fn config_toml_spec(a: InitAnswers) -> Seq<char> {
    "host = \""@ + a.host@ + "\"\nsession_prefix = \""@ + a.session_prefix@ + "\"\nbase_path = \""@
        + a.base_path@ + "\"\nworktree_base = \""@ + a.worktree_base@ + "\"\ndefault_branch = \""@
        + a.default_branch@ + "\"\nharness = \""@ + a.harness@ + "\"\n"@
}

/// Generate the config file from the wizard's answers.
pub fn generate_config_toml(answers: &InitAnswers) -> (r: String)
    ensures
        r@ == config_toml_spec(*answers),
{
    let mut s = owned("host = \"");
    s.append(answers.host.as_str());
    s.append("\"\nsession_prefix = \"");
    s.append(answers.session_prefix.as_str());
    s.append("\"\nbase_path = \"");
    s.append(answers.base_path.as_str());
    s.append("\"\nworktree_base = \"");
    s.append(answers.worktree_base.as_str());
    s.append("\"\ndefault_branch = \"");
    s.append(answers.default_branch.as_str());
    s.append("\"\nharness = \"");
    s.append(answers.harness.as_str());
    s.append("\"\n");
    s
}

/// The SSH command that checks `apt-get` exists.
pub fn check_apt_command() -> (r: &'static str)
    ensures
        r@ == "command -v apt-get"@,
{
    "command -v apt-get"
}

/// The SSH command that checks what the host has, for the wizard's paths.
pub fn setup_check_command(answers: &InitAnswers) -> (r: String)
    ensures
        r@ == check_spec(answers.base_path@, answers.worktree_base@, answers.harness@),
{
    remote_check_command(answers.base_path.as_str(), answers.worktree_base.as_str(), answers.harness.as_str())
}

/// Parse the check's output into component -> status.
pub fn parse_setup_status(output: &str) -> (r: KvMap)
    ensures
        r@ == status_fold(lines(output@)),
{
    parse_status_lines(output)
}

/// The SSH command that installs a tool.
pub fn setup_install_command(tool: &str, harness: &str) -> (r: String)
    ensures
        r@ == install_spec(tool@, harness@),
{
    install_command(tool, harness)
}

/// The SSH command that clones the repository.
pub fn setup_clone_command(repo_url: &str, base_path: &str) -> (r: String)
    ensures
        r@ == "git clone '"@ + escape_quotes(repo_url@) + "' "@ + base_path@,
{
    clone_command(repo_url, base_path)
}

/// The SSH command that creates the worktree directory.
pub fn setup_create_worktree_dir_command(worktree_base: &str) -> (r: String)
    ensures
        r@ == "mkdir -p "@ + worktree_base@,
{
    let mut s = owned("mkdir -p ");
    s.append(worktree_base);
    s
}

/// The error when the host has no `apt-get`.
pub fn no_apt_message() -> (r: &'static str)
    ensures
        r@ == "apt-get not found. Debian/Ubuntu required."@,
{
    "apt-get not found. Debian/Ubuntu required."
}


/// The `.gitignore` line that keeps the project's env file out of git.
pub open spec fn gitignore_env_entry_spec() -> Seq<char> {
    ".skulk/.env"@
}

/// The `.gitignore` line that keeps the project's env file out of git.
pub fn gitignore_env_entry() -> (r: &'static str)
    ensures
        r@ == gitignore_env_entry_spec(),
{
    ".skulk/.env"
}

/// Some line of `ls`, trimmed, is `entry`.
pub open spec fn lists_entry(ls: Seq<Seq<char>>, entry: Seq<char>) -> bool {
    exists|i: int| 0 <= i < ls.len() && trim(#[trigger] ls[i]) == entry
}

/// The `.gitignore` after making sure it lists the env file: nothing to
/// change when a line already says so; else the entry on a line of its own
/// at the end, after a newline when the text does not end with one.
pub open spec fn gitignore_update(existing: Seq<char>) -> Option<Seq<char>> {
    if lists_entry(lines(existing), gitignore_env_entry_spec()) {
        None
    } else {
        Some(
            existing + (if existing.len() > 0 && !ends_with(existing, "\n"@) {
                "\n"@
            } else {
                Seq::empty()
            }) + ".skulk/.env\n"@,
        )
    }
}

/// Add the env file to a `.gitignore`'s text: the new text, or nothing when
/// it is already listed.
pub fn ensure_gitignore_entry(existing: &str) -> (r: Option<String>)
    ensures
        opt_view(r) == gitignore_update(existing@),
{
    let ls = lines_of(existing);
    let entry = to_chars(".skulk/.env");
    let mut i: usize = 0;
    while i < ls.len()
        invariant
            i <= ls.len(),
            views(ls@) == lines(existing@),
            entry@ == gitignore_env_entry_spec(),
            forall|j: int| 0 <= j < i ==> trim(#[trigger] views(ls@)[j]) != gitignore_env_entry_spec(),
        decreases ls.len() - i,
    {
        let t = trim_str(ls[i].as_str());
        let tv = to_chars(t.as_str());
        assert(views(ls@)[i as int] == ls@[i as int]@);
        if chars_eq(tv.as_slice(), entry.as_slice()) {
            assert(trim(views(ls@)[i as int]) == gitignore_env_entry_spec());
            assert(lists_entry(lines(existing@), gitignore_env_entry_spec()));
            return None;
        }
        i = i + 1;
    }
    assert(!lists_entry(lines(existing@), gitignore_env_entry_spec()));
    let mut r = owned(existing);
    let ev = to_chars(existing);
    if ev.len() > 0 && !ends_with_str(existing, "\n") {
        r.append("\n");
    }
    r.append(".skulk/.env\n");
    Some(r)
}

/// The template written to `.skulk/init.sh.example`: rename it to
/// `.skulk/init.sh` to run it in each new agent's session before the
/// harness starts.
pub open spec fn init_script_example_spec() -> Seq<char> {
    "#!/usr/bin/env bash\n# Per-agent setup hook for skulk.\n#\n# Rename this file to .skulk/init.sh to enable it. It runs in each new agent's\n# tmux session, inside the agent's worktree, before the harness starts. If it\n# exits non-zero the harness does not start and the session stays open:\n# inspect it with `skulk connect <name>`.\n#\n# Environment:\n#   SKULK_AGENT_NAME  the agent's name\n#   SKULK_SESSION     the tmux session\n#   SKULK_BRANCH      the agent's branch\n#   SKULK_WORKTREE    absolute path of the worktree\n# The variables of .skulk/.env are exported too.\n\nset -euo pipefail\n\n# docker compose up -d\n# npm ci\n"@
}

/// The template written to `.skulk/init.sh.example`.
pub fn init_script_example_content() -> (r: &'static str)
    ensures
        r@ == init_script_example_spec(),
{
    "#!/usr/bin/env bash\n# Per-agent setup hook for skulk.\n#\n# Rename this file to .skulk/init.sh to enable it. It runs in each new agent's\n# tmux session, inside the agent's worktree, before the harness starts. If it\n# exits non-zero the harness does not start and the session stays open:\n# inspect it with `skulk connect <name>`.\n#\n# Environment:\n#   SKULK_AGENT_NAME  the agent's name\n#   SKULK_SESSION     the tmux session\n#   SKULK_BRANCH      the agent's branch\n#   SKULK_WORKTREE    absolute path of the worktree\n# The variables of .skulk/.env are exported too.\n\nset -euo pipefail\n\n# docker compose up -d\n# npm ci\n"
}

/// The welcome banner, with a wolf and bold when `color`.
pub fn welcome_banner(color: bool) -> (r: &'static str)
    ensures
        r@ == if color {
            "\n\x1b[1m\u{1f43a} Welcome to Skulk!\x1b[0m\n   Let's set up your project.\n"@
        } else {
            "\nWelcome to Skulk!\nLet's set up your project.\n"@
        },
{
    if color {
        "\n\x1b[1m\u{1f43a} Welcome to Skulk!\x1b[0m\n   Let's set up your project.\n"
    } else {
        "\nWelcome to Skulk!\nLet's set up your project.\n"
    }
}

/// The example agent name suggested after setup.
pub fn example_agent_name(_repo_name: &str) -> (r: &'static str)
    ensures
        r@ == "my-task"@,
{
    "my-task"
}

/// The closing message with the first command to run.
pub fn success_message(answers: &InitAnswers, color: bool) -> (r: String)
    ensures
        r@ == if color {
            "\n\x1b[1m\u{1f389} Ready!\x1b[0m Create your first agent with:\n   skulk new my-task\n"@
        } else {
            "\nReady! Create your first agent with:\n   skulk new my-task\n"@
        },
{
    let mut cmd = owned("skulk new ");
    cmd.append(example_agent_name(answers.repo_name.as_str()));
    let mut s = if color {
        owned("\n\x1b[1m\u{1f389} Ready!\x1b[0m Create your first agent with:\n   ")
    } else {
        owned("\nReady! Create your first agent with:\n   ")
    };
    s.append(cmd.as_str());
    s.append("\n");
    proof {
        reveal_strlit("skulk new ");
        reveal_strlit("my-task");
        reveal_strlit("\n");
        reveal_strlit("\n\x1b[1m\u{1f389} Ready!\x1b[0m Create your first agent with:\n   ");
        reveal_strlit("\nReady! Create your first agent with:\n   ");
        reveal_strlit("\n\x1b[1m\u{1f389} Ready!\x1b[0m Create your first agent with:\n   skulk new my-task\n");
        reveal_strlit("\nReady! Create your first agent with:\n   skulk new my-task\n");
    }
    s
}

/// Detect the git context by running the two git commands through
/// `run_local`; whatever fails is left out.
pub fn detect_git_context<F: Fn(&str) -> Result<String, String>>(run_local: &F) -> (r: GitContext)
    requires
        forall|s: &str| run_local.requires((s,)),
    ensures
        exists|a: Result<String, String>, b: Result<String, String>|
            run_local.ensures(("git remote get-url origin",), a) && run_local.ensures(
                ("git symbolic-ref refs/remotes/origin/HEAD",),
                b,
            ) && (opt_view(r.remote_url), opt_view(r.default_branch), opt_view(r.repo_name))
                == git_context_spec(res_view(a), res_view(b)),
{
    let a = run_local("git remote get-url origin");
    let b = run_local("git symbolic-ref refs/remotes/origin/HEAD");
    git_context_from(a, b)
}


/// A question mark in green, as the wizard's prompts start.
pub open spec fn ask_mark(c: bool) -> Seq<char> {
    styled(green_code(), "?"@, c)
}

/// The question whether to overwrite an existing configuration.
pub open spec fn reconfigure_question(c: bool) -> Seq<char> {
    "  "@ + styled(dim_code(), "[y/N]"@, c) + " .skulk.toml already exists. Reconfigure?"@
}

/// The prompt for the repository URL.
pub open spec fn url_prompt(c: bool) -> Seq<char> {
    ask_mark(c) + " Git repo URL: "@
}

/// The prompt for the repository name.
pub open spec fn name_prompt(c: bool) -> Seq<char> {
    ask_mark(c) + " Repo name: "@
}

/// The prompt for the SSH host.
pub open spec fn host_prompt(c: bool) -> Seq<char> {
    "\n"@ + ask_mark(c) + " SSH host: "@
}

/// The prompt for the session prefix, showing its default.
pub open spec fn prefix_prompt(c: bool, d: Seq<char>) -> Seq<char> {
    ask_mark(c) + " Session prefix "@ + styled(dim_code(), "["@ + d + "]"@, c) + ": "@
}

/// The prompt for the default branch, showing its default.
pub open spec fn branch_prompt(c: bool, d: Seq<char>) -> Seq<char> {
    ask_mark(c) + " Default branch "@ + styled(dim_code(), "["@ + d + "]"@, c) + ": "@
}

/// The question whether to set the host up now.
pub open spec fn setup_question(c: bool, host: Seq<char>) -> Seq<char> {
    "\n"@ + ask_mark(c) + " Set up "@ + host + " now? "@ + styled(dim_code(), "[Y/n]"@, c)
}

/// The summary of the configuration about to be written.
pub open spec fn config_summary(c: bool, a: InitAnswers) -> Seq<char> {
    "\n"@ + "  "@ + styled(bold_code(), "Config:"@, c) + "\n"@ + "    host           = "@ + a.host@ + "\n"@
        + "    session_prefix = "@ + a.session_prefix@ + "\n"@ + "    base_path      = "@ + a.base_path@ + "\n"@
        + "    worktree_base  = "@ + a.worktree_base@ + "\n"@ + "    default_branch = "@ + a.default_branch@
        + "\n"@
}

/// A prompt action with the text `t`.
pub open spec fn is_prompt(a: Action, t: Seq<char>) -> bool {
    a matches Action::Prompt(x) && x@ == t
}

/// A yes/no question with the text `t` and empty-answer default `d`.
pub open spec fn is_ask(a: Action, t: Seq<char>, d: bool) -> bool {
    a matches Action::Ask(x, y) && x@ == t && y == d
}

/// An error result carrying `e`.
pub open spec fn is_fail(a: Action, e: ErrorView) -> bool {
    a matches Action::Done(Err(x)) && x@ == e
}

/// The branch offered as default: the detected one, else `main`.
pub open spec fn offered_branch(git: GitContext) -> Seq<char> {
    match git.default_branch {
        Some(b) => b@,
        None => "main"@,
    }
}

/// Where the wizard stands.
pub enum WizardStage {
    /// Nothing asked yet.
    Start,
    /// Waiting for the answer whether to reconfigure.
    Reconfirming,
    /// Waiting for the repository URL.
    AskingUrl,
    /// Waiting for the repository name of this URL.
    AskingName(String),
    /// Waiting for the host; URL and name are known.
    AskingHost(String, String),
    /// Waiting for the connection test of the host.
    Probing(String, String, String),
    /// Waiting for the answer whether to test the host again.
    Retrying(String, String, String),
    /// Waiting for the session prefix.
    AskingPrefix(String, String, String),
    /// Waiting for the default branch; the prefix is known.
    AskingBranch(String, String, String, String),
    /// Waiting for the answer whether to set the host up now.
    AskingSetup(InitAnswers),
    /// A text is out; this stage and action come next.
    Then(Box<WizardStage>, Box<Action>),
    /// The wizard is over.
    Finished,
}

/// The init wizard, driven step by step.
pub struct Wizard {
    /// What was detected of the local repository.
    pub git: GitContext,
    /// A configuration already exists.
    pub config_exists: bool,
    pub color: bool,
    /// The agent command-line tool written into the answers.
    pub harness: String,
    pub stage: WizardStage,
    /// The answers, once the wizard has completed.
    pub answers: Option<InitAnswers>,
}

/// Once the repository name `n` is known: it must be shell-safe, then the
/// host is asked.
pub open spec fn after_name(c: bool, url: Seq<char>, n: Seq<char>, st: WizardStage, a: Action) -> bool {
    if shell_safe(n) {
        is_prompt(a, host_prompt(c)) && (st matches WizardStage::AskingHost(u2, n2) && u2@ == url && n2@ == n)
    } else {
        st is Finished && is_fail(a, ErrorView::Validation(shell_safe_error(n, "repo_name"@)))
    }
}

/// Once the URL is known: the detected name, else the name derived from
/// the URL (announced), else the name is asked.
pub open spec fn after_url(w: Wizard, url: Seq<char>, st: WizardStage, a: Action) -> bool {
    let c = w.color;
    match w.git.repo_name {
        Some(n) => after_name(c, url, n@, st, a),
        None => match repo_name_spec(url) {
            Some(p) => is_note(a, "  Derived repo name: "@ + styled(bold_code(), p, c) + "\n"@) && (st matches WizardStage::Then(
                s2,
                x2,
            ) && after_name(c, url, p, *s2, *x2)),
            None => is_prompt(a, name_prompt(c)) && (st matches WizardStage::AskingName(u2) && u2@ == url),
        },
    }
}

/// The repository step: the detected remote (announced), else a note that
/// none was found and the URL is asked.
pub open spec fn repo_step(w: Wizard, st: WizardStage, a: Action) -> bool {
    let c = w.color;
    match w.git.remote_url {
        Some(u) => is_note(a, "  Detected git remote: "@ + styled(bold_code(), u@, c) + "\n"@) && (st matches WizardStage::Then(
            s2,
            x2,
        ) && after_url(w, u@, *s2, *x2)),
        None => is_note(a, "  No git remote detected.\n"@) && (st matches WizardStage::Then(s2, x2) && *s2
            is AskingUrl && is_prompt(*x2, url_prompt(c))),
    }
}

/// A note `t`, then the same question again.
pub open spec fn note_then_again(t: Seq<char>, again: WizardStage, prompt: Seq<char>, st: WizardStage, a: Action) -> bool {
    is_note(a, t) && (st matches WizardStage::Then(s2, x2) && *s2 == again && is_prompt(*x2, prompt))
}

/// The answers of the wizard before the last question.
pub open spec fn draft_answers(w: Wizard, url: Seq<char>, n: Seq<char>, h: Seq<char>, p: Seq<char>, b: Seq<char>, x: InitAnswers) -> bool {
    &&& x.host@ == h
    &&& x.session_prefix@ == p
    &&& x.default_branch@ == b
    &&& x.base_path@ == "~/"@ + n
    &&& x.worktree_base@ == "~/"@ + n + "-worktrees"@
    &&& x.repo_url@ == url
    &&& x.repo_name@ == n
    &&& x.harness == w.harness
}


/// `a` followed by `b`.
fn cat(a: &str, b: &str) -> (r: String)
    ensures
        r@ == a@ + b@,
{
    let mut s = owned(a);
    s.append(b);
    s
}

fn question(c: bool, rest: &str) -> (r: String)
    ensures
        r@ == ask_mark(c) + rest@,
{
    let mut s = green("?", c);
    s.append(rest);
    s
}

fn with_default(c: bool, head: &str, d: &str) -> (r: String)
    ensures
        r@ == ask_mark(c) + head@ + styled(dim_code(), "["@ + d@ + "]"@, c) + ": "@,
{
    let mut s = question(c, head);
    let mut br = cat("[", d);
    br.append("]");
    s.append(dim(br.as_str(), c).as_str());
    s.append(": ");
    s
}

fn bolded_note(head: &str, t: &str, c: bool) -> (r: String)
    ensures
        r@ == head@ + styled(bold_code(), t@, c) + "\n"@,
{
    let mut s = owned(head);
    s.append(bold(t, c).as_str());
    s.append("\n");
    s
}

impl Wizard {
    /// A wizard not yet begun.
    pub fn new(git: GitContext, config_exists: bool, color: bool, harness: String) -> (r: Self)
        ensures
            r.git == git,
            r.config_exists == config_exists,
            r.color == color,
            r.harness == harness,
            r.stage is Start,
            r.answers is None,
    {
        Wizard { git, config_exists, color, harness, stage: WizardStage::Start, answers: None }
    }

    fn after_name_exec(c: bool, url: String, n: String) -> (r: (WizardStage, Action))
        ensures
            after_name(c, url@, n@, r.0, r.1),
    {
        match validate_shell_safe(n.as_str(), "repo_name") {
            Ok(()) => {
                let q = question(c, " SSH host: ");
                let t = cat("\n", q.as_str());
                assert(t@ =~= host_prompt(c));
                (WizardStage::AskingHost(url, n), Action::Prompt(t))
            },
            Err(m) => (WizardStage::Finished, Action::Done(Err(SkulkError::Validation(m)))),
        }
    }

    fn after_url_exec(&self, url: String) -> (r: (WizardStage, Action))
        ensures
            after_url(*self, url@, r.0, r.1),
    {
        let c = self.color;
        match &self.git.repo_name {
            Some(n) => Self::after_name_exec(c, url, n.clone()),
            None => match parse_repo_name(url.as_str()) {
                Some(p) => {
                    let note = bolded_note("  Derived repo name: ", p.as_str(), c);
                    let (st, a) = Self::after_name_exec(c, url, p);
                    (WizardStage::Then(Box::new(st), Box::new(a)), Action::Note(note))
                },
                None => (WizardStage::AskingName(url), Action::Prompt(question(c, " Repo name: "))),
            },
        }
    }

    fn repo_step_exec(&self) -> (r: (WizardStage, Action))
        ensures
            repo_step(*self, r.0, r.1),
    {
        let c = self.color;
        match &self.git.remote_url {
            Some(u) => {
                let note = bolded_note("  Detected git remote: ", u.as_str(), c);
                let (st, a) = self.after_url_exec(u.clone());
                (WizardStage::Then(Box::new(st), Box::new(a)), Action::Note(note))
            },
            None => (
                WizardStage::Then(Box::new(WizardStage::AskingUrl), Box::new(Action::Prompt(question(c, " Git repo URL: ")))),
                Action::Note(owned("  No git remote detected.\n")),
            ),
        }
    }

    fn summary_text(c: bool, a: &InitAnswers) -> (r: String)
        ensures
            r@ == config_summary(c, *a),
    {
        let mut s = owned("\n");
        s.append("  ");
        s.append(bold("Config:", c).as_str());
        s.append("\n");
        s.append("    host           = ");
        s.append(a.host.as_str());
        s.append("\n");
        s.append("    session_prefix = ");
        s.append(a.session_prefix.as_str());
        s.append("\n");
        s.append("    base_path      = ");
        s.append(a.base_path.as_str());
        s.append("\n");
        s.append("    worktree_base  = ");
        s.append(a.worktree_base.as_str());
        s.append("\n");
        s.append("    default_branch = ");
        s.append(a.default_branch.as_str());
        s.append("\n");
        s
    }

    fn prefix_question(c: bool, n: &str) -> (r: String)
        ensures
            r@ == prefix_prompt(c, n@ + "-"@),
    {
        let d = cat(n, "-");
        with_default(c, " Session prefix ", d.as_str())
    }

    fn branch_question(&self) -> (r: String)
        ensures
            r@ == branch_prompt(self.color, offered_branch(self.git)),
    {
        let d = match &self.git.default_branch {
            Some(b) => b.as_str(),
            None => "main",
        };
        with_default(self.color, " Default branch ", d)
    }

    /// Take the next step: given what happened, say what to do. An existing
    /// configuration is only replaced when the user agrees; the repository
    /// URL and name come from git where it knows them, else from the user;
    /// the host must be shell-safe and answer over SSH (the user may retry
    /// or give up); the prefix and branch have defaults and must be
    /// shell-safe; the paths follow from the repository name; the summary
    /// is shown before the last question, whether to set the host up now.
    /// A failure to read an answer ends the wizard with that error.
    pub fn step(&mut self, ev: Event) -> (a: Action)
        ensures
            final(self).git == old(self).git,
            final(self).config_exists == old(self).config_exists,
            final(self).color == old(self).color,
            final(self).harness == old(self).harness,
            !(old(self).stage is AskingSetup) ==> final(self).answers == old(self).answers,
            ({
                let w = *old(self);
                let c = w.color;
                let st = final(self).stage;
                match old(self).stage {
                    WizardStage::Start => if w.config_exists {
                        st is Reconfirming && is_ask(a, reconfigure_question(c), false)
                    } else {
                        repo_step(w, st, a)
                    },
                    WizardStage::Reconfirming => match ev {
                        Event::Reply(Err(e)) => st is Finished && a == Action::Done(Err(e)),
                        Event::Reply(Ok(false)) => st is Finished && is_fail(a, ErrorView::InitAborted),
                        Event::Reply(Ok(true)) => repo_step(w, st, a),
                        _ => st is Finished,
                    },
                    WizardStage::AskingUrl => match ev {
                        Event::Input(Err(e)) => st is Finished && a == Action::Done(Err(e)),
                        Event::Input(Ok(x)) => if x@.len() == 0 {
                            note_then_again("  Repo URL cannot be empty.\n"@, WizardStage::AskingUrl, url_prompt(c), st, a)
                        } else {
                            after_url(w, x@, st, a)
                        },
                        _ => st is Finished,
                    },
                    WizardStage::AskingName(url) => match ev {
                        Event::Input(Err(e)) => st is Finished && a == Action::Done(Err(e)),
                        Event::Input(Ok(x)) => if x@.len() == 0 {
                            note_then_again("  Repo name cannot be empty.\n"@, WizardStage::AskingName(url), name_prompt(c), st, a)
                        } else if !shell_safe(x@) {
                            note_then_again(
                                "  "@ + shell_safe_error(x@, "repo_name"@) + "\n"@,
                                WizardStage::AskingName(url),
                                name_prompt(c),
                                st,
                                a,
                            )
                        } else {
                            after_name(c, url@, x@, st, a)
                        },
                        _ => st is Finished,
                    },
                    WizardStage::AskingHost(url, n) => match ev {
                        Event::Input(Err(e)) => st is Finished && a == Action::Done(Err(e)),
                        Event::Input(Ok(x)) => if x@.len() == 0 {
                            note_then_again("  SSH host cannot be empty.\n"@, WizardStage::AskingHost(url, n), host_prompt(c), st, a)
                        } else if !shell_safe(x@) {
                            note_then_again(
                                "  "@ + shell_safe_error(x@, "host"@) + "\n"@,
                                WizardStage::AskingHost(url, n),
                                host_prompt(c),
                                st,
                                a,
                            )
                        } else {
                            st == WizardStage::Probing(url, n, x) && (a matches Action::Probe(h) && h@ == x@)
                        },
                        _ => st is Finished,
                    },
                    WizardStage::Probing(url, n, h) => match ev {
                        Event::Output(Ok(_)) => note_then_again(
                            "  "@ + mark_ok(c) + " Connected to "@ + h@ + "\n"@,
                            WizardStage::AskingPrefix(url, n, h),
                            prefix_prompt(c, n@ + "-"@),
                            st,
                            a,
                        ),
                        Event::Output(Err(e)) => is_note(a, "  "@ + mark_fail(c) + " "@ + display_spec(e@) + "\n"@) && (
                        st matches WizardStage::Then(s2, x2) && *s2 == WizardStage::Retrying(url, n, h) && is_ask(
                            *x2,
                            "  Retry? [Y/n]"@,
                            true,
                        )),
                        _ => st is Finished,
                    },
                    WizardStage::Retrying(url, n, h) => match ev {
                        Event::Reply(Err(e)) => st is Finished && a == Action::Done(Err(e)),
                        Event::Reply(Ok(false)) => st is Finished && is_fail(a, ErrorView::InitAborted),
                        Event::Reply(Ok(true)) => st == WizardStage::Probing(url, n, h) && (a matches Action::Probe(x)
                            && x@ == h@),
                        _ => st is Finished,
                    },
                    WizardStage::AskingPrefix(url, n, h) => match ev {
                        Event::Input(Err(e)) => st is Finished && a == Action::Done(Err(e)),
                        Event::Input(Ok(x)) => {
                            let v = if x@.len() == 0 { n@ + "-"@ } else { x@ };
                            if !shell_safe(v) {
                                note_then_again(
                                    "  "@ + shell_safe_error(v, "session_prefix"@) + "\n"@,
                                    WizardStage::AskingPrefix(url, n, h),
                                    prefix_prompt(c, n@ + "-"@),
                                    st,
                                    a,
                                )
                            } else {
                                is_prompt(a, branch_prompt(c, offered_branch(w.git))) && (st matches WizardStage::AskingBranch(
                                    u2,
                                    n2,
                                    h2,
                                    p2,
                                ) && u2 == url && n2 == n && h2 == h && p2@ == v)
                            }
                        },
                        _ => st is Finished,
                    },
                    WizardStage::AskingBranch(url, n, h, p) => match ev {
                        Event::Input(Err(e)) => st is Finished && a == Action::Done(Err(e)),
                        Event::Input(Ok(x)) => {
                            let v = if x@.len() == 0 { offered_branch(w.git) } else { x@ };
                            if !shell_safe(v) {
                                note_then_again(
                                    "  "@ + shell_safe_error(v, "default_branch"@) + "\n"@,
                                    WizardStage::AskingBranch(url, n, h, p),
                                    branch_prompt(c, offered_branch(w.git)),
                                    st,
                                    a,
                                )
                            } else {
                                st matches WizardStage::Then(s2, x2) && (*s2 matches WizardStage::AskingSetup(ans)
                                    && draft_answers(w, url@, n@, h@, p@, v, ans) && is_note(a, config_summary(c, ans)))
                                    && is_ask(*x2, setup_question(c, h@), true)
                            }
                        },
                        _ => st is Finished,
                    },
                    WizardStage::AskingSetup(ans) => match ev {
                        Event::Reply(Err(e)) => st is Finished && a == Action::Done(Err(e)) && final(self).answers
                            == old(self).answers,
                        Event::Reply(Ok(b)) => st is Finished && (a matches Action::Done(Ok(()))) && (final(self).answers matches Some(
                            f,
                        ) && f.run_setup == b && f.host == ans.host && f.session_prefix == ans.session_prefix
                            && f.default_branch == ans.default_branch && f.base_path == ans.base_path
                            && f.worktree_base == ans.worktree_base && f.repo_url == ans.repo_url && f.repo_name
                            == ans.repo_name && f.harness == ans.harness),
                        _ => st is Finished,
                    },
                    WizardStage::Then(s2, x2) => st == *s2 && a == *x2,
                    WizardStage::Finished => st is Finished && (a matches Action::Done(Ok(()))),
                }
            }),
    {
        let mut stage = WizardStage::Finished;
        core::mem::swap(&mut stage, &mut self.stage);
        let c = self.color;
        match stage {
            WizardStage::Start => {
                if self.config_exists {
                    let mut q = owned("  ");
                    q.append(dim("[y/N]", c).as_str());
                    q.append(" .skulk.toml already exists. Reconfigure?");
                    self.stage = WizardStage::Reconfirming;
                    Action::Ask(q, false)
                } else {
                    let (st, a) = self.repo_step_exec();
                    self.stage = st;
                    a
                }
            },
            WizardStage::Reconfirming => match ev {
                Event::Reply(Err(e)) => Action::Done(Err(e)),
                Event::Reply(Ok(true)) => {
                    let (st, a) = self.repo_step_exec();
                    self.stage = st;
                    a
                },
                Event::Reply(Ok(false)) => Action::Done(Err(SkulkError::InitAborted)),
                _ => Action::Done(Ok(())),
            },
            WizardStage::AskingUrl => match ev {
                Event::Input(Err(e)) => Action::Done(Err(e)),
                Event::Input(Ok(x)) => {
                    if x.as_str().is_empty() {
                        self.stage = WizardStage::Then(
                            Box::new(WizardStage::AskingUrl),
                            Box::new(Action::Prompt(question(c, " Git repo URL: "))),
                        );
                        Action::Note(owned("  Repo URL cannot be empty.\n"))
                    } else {
                        let (st, a) = self.after_url_exec(x);
                        self.stage = st;
                        a
                    }
                },
                _ => Action::Done(Ok(())),
            },
            WizardStage::AskingName(url) => match ev {
                Event::Input(Err(e)) => Action::Done(Err(e)),
                Event::Input(Ok(x)) => {
                    if x.as_str().is_empty() {
                        self.stage = WizardStage::Then(
                            Box::new(WizardStage::AskingName(url)),
                            Box::new(Action::Prompt(question(c, " Repo name: "))),
                        );
                        Action::Note(owned("  Repo name cannot be empty.\n"))
                    } else {
                        match validate_shell_safe(x.as_str(), "repo_name") {
                            Err(m) => {
                                let mut t = cat("  ", m.as_str());
                                t.append("\n");
                                self.stage = WizardStage::Then(
                                    Box::new(WizardStage::AskingName(url)),
                                    Box::new(Action::Prompt(question(c, " Repo name: "))),
                                );
                                Action::Note(t)
                            },
                            Ok(()) => {
                                let (st, a) = Self::after_name_exec(c, url, x);
                                self.stage = st;
                                a
                            },
                        }
                    }
                },
                _ => Action::Done(Ok(())),
            },
            WizardStage::AskingHost(url, n) => match ev {
                Event::Input(Err(e)) => Action::Done(Err(e)),
                Event::Input(Ok(x)) => {
                    let q = question(c, " SSH host: ");
                    let hp = cat("\n", q.as_str());
                    assert(hp@ =~= host_prompt(c));
                    if x.as_str().is_empty() {
                        self.stage = WizardStage::Then(Box::new(WizardStage::AskingHost(url, n)), Box::new(Action::Prompt(hp)));
                        Action::Note(owned("  SSH host cannot be empty.\n"))
                    } else {
                        match validate_shell_safe(x.as_str(), "host") {
                            Err(m) => {
                                let mut t = cat("  ", m.as_str());
                                t.append("\n");
                                self.stage = WizardStage::Then(
                                    Box::new(WizardStage::AskingHost(url, n)),
                                    Box::new(Action::Prompt(hp)),
                                );
                                Action::Note(t)
                            },
                            Ok(()) => {
                                let h = x.clone();
                                self.stage = WizardStage::Probing(url, n, x);
                                Action::Probe(h)
                            },
                        }
                    }
                },
                _ => Action::Done(Ok(())),
            },
            WizardStage::Probing(url, n, h) => match ev {
                Event::Output(Ok(_)) => {
                    let mut t = cat("  ", checkmark(c));
                    t.append(" Connected to ");
                    t.append(h.as_str());
                    t.append("\n");
                    let q = Self::prefix_question(c, n.as_str());
                    self.stage = WizardStage::Then(Box::new(WizardStage::AskingPrefix(url, n, h)), Box::new(Action::Prompt(q)));
                    Action::Note(t)
                },
                Event::Output(Err(e)) => {
                    let mut t = cat("  ", crossmark(c));
                    t.append(" ");
                    t.append(e.message().as_str());
                    t.append("\n");
                    self.stage = WizardStage::Then(
                        Box::new(WizardStage::Retrying(url, n, h)),
                        Box::new(Action::Ask(owned("  Retry? [Y/n]"), true)),
                    );
                    Action::Note(t)
                },
                _ => Action::Done(Ok(())),
            },
            WizardStage::Retrying(url, n, h) => match ev {
                Event::Reply(Err(e)) => Action::Done(Err(e)),
                Event::Reply(Ok(true)) => {
                    let x = h.clone();
                    self.stage = WizardStage::Probing(url, n, h);
                    Action::Probe(x)
                },
                Event::Reply(Ok(false)) => Action::Done(Err(SkulkError::InitAborted)),
                _ => Action::Done(Ok(())),
            },
            WizardStage::AskingPrefix(url, n, h) => match ev {
                Event::Input(Err(e)) => Action::Done(Err(e)),
                Event::Input(Ok(x)) => {
                    let v = if x.as_str().is_empty() { cat(n.as_str(), "-") } else { x };
                    match validate_shell_safe(v.as_str(), "session_prefix") {
                        Err(m) => {
                            let mut t = cat("  ", m.as_str());
                            t.append("\n");
                            let q = Self::prefix_question(c, n.as_str());
                            self.stage = WizardStage::Then(Box::new(WizardStage::AskingPrefix(url, n, h)), Box::new(Action::Prompt(q)));
                            Action::Note(t)
                        },
                        Ok(()) => {
                            let q = self.branch_question();
                            self.stage = WizardStage::AskingBranch(url, n, h, v);
                            Action::Prompt(q)
                        },
                    }
                },
                _ => Action::Done(Ok(())),
            },
            WizardStage::AskingBranch(url, n, h, p) => match ev {
                Event::Input(Err(e)) => Action::Done(Err(e)),
                Event::Input(Ok(x)) => {
                    let v = if x.as_str().is_empty() {
                        match &self.git.default_branch {
                            Some(b) => b.clone(),
                            None => owned("main"),
                        }
                    } else {
                        x
                    };
                    match validate_shell_safe(v.as_str(), "default_branch") {
                        Err(m) => {
                            let mut t = cat("  ", m.as_str());
                            t.append("\n");
                            let q = self.branch_question();
                            self.stage = WizardStage::Then(Box::new(WizardStage::AskingBranch(url, n, h, p)), Box::new(Action::Prompt(q)));
                            Action::Note(t)
                        },
                        Ok(()) => {
                            let base_path = cat("~/", n.as_str());
                            let mut worktree_base = cat("~/", n.as_str());
                            worktree_base.append("-worktrees");
                            let mut q = cat("\n", green("?", c).as_str());
                            q.append(" Set up ");
                            q.append(h.as_str());
                            q.append(" now? ");
                            q.append(dim("[Y/n]", c).as_str());
                            let ans = InitAnswers {
                                host: h,
                                session_prefix: p,
                                default_branch: v,
                                base_path,
                                worktree_base,
                                repo_url: url,
                                repo_name: n,
                                run_setup: false,
                                harness: self.harness.clone(),
                            };
                            let t = Self::summary_text(c, &ans);
                            self.stage = WizardStage::Then(Box::new(WizardStage::AskingSetup(ans)), Box::new(Action::Ask(q, true)));
                            Action::Note(t)
                        },
                    }
                },
                _ => Action::Done(Ok(())),
            },
            WizardStage::AskingSetup(ans) => match ev {
                Event::Reply(Err(e)) => Action::Done(Err(e)),
                Event::Reply(Ok(b)) => {
                    let mut f = ans;
                    f.run_setup = b;
                    self.answers = Some(f);
                    Action::Done(Ok(()))
                },
                _ => Action::Done(Ok(())),
            },
            WizardStage::Then(s2, x2) => {
                self.stage = *s2;
                *x2
            },
            WizardStage::Finished => Action::Done(Ok(())),
        }
    }
}

} // verus!
