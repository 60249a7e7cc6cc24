//! `skulk doctor`: health checks of the local configuration and the remote
//! host, the remote ones from a single SSH round-trip.

use vstd::prelude::*;
use crate::config::Config;
use crate::display::{checkmark, crossmark, dim, dim_code, styled, warnmark};
use crate::error::{display_spec, ErrorView, SkulkError};
use crate::text::{
    join, join_exec, lines, lines_of, nat_dec, owned, pad_right, pad_right_exec, spaces, spaces_exec,
    starts_with, strip_prefix_str, trim, trim_str, u64_to_dec, views, chars_eq, to_chars,
};

verus! {

/// Width of the label column.
pub const LABEL_WIDTH: usize = 14;

/// Minimum width of the value column; longer values push the marker right.
pub const VALUE_WIDTH: usize = 32;

/// The outcome of one check.
#[derive(Debug, Clone, Copy, PartialEq, Eq, Structural)]
pub enum CheckStatus {
    Pass,
    Warn,
    Fail,
    Skipped,
}

/// One line of the report, with an optional note printed indented below.
#[derive(Debug)]
pub struct CheckRow {
    pub label: String,
    pub value: String,
    pub status: CheckStatus,
    pub note: Option<String>,
}

/// What the remote probe found: each tool's version when installed.
#[derive(Debug)]
pub struct ProbeResults {
    pub tmux: Option<String>,
    pub harness: Option<String>,
    pub gh: Option<String>,
    pub gh_authenticated: bool,
    pub base_exists: bool,
    pub worktree_exists: bool,
}

/// The remote probe: one `key:value` line per check; tools print
/// `<key>:installed:<version>` or `<key>:missing` (the harness under the key
/// `harness`), gh adds `gh-auth:yes|no|na`, and the two paths print
/// `base:` and `worktree:` `exists` or `missing`.
pub open spec fn probe_spec(base: Seq<char>, wt: Seq<char>, h: Seq<char>) -> Seq<char> {
    "if command -v tmux >/dev/null 2>&1; then v=$(tmux -V 2>&1); echo \"tmux:installed:$v\"; else echo \"tmux:missing\"; fi; if command -v "@
        + h + " >/dev/null 2>&1; then v=$("@ + h
        + " --version 2>&1 | head -n1); echo \"harness:installed:$v\"; elif [ -x ~/.local/bin/"@ + h
        + " ]; then v=$(~/.local/bin/"@ + h
        + " --version 2>&1 | head -n1); echo \"harness:installed:$v\"; else echo \"harness:missing\"; fi; if command -v gh >/dev/null 2>&1; then v=$(gh --version 2>&1 | head -n1); echo \"gh:installed:$v\"; if gh auth status >/dev/null 2>&1; then echo \"gh-auth:yes\"; else echo \"gh-auth:no\"; fi; else echo \"gh:missing\"; echo \"gh-auth:na\"; fi; if [ -d "@
        + base + "/.git ]; then echo \"base:exists\"; else echo \"base:missing\"; fi; if [ -d "@ + wt
        + " ]; then echo \"worktree:exists\"; else echo \"worktree:missing\"; fi"@
}

/// The single SSH probe behind the remote checks.
pub fn probe_command(cfg: &Config) -> (r: String)
    ensures
        r@ == probe_spec(cfg.base_path@, cfg.worktree_base@, cfg.harness@),
{
    let h = cfg.harness.as_str();
    let mut s = owned(
        "if command -v tmux >/dev/null 2>&1; then v=$(tmux -V 2>&1); echo \"tmux:installed:$v\"; else echo \"tmux:missing\"; fi; if command -v ",
    );
    s.append(h);
    s.append(" >/dev/null 2>&1; then v=$(");
    s.append(h);
    s.append(" --version 2>&1 | head -n1); echo \"harness:installed:$v\"; elif [ -x ~/.local/bin/");
    s.append(h);
    s.append(" ]; then v=$(~/.local/bin/");
    s.append(h);
    s.append(
        " --version 2>&1 | head -n1); echo \"harness:installed:$v\"; else echo \"harness:missing\"; fi; if command -v gh >/dev/null 2>&1; then v=$(gh --version 2>&1 | head -n1); echo \"gh:installed:$v\"; if gh auth status >/dev/null 2>&1; then echo \"gh-auth:yes\"; else echo \"gh-auth:no\"; fi; else echo \"gh:missing\"; echo \"gh-auth:na\"; fi; if [ -d ",
    );
    s.append(cfg.base_path.as_str());
    s.append("/.git ]; then echo \"base:exists\"; else echo \"base:missing\"; fi; if [ -d ");
    s.append(cfg.worktree_base.as_str());
    s.append(" ]; then echo \"worktree:exists\"; else echo \"worktree:missing\"; fi");
    s
}

/// A version with a known tool prefix (`tmux `, `gh version `) removed,
/// trimmed.
pub open spec fn clean_version_spec(raw: Seq<char>) -> Seq<char> {
    let t = trim(raw);
    if starts_with(t, "tmux "@) {
        trim(t.skip(5))
    } else if starts_with(t, "gh version "@) {
        trim(t.skip(11))
    } else {
        t
    }
}

/// Strip a known tool prefix from a version string: `tmux 3.3a` gives `3.3a`.
pub fn clean_version(raw: &str) -> (r: String)
    ensures
        r@ == clean_version_spec(raw@),
{
    let t = trim_str(raw);
    proof {
        reveal_strlit("tmux ");
        reveal_strlit("gh version ");
    }
    match strip_prefix_str(t.as_str(), "tmux ") {
        Some(rest) => trim_str(rest.as_str()),
        None => match strip_prefix_str(t.as_str(), "gh version ") {
            Some(rest) => trim_str(rest.as_str()),
            None => t,
        },
    }
}

/// The version after `installed:`, cleaned; none for anything else.
pub open spec fn parse_installed_spec(rest: Seq<char>) -> Option<Seq<char>> {
    if starts_with(rest, "installed:"@) {
        Some(clean_version_spec(trim(rest.skip(10))))
    } else {
        None
    }
}

/// The version of an `installed:<version>` value.
pub fn parse_installed(rest: &str) -> (r: Option<String>)
    ensures
        match r {
            Some(v) => parse_installed_spec(rest@) == Some(v@),
            None => parse_installed_spec(rest@) is None,
        },
{
    proof {
        reveal_strlit("installed:");
    }
    match strip_prefix_str(rest, "installed:") {
        Some(v) => Some(clean_version(trim_str(v.as_str()).as_str())),
        None => None,
    }
}

/// The probe's findings as plain values.
pub struct ProbeView {
    pub tmux: Option<Seq<char>>,
    pub harness: Option<Seq<char>>,
    pub gh: Option<Seq<char>>,
    pub gh_authenticated: bool,
    pub base_exists: bool,
    pub worktree_exists: bool,
}

/// The view of an optional owned text.
pub open spec fn opt_view(o: Option<String>) -> Option<Seq<char>> {
    match o {
        Some(s) => Some(s@),
        None => None,
    }
}

/// One trimmed probe line applied to the findings; unknown lines are
/// ignored and a later line for a tool wins.
pub open spec fn probe_step(r: ProbeView, raw_line: Seq<char>) -> ProbeView {
    let l = trim(raw_line);
    if starts_with(l, "tmux:"@) {
        ProbeView { tmux: parse_installed_spec(l.skip(5)), ..r }
    } else if starts_with(l, "harness:"@) {
        ProbeView { harness: parse_installed_spec(l.skip(8)), ..r }
    } else if starts_with(l, "gh:"@) {
        ProbeView { gh: parse_installed_spec(l.skip(3)), ..r }
    } else if l == "gh-auth:yes"@ {
        ProbeView { gh_authenticated: true, ..r }
    } else if l == "base:exists"@ {
        ProbeView { base_exists: true, ..r }
    } else if l == "worktree:exists"@ {
        ProbeView { worktree_exists: true, ..r }
    } else {
        r
    }
}

/// The probe lines applied in order to empty findings.
pub open spec fn probe_fold(ls: Seq<Seq<char>>) -> ProbeView
    decreases ls.len(),
{
    if ls.len() == 0 {
        ProbeView {
            tmux: None,
            harness: None,
            gh: None,
            gh_authenticated: false,
            base_exists: false,
            worktree_exists: false,
        }
    } else {
        probe_step(probe_fold(ls.drop_last()), ls.last())
    }
}

/// The view of probe results.
pub open spec fn probe_view(p: &ProbeResults) -> ProbeView {
    ProbeView {
        tmux: opt_view(p.tmux),
        harness: opt_view(p.harness),
        gh: opt_view(p.gh),
        gh_authenticated: p.gh_authenticated,
        base_exists: p.base_exists,
        worktree_exists: p.worktree_exists,
    }
}

/// Whether `s` is exactly `lit`.
fn is_text(s: &str, lit: &str) -> (b: bool)
    ensures
        b == (s@ == lit@),
{
    let a = to_chars(s);
    let b = to_chars(lit);
    chars_eq(a.as_slice(), b.as_slice())
}

/// Parse the probe's output.
pub fn parse_probe_output(output: &str) -> (r: ProbeResults)
    ensures
        probe_view(&r) == probe_fold(lines(output@)),
{
    let ls = lines_of(output);
    let mut r = ProbeResults {
        tmux: None,
        harness: None,
        gh: None,
        gh_authenticated: false,
        base_exists: false,
        worktree_exists: false,
    };
    let mut i: usize = 0;
    assert(views(ls@).take(0) =~= Seq::<Seq<char>>::empty());
    proof {
        reveal_strlit("tmux:");
        reveal_strlit("harness:");
        reveal_strlit("gh:");
    }
    while i < ls.len()
        invariant
            i <= ls.len(),
            views(ls@) == lines(output@),
            probe_view(&r) == probe_fold(views(ls@).take(i as int)),
            "tmux:"@.len() == 5,
            "harness:"@.len() == 8,
            "gh:"@.len() == 3,
        decreases ls.len() - i,
    {
        let ghost t = views(ls@).take(i + 1);
        assert(t.drop_last() =~= views(ls@).take(i as int));
        assert(t.last() == ls@[i as int]@);
        let line = trim_str(ls[i].as_str());
        let l = line.as_str();
        if let Some(rest) = strip_prefix_str(l, "tmux:") {
            r.tmux = parse_installed(rest.as_str());
        } else if let Some(rest) = strip_prefix_str(l, "harness:") {
            r.harness = parse_installed(rest.as_str());
        } else if let Some(rest) = strip_prefix_str(l, "gh:") {
            r.gh = parse_installed(rest.as_str());
        } else if is_text(l, "gh-auth:yes") {
            r.gh_authenticated = true;
        } else if is_text(l, "base:exists") {
            r.base_exists = true;
        } else if is_text(l, "worktree:exists") {
            r.worktree_exists = true;
        }
        i = i + 1;
    }
    assert(views(ls@).take(ls.len() as int) =~= views(ls@));
    r
}

/// A row as plain values: label, value, status and note.
pub type RowText = (Seq<char>, Seq<char>, CheckStatus, Option<Seq<char>>);

/// The plain values of a row.
pub open spec fn row_view(r: CheckRow) -> RowText {
    (r.label@, r.value@, r.status, opt_view(r.note))
}

/// The plain values of rows, in order.
pub open spec fn rows_view(rows: Seq<CheckRow>) -> Seq<RowText> {
    rows.map_values(|r: CheckRow| row_view(r))
}

/// A row without a note.
pub open spec fn plain_row(label: Seq<char>, value: Seq<char>, status: CheckStatus) -> RowText {
    (label, value, status, None)
}

/// The configuration row: where the config file lives.
pub open spec fn config_row_spec(cfg: Config) -> RowText {
    plain_row(
        "Config"@,
        match cfg.root_dir {
            Some(root) => root@ + "/.skulk/config.toml"@,
            None => ".skulk/config.toml"@,
        },
        CheckStatus::Pass,
    )
}

/// The SSH row when the probe failed, the error as its note: a diagnosis
/// with its suggestion, or the error's text.
pub open spec fn ssh_fail_row_spec(host: Seq<char>, err: ErrorView) -> RowText {
    (
        "SSH"@,
        host,
        CheckStatus::Fail,
        Some(
            match err {
                ErrorView::Diagnostic { message, suggestion } => message + "\nSuggestion: "@ + suggestion,
                other => display_spec(other),
            },
        ),
    )
}

/// The five remote rows, skipped.
pub open spec fn skipped_rows_spec(cfg: Config) -> Seq<RowText> {
    seq![
        plain_row("tmux"@, "\u{2014}"@, CheckStatus::Skipped),
        plain_row(cfg.harness@, "\u{2014}"@, CheckStatus::Skipped),
        plain_row("gh"@, "\u{2014}"@, CheckStatus::Skipped),
        plain_row("Base clone"@, cfg.base_path@, CheckStatus::Skipped),
        plain_row("Worktree dir"@, cfg.worktree_base@, CheckStatus::Skipped),
    ]
}

/// The tmux row: its version, or a failure with how to install it.
pub open spec fn tmux_row_spec(version: Option<Seq<char>>, host: Seq<char>) -> RowText {
    match version {
        Some(v) => plain_row("tmux"@, v, CheckStatus::Pass),
        None => (
            "tmux"@,
            "missing"@,
            CheckStatus::Fail,
            Some("tmux is not installed on "@ + host + ".\nInstall with: ssh "@ + host + " 'sudo apt-get install -y tmux'"@),
        ),
    }
}

/// The harness row: its version, or a failure with how to install it.
pub open spec fn harness_row_spec(version: Option<Seq<char>>, harness: Seq<char>, host: Seq<char>) -> RowText {
    match version {
        Some(v) => plain_row(harness, v, CheckStatus::Pass),
        None => (
            harness,
            "missing"@,
            CheckStatus::Fail,
            Some(
                harness + " is not installed on "@ + host + ".\nInstall with: ssh "@ + host + " 'curl -fsSL https://"@
                    + harness + ".ai/install.sh | sh'"@,
            ),
        ),
    }
}

/// The gh row: fine when installed and authenticated, a warning otherwise
/// (gh is only needed by `new --github` and `ship`).
pub open spec fn gh_row_spec(version: Option<Seq<char>>, authenticated: bool, host: Seq<char>) -> RowText {
    match version {
        Some(v) => if authenticated {
            plain_row("gh"@, "authenticated ("@ + v + ")"@, CheckStatus::Pass)
        } else {
            (
                "gh"@,
                v + " (not authenticated)"@,
                CheckStatus::Warn,
                Some(
                    "gh is installed but not authenticated. Required for `skulk new --github` and `skulk ship`.\nAuthenticate with: ssh -t "@
                        + host + " gh auth login"@,
                ),
            )
        },
        None => (
            "gh"@,
            "missing"@,
            CheckStatus::Warn,
            Some(
                "gh is not installed on "@ + host + ". Required for `skulk new --github` and `skulk ship`.\nInstall with: ssh "@
                    + host + " 'sudo apt-get install -y gh'"@,
            ),
        ),
    }
}

/// The base clone row: its path, failing with how to clone when missing.
pub open spec fn base_clone_row_spec(exists: bool, base_path: Seq<char>, host: Seq<char>) -> RowText {
    if exists {
        plain_row("Base clone"@, base_path, CheckStatus::Pass)
    } else {
        (
            "Base clone"@,
            base_path,
            CheckStatus::Fail,
            Some(
                "Base clone not found at "@ + base_path + " on "@ + host + ".\nClone with: ssh "@ + host
                    + " 'git clone <your-repo-url> "@ + base_path + "'"@,
            ),
        )
    }
}

/// The worktree directory row: its path, failing with how to create it.
pub open spec fn worktree_dir_row_spec(exists: bool, worktree_base: Seq<char>, host: Seq<char>) -> RowText {
    if exists {
        plain_row("Worktree dir"@, worktree_base, CheckStatus::Pass)
    } else {
        (
            "Worktree dir"@,
            worktree_base,
            CheckStatus::Fail,
            Some(
                "Worktree directory does not exist on "@ + host + ".\nCreate with: ssh "@ + host + " 'mkdir -p "@
                    + worktree_base + "'"@,
            ),
        )
    }
}

/// The five remote rows from the probe's findings: tmux, the harness, gh,
/// base clone, worktree directory.
pub open spec fn remote_rows_spec(p: ProbeView, cfg: Config) -> Seq<RowText> {
    seq![
        tmux_row_spec(p.tmux, cfg.host@),
        harness_row_spec(p.harness, cfg.harness@, cfg.host@),
        gh_row_spec(p.gh, p.gh_authenticated, cfg.host@),
        base_clone_row_spec(p.base_exists, cfg.base_path@, cfg.host@),
        worktree_dir_row_spec(p.worktree_exists, cfg.worktree_base@, cfg.host@),
    ]
}

/// The rows of a doctor run: the config and version rows, then SSH; when
/// the probe ran, the five remote rows from its findings, else the five
/// remote rows skipped.
pub open spec fn doctor_rows_spec(cfg: Config, version: Seq<char>, probe: Result<String, SkulkError>) -> Seq<RowText> {
    seq![config_row_spec(cfg), plain_row("skulk"@, version, CheckStatus::Pass)] + match probe {
        Ok(out) => seq![plain_row("SSH"@, cfg.host@, CheckStatus::Pass)] + remote_rows_spec(
            probe_fold(lines(out@)),
            cfg,
        ),
        Err(e) => seq![ssh_fail_row_spec(cfg.host@, e@)] + skipped_rows_spec(cfg),
    }
}

/// The view of an optional borrowed text.
pub open spec fn str_opt(o: Option<&str>) -> Option<Seq<char>> {
    match o {
        Some(s) => Some(s@),
        None => None,
    }
}

/// A row without a note.
fn row(label: &str, value: &str, status: CheckStatus) -> (r: CheckRow)
    ensures
        row_view(r) == plain_row(label@, value@, status),
{
    CheckRow { label: owned(label), value: owned(value), status, note: None }
}

/// The configuration row: where the config file lives.
pub fn config_row(cfg: &Config) -> (r: CheckRow)
    ensures
        row_view(r) == config_row_spec(*cfg),
{
    let value = match &cfg.root_dir {
        Some(root) => {
            let mut v = root.clone();
            v.append("/.skulk/config.toml");
            v
        },
        None => owned(".skulk/config.toml"),
    };
    CheckRow { label: owned("Config"), value, status: CheckStatus::Pass, note: None }
}

/// The row naming the running skulk version.
pub fn skulk_row(version: &str) -> (r: CheckRow)
    ensures
        row_view(r) == plain_row("skulk"@, version@, CheckStatus::Pass),
{
    row("skulk", version, CheckStatus::Pass)
}

/// The SSH row when the probe ran.
pub fn ssh_ok_row(cfg: &Config) -> (r: CheckRow)
    ensures
        row_view(r) == plain_row("SSH"@, cfg.host@, CheckStatus::Pass),
{
    row("SSH", cfg.host.as_str(), CheckStatus::Pass)
}

/// The SSH row when the probe failed, the error as its note.
pub fn ssh_fail_row(cfg: &Config, err: &SkulkError) -> (r: CheckRow)
    ensures
        row_view(r) == ssh_fail_row_spec(cfg.host@, err@),
{
    let note = match err {
        SkulkError::Diagnostic { message, suggestion } => {
            let mut n = message.clone();
            n.append("\nSuggestion: ");
            n.append(suggestion.as_str());
            n
        },
        other => other.message(),
    };
    CheckRow { label: owned("SSH"), value: cfg.host.clone(), status: CheckStatus::Fail, note: Some(note) }
}

/// The rows of the remote checks, skipped because SSH failed.
pub fn skipped_remote_rows(cfg: &Config) -> (r: Vec<CheckRow>)
    ensures
        rows_view(r@) == skipped_rows_spec(*cfg),
{
    let mut v: Vec<CheckRow> = Vec::new();
    v.push(row("tmux", "\u{2014}", CheckStatus::Skipped));
    v.push(row(cfg.harness.as_str(), "\u{2014}", CheckStatus::Skipped));
    v.push(row("gh", "\u{2014}", CheckStatus::Skipped));
    v.push(row("Base clone", cfg.base_path.as_str(), CheckStatus::Skipped));
    v.push(row("Worktree dir", cfg.worktree_base.as_str(), CheckStatus::Skipped));
    assert(rows_view(v@) =~= skipped_rows_spec(*cfg));
    v
}

/// The tmux row: its version, or a failure with how to install it.
pub fn tmux_row(version: Option<&str>, host: &str) -> (r: CheckRow)
    ensures
        row_view(r) == tmux_row_spec(str_opt(version), host@),
{
    match version {
        Some(v) => row("tmux", v, CheckStatus::Pass),
        None => {
            let mut n = owned("tmux is not installed on ");
            n.append(host);
            n.append(".\nInstall with: ssh ");
            n.append(host);
            n.append(" 'sudo apt-get install -y tmux'");
            CheckRow { label: owned("tmux"), value: owned("missing"), status: CheckStatus::Fail, note: Some(n) }
        },
    }
}

/// The harness row: its version, or a failure with how to install it.
pub fn harness_row(version: Option<&str>, harness: &str, host: &str) -> (r: CheckRow)
    ensures
        row_view(r) == harness_row_spec(str_opt(version), harness@, host@),
{
    match version {
        Some(v) => row(harness, v, CheckStatus::Pass),
        None => {
            let mut n = owned(harness);
            n.append(" is not installed on ");
            n.append(host);
            n.append(".\nInstall with: ssh ");
            n.append(host);
            n.append(" 'curl -fsSL https://");
            n.append(harness);
            n.append(".ai/install.sh | sh'");
            CheckRow { label: owned(harness), value: owned("missing"), status: CheckStatus::Fail, note: Some(n) }
        },
    }
}

/// The gh row: fine when installed and authenticated, a warning otherwise.
pub fn gh_row(version: Option<&str>, authenticated: bool, host: &str) -> (r: CheckRow)
    ensures
        row_view(r) == gh_row_spec(str_opt(version), authenticated, host@),
{
    match version {
        Some(v) => {
            if authenticated {
                let mut value = owned("authenticated (");
                value.append(v);
                value.append(")");
                CheckRow { label: owned("gh"), value, status: CheckStatus::Pass, note: None }
            } else {
                let mut value = owned(v);
                value.append(" (not authenticated)");
                let mut n = owned(
                    "gh is installed but not authenticated. Required for `skulk new --github` and `skulk ship`.\nAuthenticate with: ssh -t ",
                );
                n.append(host);
                n.append(" gh auth login");
                CheckRow { label: owned("gh"), value, status: CheckStatus::Warn, note: Some(n) }
            }
        },
        None => {
            let mut n = owned("gh is not installed on ");
            n.append(host);
            n.append(". Required for `skulk new --github` and `skulk ship`.\nInstall with: ssh ");
            n.append(host);
            n.append(" 'sudo apt-get install -y gh'");
            CheckRow { label: owned("gh"), value: owned("missing"), status: CheckStatus::Warn, note: Some(n) }
        },
    }
}

/// The base clone row: its path, failing with how to clone when missing.
pub fn base_clone_row(exists: bool, base_path: &str, host: &str) -> (r: CheckRow)
    ensures
        row_view(r) == base_clone_row_spec(exists, base_path@, host@),
{
    if exists {
        row("Base clone", base_path, CheckStatus::Pass)
    } else {
        let mut n = owned("Base clone not found at ");
        n.append(base_path);
        n.append(" on ");
        n.append(host);
        n.append(".\nClone with: ssh ");
        n.append(host);
        n.append(" 'git clone <your-repo-url> ");
        n.append(base_path);
        n.append("'");
        CheckRow { label: owned("Base clone"), value: owned(base_path), status: CheckStatus::Fail, note: Some(n) }
    }
}

/// The worktree directory row: its path, failing with how to create it.
pub fn worktree_dir_row(exists: bool, worktree_base: &str, host: &str) -> (r: CheckRow)
    ensures
        row_view(r) == worktree_dir_row_spec(exists, worktree_base@, host@),
{
    if exists {
        row("Worktree dir", worktree_base, CheckStatus::Pass)
    } else {
        let mut n = owned("Worktree directory does not exist on ");
        n.append(host);
        n.append(".\nCreate with: ssh ");
        n.append(host);
        n.append(" 'mkdir -p ");
        n.append(worktree_base);
        n.append("'");
        CheckRow { label: owned("Worktree dir"), value: owned(worktree_base), status: CheckStatus::Fail, note: Some(n) }
    }
}

/// The view of an optional owned text as a borrowed one.
fn as_deref(o: &Option<String>) -> (r: Option<&str>)
    ensures
        str_opt(r) == opt_view(*o),
{
    match o {
        Some(s) => Some(s.as_str()),
        None => None,
    }
}

/// The five remote rows, from the probe's findings.
pub fn remote_rows(probe: &ProbeResults, cfg: &Config) -> (r: Vec<CheckRow>)
    ensures
        rows_view(r@) == remote_rows_spec(probe_view(probe), *cfg),
{
    let mut v: Vec<CheckRow> = Vec::new();
    v.push(tmux_row(as_deref(&probe.tmux), cfg.host.as_str()));
    v.push(harness_row(as_deref(&probe.harness), cfg.harness.as_str(), cfg.host.as_str()));
    v.push(gh_row(as_deref(&probe.gh), probe.gh_authenticated, cfg.host.as_str()));
    v.push(base_clone_row(probe.base_exists, cfg.base_path.as_str(), cfg.host.as_str()));
    v.push(worktree_dir_row(probe.worktree_exists, cfg.worktree_base.as_str(), cfg.host.as_str()));
    assert(rows_view(v@) =~= remote_rows_spec(probe_view(probe), *cfg));
    v
}

/// The status marker of a row.
pub open spec fn status_text(s: CheckStatus, color: bool) -> Seq<char> {
    match s {
        CheckStatus::Pass => if color { "\x1b[32m\u{2713}\x1b[0m"@ } else { "[ok]"@ },
        CheckStatus::Warn => if color { "\x1b[33m!\x1b[0m"@ } else { "[warn]"@ },
        CheckStatus::Fail => if color { "\x1b[31m\u{2717}\x1b[0m"@ } else { "[FAIL]"@ },
        CheckStatus::Skipped => styled(dim_code(), "[skip]"@, color),
    }
}

/// The status marker of a row.
pub fn render_status(s: CheckStatus, color: bool) -> (r: String)
    ensures
        r@ == status_text(s, color),
{
    match s {
        CheckStatus::Pass => owned(checkmark(color)),
        CheckStatus::Warn => owned(warnmark(color)),
        CheckStatus::Fail => owned(crossmark(color)),
        CheckStatus::Skipped => dim("[skip]", color),
    }
}

/// Each line prefixed by the label column's width of spaces.
pub open spec fn indent_lines(ls: Seq<Seq<char>>) -> Seq<Seq<char>> {
    ls.map_values(|l: Seq<char>| spaces(14) + l)
}

/// The rendered row: label and colon padded to 14, value padded to 32, the
/// marker; the note's lines follow, each indented by 14 spaces.
pub open spec fn row_text(label: Seq<char>, value: Seq<char>, status: CheckStatus, note: Option<Seq<char>>, color: bool) -> Seq<char> {
    let line = pad_right(label + ":"@, 14) + pad_right(value, 32) + status_text(status, color);
    match note {
        Some(n) => line + "\n"@ + join(indent_lines(lines(n)), "\n"@),
        None => line,
    }
}

/// Render one row.
pub fn render_row(r: &CheckRow, color: bool) -> (out: String)
    ensures
        out@ == row_text(r.label@, r.value@, r.status, opt_view(r.note), color),
{
    let mut label = r.label.clone();
    label.append(":");
    let mut line = pad_right_exec(label.as_str(), LABEL_WIDTH);
    line.append(pad_right_exec(r.value.as_str(), VALUE_WIDTH).as_str());
    line.append(render_status(r.status, color).as_str());
    match &r.note {
        Some(note) => {
            let ls = lines_of(note.as_str());
            let prefix = spaces_exec(LABEL_WIDTH);
            let mut indented: Vec<String> = Vec::new();
            let mut i: usize = 0;
            while i < ls.len()
                invariant
                    i <= ls.len(),
                    prefix@ == spaces(14),
                    indented@.len() == i,
                    forall|k: int| 0 <= k < i ==> #[trigger] indented@[k]@ == spaces(14) + ls@[k]@,
                decreases ls.len() - i,
            {
                let mut l = prefix.clone();
                l.append(ls[i].as_str());
                indented.push(l);
                i = i + 1;
            }
            assert(views(indented@) =~= indent_lines(views(ls@)));
            line.append("\n");
            line.append(join_exec(&indented, "\n").as_str());
            line
        },
        None => line,
    }
}

/// The number of failed rows.
pub open spec fn fail_count(rows: Seq<CheckRow>) -> nat
    decreases rows.len(),
{
    if rows.len() == 0 {
        0
    } else {
        fail_count(rows.drop_last()) + if rows.last().status == CheckStatus::Fail { 1nat } else { 0nat }
    }
}

/// The rows of a doctor run: the config and version rows, then SSH; when
/// the probe ran, the five remote rows from its findings, else the five
/// remote rows skipped.
pub fn doctor_rows(cfg: &Config, version: &str, probe: &Result<String, SkulkError>) -> (r: Vec<CheckRow>)
    ensures
        rows_view(r@) == doctor_rows_spec(*cfg, version@, *probe),
{
    let mut rows: Vec<CheckRow> = Vec::new();
    rows.push(config_row(cfg));
    rows.push(skulk_row(version));
    match probe {
        Ok(output) => {
            rows.push(ssh_ok_row(cfg));
            let p = parse_probe_output(output.as_str());
            let mut rest = remote_rows(&p, cfg);
            rows.append(&mut rest);
            assert(rows_view(rows@) =~= doctor_rows_spec(*cfg, version@, *probe));
        },
        Err(e) => {
            rows.push(ssh_fail_row(cfg, e));
            let mut rest = skipped_remote_rows(cfg);
            rows.append(&mut rest);
            assert(rows_view(rows@) =~= doctor_rows_spec(*cfg, version@, *probe));
        },
    }
    rows
}

/// The verdict of a doctor run: an error counting the failed checks
/// (`1 check failed.`, `<n> checks failed.`), else success.
pub fn doctor_outcome(rows: &Vec<CheckRow>) -> (r: Result<(), SkulkError>)
    ensures
        fail_count(rows@) == 0 ==> r is Ok,
        fail_count(rows@) == 1 ==> (r matches Err(e) && e@ == ErrorView::Validation("1 check failed."@)),
        fail_count(rows@) > 1 ==> (r matches Err(e) && e@ == ErrorView::Validation(
            nat_dec(fail_count(rows@)) + " checks failed."@,
        )),
{
    let mut n: usize = 0;
    let mut i: usize = 0;
    assert(rows@.take(0) =~= Seq::<CheckRow>::empty());
    while i < rows.len()
        invariant
            i <= rows.len(),
            n == fail_count(rows@.take(i as int)),
            n <= i,
        decreases rows.len() - i,
    {
        assert(rows@.take(i + 1).drop_last() =~= rows@.take(i as int));
        if rows[i].status == CheckStatus::Fail {
            n = n + 1;
        }
        i = i + 1;
    }
    assert(rows@.take(rows.len() as int) =~= rows@);
    if n == 0 {
        Ok(())
    } else {
        if n == 1 {
            return Err(SkulkError::Validation(owned("1 check failed.")));
        }
        let mut m = u64_to_dec(n as u64);
        m.append(" checks failed.");
        Err(SkulkError::Validation(m))
    }
}

} // verus!
