//! `skulk bootstrap`: check the remote host and install or create what the
//! agents need (tmux, git, the harness, the base clone, the worktree dir).

use vstd::prelude::*;
use crate::commands::flow::{Action, Event};
use crate::config::Config;
use crate::display::{checkmark, crossmark, mark_fail, mark_ok};
use crate::error::{display_spec, ErrorView, SkulkError};
use crate::kvmap::KvMap;
use crate::text::{
    chars_eq, lines, lines_of, owned, split_once_char, split_once_spec, to_chars, trim, trim_str,
    views,
};
use crate::util::{escape_quotes, shell_escape};

verus! {

/// The remote check: `tool:installed|missing` for tmux, git and the harness
/// (found on the PATH or in `~/.local/bin`), `repo:cloned|missing` and
/// `worktree-dir:exists|missing`.
pub open spec fn check_spec(base: Seq<char>, wt: Seq<char>, h: Seq<char>) -> Seq<char> {
    "for tool in tmux git; do if command -v $tool >/dev/null 2>&1; then echo \"$tool:installed\"; else echo \"$tool:missing\"; fi; done && if command -v "@
        + h + " >/dev/null 2>&1 || [ -x ~/.local/bin/"@ + h + " ]; then echo \""@ + h
        + ":installed\"; else echo \""@ + h + ":missing\"; fi && if [ -d "@ + base
        + "/.git ]; then echo \"repo:cloned\"; else echo \"repo:missing\"; fi && if [ -d "@ + wt
        + " ]; then echo \"worktree-dir:exists\"; else echo \"worktree-dir:missing\"; fi"@
}

/// The remote check for the given paths and harness.
pub fn remote_check_command(base: &str, wt: &str, harness: &str) -> (r: String)
    ensures
        r@ == check_spec(base@, wt@, harness@),
{
    let mut s = owned(
        "for tool in tmux git; do if command -v $tool >/dev/null 2>&1; then echo \"$tool:installed\"; else echo \"$tool:missing\"; fi; done && if command -v ",
    );
    s.append(harness);
    s.append(" >/dev/null 2>&1 || [ -x ~/.local/bin/");
    s.append(harness);
    s.append(" ]; then echo \"");
    s.append(harness);
    s.append(":installed\"; else echo \"");
    s.append(harness);
    s.append(":missing\"; fi && if [ -d ");
    s.append(base);
    s.append("/.git ]; then echo \"repo:cloned\"; else echo \"repo:missing\"; fi && if [ -d ");
    s.append(wt);
    s.append(" ]; then echo \"worktree-dir:exists\"; else echo \"worktree-dir:missing\"; fi");
    s
}

/// The SSH command that checks what the host has.
pub fn bootstrap_check_command(cfg: &Config) -> (r: String)
    ensures
        r@ == check_spec(cfg.base_path@, cfg.worktree_base@, cfg.harness@),
{
    remote_check_command(cfg.base_path.as_str(), cfg.worktree_base.as_str(), cfg.harness.as_str())
}

/// One trimmed `key:value` line applied to the map; other lines are skipped
/// and a later line for a key wins.
pub open spec fn status_step(m: Map<Seq<char>, Seq<char>>, line: Seq<char>) -> Map<Seq<char>, Seq<char>> {
    match split_once_spec(trim(line), ':') {
        Some(p) => m.insert(p.0, p.1),
        None => m,
    }
}

/// The check's lines applied in order.
pub open spec fn status_fold(ls: Seq<Seq<char>>) -> Map<Seq<char>, Seq<char>>
    decreases ls.len(),
{
    if ls.len() == 0 {
        Map::empty()
    } else {
        status_step(status_fold(ls.drop_last()), ls.last())
    }
}

/// Parse the check's output into component -> status.
pub fn parse_status_lines(output: &str) -> (r: KvMap)
    ensures
        r@ == status_fold(lines(output@)),
{
    let ls = lines_of(output);
    let mut map = KvMap::new();
    let mut i: usize = 0;
    assert(views(ls@).take(0) =~= Seq::<Seq<char>>::empty());
    while i < ls.len()
        invariant
            i <= ls.len(),
            views(ls@) == lines(output@),
            map@ == status_fold(views(ls@).take(i as int)),
        decreases ls.len() - i,
    {
        let ghost t = views(ls@).take(i + 1);
        assert(t.drop_last() =~= views(ls@).take(i as int));
        assert(t.last() == ls@[i as int]@);
        let line = trim_str(ls[i].as_str());
        match split_once_char(line.as_str(), ':') {
            Some((k, v)) => {
                map.insert(k, v);
            },
            None => {},
        }
        i = i + 1;
    }
    assert(views(ls@).take(ls.len() as int) =~= views(ls@));
    map
}

/// Parse the check's output into component -> status.
pub fn parse_bootstrap_status(output: &str) -> (r: KvMap)
    ensures
        r@ == status_fold(lines(output@)),
{
    parse_status_lines(output)
}

/// How a tool is installed: tmux and git with apt, the harness with its
/// install script, anything else only reported.
pub open spec fn install_spec(tool: Seq<char>, harness: Seq<char>) -> Seq<char> {
    if tool == "tmux"@ {
        "sudo apt-get update -qq && sudo apt-get install -y -qq tmux"@
    } else if tool == "git"@ {
        "sudo apt-get update -qq && sudo apt-get install -y -qq git"@
    } else if tool == harness {
        "curl -fsSL https://"@ + harness + ".ai/install.sh | sh"@
    } else {
        "echo 'Unknown tool: "@ + tool + "'"@
    }
}

/// The install command for a tool.
pub fn install_command(tool: &str, harness: &str) -> (r: String)
    ensures
        r@ == install_spec(tool@, harness@),
{
    let tv = to_chars(tool);
    let tmux = to_chars("tmux");
    let git = to_chars("git");
    let hv = to_chars(harness);
    if chars_eq(tv.as_slice(), tmux.as_slice()) {
        owned("sudo apt-get update -qq && sudo apt-get install -y -qq tmux")
    } else if chars_eq(tv.as_slice(), git.as_slice()) {
        owned("sudo apt-get update -qq && sudo apt-get install -y -qq git")
    } else if chars_eq(tv.as_slice(), hv.as_slice()) {
        let mut s = owned("curl -fsSL https://");
        s.append(harness);
        s.append(".ai/install.sh | sh");
        s
    } else {
        let mut s = owned("echo 'Unknown tool: ");
        s.append(tool);
        s.append("'");
        s
    }
}

/// The SSH command that installs a tool on the host.
pub fn bootstrap_install_command(tool: &str, cfg: &Config) -> (r: String)
    ensures
        r@ == install_spec(tool@, cfg.harness@),
{
    install_command(tool, cfg.harness.as_str())
}

/// `git clone '<escaped url>' <path>`.
pub fn clone_command(repo_url: &str, base_path: &str) -> (r: String)
    ensures
        r@ == "git clone '"@ + escape_quotes(repo_url@) + "' "@ + base_path@,
{
    let mut s = owned("git clone '");
    s.append(shell_escape(repo_url).as_str());
    s.append("' ");
    s.append(base_path);
    s
}

/// The SSH command that clones the repository into the base path.
pub fn bootstrap_clone_command(repo_url: &str, cfg: &Config) -> (r: String)
    ensures
        r@ == "git clone '"@ + escape_quotes(repo_url@) + "' "@ + cfg.base_path@,
{
    clone_command(repo_url, cfg.base_path.as_str())
}

/// The SSH command that creates the worktree directory.
pub fn bootstrap_create_worktree_dir_command(cfg: &Config) -> (r: String)
    ensures
        r@ == "mkdir -p "@ + cfg.worktree_base@,
{
    let mut s = owned("mkdir -p ");
    s.append(cfg.worktree_base.as_str());
    s
}

/// The tools the host needs, in the order they are checked.
pub fn required_tools(cfg: &Config) -> (r: Vec<String>)
    ensures
        views(r@) == seq!["tmux"@, "git"@, cfg.harness@],
{
    let mut v: Vec<String> = Vec::new();
    v.push(owned("tmux"));
    v.push(owned("git"));
    v.push(cfg.harness.clone());
    assert(views(v@) =~= seq!["tmux"@, "git"@, cfg.harness@]);
    v
}

/// What a component's reported status calls for.
#[derive(Debug, Clone, Copy, PartialEq, Eq, Structural)]
pub enum SetupStep {
    /// Already there.
    Present,
    /// Reported missing: install or create it.
    Missing,
    /// Not reported, or reported otherwise.
    Unknown,
}

/// The step for a component whose status reads `present` when it is there.
pub open spec fn setup_step_spec(status: Option<Seq<char>>, present: Seq<char>) -> SetupStep {
    match status {
        Some(s) => if s == present {
            SetupStep::Present
        } else if s == "missing"@ {
            SetupStep::Missing
        } else {
            SetupStep::Unknown
        },
        None => SetupStep::Unknown,
    }
}

/// The step for component `key`, given the word that means it is present
/// (`installed`, `cloned`, `exists`).
pub fn setup_step(status: &KvMap, key: &str, present: &str) -> (r: SetupStep)
    ensures
        r == setup_step_spec(
            if status@.contains_key(key@) { Some(status@[key@]) } else { None },
            present@,
        ),
{
    match status.get(key) {
        Some(s) => {
            let sv = to_chars(s.as_str());
            let pv = to_chars(present);
            let mv = to_chars("missing");
            if chars_eq(sv.as_slice(), pv.as_slice()) {
                SetupStep::Present
            } else if chars_eq(sv.as_slice(), mv.as_slice()) {
                SetupStep::Missing
            } else {
                SetupStep::Unknown
            }
        },
        None => SetupStep::Unknown,
    }
}

/// A component's status as printed: its reported value, or `unknown`.
pub fn status_or_unknown(status: &KvMap, key: &str) -> (r: String)
    ensures
        r@ == if status@.contains_key(key@) { status@[key@] } else { "unknown"@ },
{
    match status.get(key) {
        Some(s) => s.clone(),
        None => owned("unknown"),
    }
}


/// Whose voice a remote setup speaks in.
#[derive(Debug, Clone, Copy, PartialEq, Eq, Structural)]
pub enum SetupStyle {
    /// `skulk bootstrap`: plain progress lines and a closing line; a failed
    /// install stops the setup.
    Bootstrap,
    /// The setup that ends `skulk init`: apt-get is checked first and
    /// outcomes carry markers, colored when the flag is set; a failed
    /// install only warns.
    Init(bool),
}

/// The host and paths a remote setup works on.
pub struct SetupTarget {
    pub host: String,
    pub base_path: String,
    pub worktree_base: String,
    pub harness: String,
    pub repo_url: String,
}

/// How far the setup has gone through the components.
#[derive(Debug, Clone, Copy, PartialEq, Eq, Structural)]
pub enum SetupPoint {
    /// The tool at this position of tmux, git, the harness.
    Tool(usize),
    Repo,
    WorktreeDir,
    End,
}

/// Where a remote setup stands.
pub enum SetupStage {
    /// Nothing done yet.
    Start,
    /// Waiting for the apt-get check.
    CheckingApt,
    /// Waiting for the component check.
    Checking,
    /// A progress line is out; the component at the point comes next.
    At(KvMap, SetupPoint, bool),
    /// Waiting for the install of the tool at this position.
    Installing(KvMap, usize, bool),
    /// Waiting for the clone.
    Cloning(KvMap),
    /// Waiting for the worktree directory.
    MakingDir(KvMap),
    /// A text is out; this stage and action come next.
    Then(Box<SetupStage>, Box<Action>),
    /// The command is over.
    Finished,
}

/// A remote setup, driven step by step.
pub struct RemoteSetup {
    pub style: SetupStyle,
    pub target: SetupTarget,
    pub stage: SetupStage,
}

/// The tools, in the order they are checked.
pub open spec fn tools_spec(harness: Seq<char>) -> Seq<Seq<char>> {
    seq!["tmux"@, "git"@, harness]
}

/// The reported status of a component, if any.
pub open spec fn lookup(m: Map<Seq<char>, Seq<char>>, k: Seq<char>) -> Option<Seq<char>> {
    if m.contains_key(k) { Some(m[k]) } else { None }
}

/// The reported status as printed: the value, or `unknown`.
pub open spec fn shown_status(m: Map<Seq<char>, Seq<char>>, k: Seq<char>) -> Seq<char> {
    if m.contains_key(k) { m[k] } else { "unknown"@ }
}

/// The first line of a setup.
pub open spec fn setup_header(style: SetupStyle, host: Seq<char>) -> Seq<char> {
    match style {
        SetupStyle::Bootstrap => "Checking "@ + host + " setup...\n\n"@,
        SetupStyle::Init(_) => "\n  Setting up "@ + host + "...\n"@,
    }
}

/// The explanation when the host has no apt-get.
pub open spec fn no_apt_text(color: bool, host: Seq<char>) -> Seq<char> {
    "  "@ + mark_fail(color) + " apt-get not found on "@ + host + ".\n"@
        + "  Skulk currently only supports Debian/Ubuntu servers.\n"@
        + "  Want support for your OS? Open an issue or PR:\n"@ + "  https://github.com/frantufro/skulk/issues\n"@
}

/// The line for tool `t` with the given status.
pub open spec fn tool_line(style: SetupStyle, t: Seq<char>, step: SetupStep, status: Seq<char>) -> Seq<char> {
    match style {
        SetupStyle::Bootstrap => match step {
            SetupStep::Present => "  "@ + t + ": already installed\n"@,
            SetupStep::Missing => "  "@ + t + ": missing -- installing...\n"@,
            SetupStep::Unknown => "  "@ + t + ": unknown status ("@ + status + ")\n"@,
        },
        SetupStyle::Init(c) => match step {
            SetupStep::Present => "  "@ + mark_ok(c) + " "@ + t + " (already installed)\n"@,
            SetupStep::Missing => "  \u{27f3} Installing "@ + t + "...\n"@,
            SetupStep::Unknown => "  ? "@ + t + ": unknown status\n"@,
        },
    }
}

/// The line after tool `t` installed.
pub open spec fn installed_line(style: SetupStyle, t: Seq<char>) -> Seq<char> {
    match style {
        SetupStyle::Bootstrap => "  "@ + t + ": installed successfully\n"@,
        SetupStyle::Init(c) => "  "@ + mark_ok(c) + " "@ + t + " installed\n"@,
    }
}

/// The line after the install of tool `t` failed with `err`.
pub open spec fn install_failed_line(style: SetupStyle, t: Seq<char>, err: Seq<char>) -> Seq<char> {
    match style {
        SetupStyle::Bootstrap => "  "@ + t + ": installation failed -- "@ + err + "\n"@,
        SetupStyle::Init(c) => "  "@ + mark_fail(c) + " "@ + t + " install failed: "@ + err + "\n"@,
    }
}

/// The line for the base clone with the given status.
pub open spec fn repo_line(style: SetupStyle, step: SetupStep, base: Seq<char>, url: Seq<char>, status: Seq<char>) -> Seq<char> {
    match style {
        SetupStyle::Bootstrap => match step {
            SetupStep::Present => "  repo: already cloned at "@ + base + "\n"@,
            SetupStep::Missing => "  repo: cloning "@ + url + " to "@ + base + "...\n"@,
            SetupStep::Unknown => "  repo: unknown status ("@ + status + ")\n"@,
        },
        SetupStyle::Init(c) => match step {
            SetupStep::Present => "  "@ + mark_ok(c) + " repo (already cloned at "@ + base + ")\n"@,
            SetupStep::Missing => "  \u{27f3} Cloning repository...\n"@,
            SetupStep::Unknown => "  ? repo: unexpected status ("@ + status + ")\n"@,
        },
    }
}

/// The line after the clone.
pub open spec fn cloned_line(style: SetupStyle, base: Seq<char>) -> Seq<char> {
    match style {
        SetupStyle::Bootstrap => "  repo: cloned successfully\n"@,
        SetupStyle::Init(c) => "  "@ + mark_ok(c) + " repo cloned to "@ + base + "\n"@,
    }
}

/// The line for the worktree directory with the given status; the init
/// setup creates a missing one without a line first.
pub open spec fn dir_line(style: SetupStyle, step: SetupStep, wt: Seq<char>, status: Seq<char>) -> Option<Seq<char>> {
    match style {
        SetupStyle::Bootstrap => Some(
            match step {
                SetupStep::Present => "  worktree dir: already exists at "@ + wt + "\n"@,
                SetupStep::Missing => "  worktree dir: creating "@ + wt + "...\n"@,
                SetupStep::Unknown => "  worktree dir: unknown status ("@ + status + ")\n"@,
            },
        ),
        SetupStyle::Init(c) => match step {
            SetupStep::Present => Some("  "@ + mark_ok(c) + " worktree dir (already exists)\n"@),
            SetupStep::Missing => None,
            SetupStep::Unknown => Some("  ? worktree dir: unexpected status ("@ + status + ")\n"@),
        },
    }
}

/// The line after the worktree directory was created.
pub open spec fn dir_made_line(style: SetupStyle) -> Seq<char> {
    match style {
        SetupStyle::Bootstrap => "  worktree dir: created successfully\n"@,
        SetupStyle::Init(c) => "  "@ + mark_ok(c) + " worktree dir created\n"@,
    }
}

/// The closing line, if the style has one.
pub open spec fn setup_end_line(style: SetupStyle, host: Seq<char>) -> Option<Seq<char>> {
    match style {
        SetupStyle::Bootstrap => Some("\nBootstrap complete. "@ + host + " is ready for `skulk new`.\n"@),
        SetupStyle::Init(_) => None,
    }
}

/// A note action with the text `t`.
pub open spec fn is_note(a: Action, t: Seq<char>) -> bool {
    a matches Action::Note(x) && x@ == t
}

/// A run action with the command `c`.
pub open spec fn is_run_of(a: Action, c: Seq<char>) -> bool {
    a matches Action::Run(x) && x@ == c
}

/// The note `t`, then on to stage `m`-at-`p`.
pub open spec fn note_then_at(st: SetupStage, a: Action, t: Seq<char>, m: Map<Seq<char>, Seq<char>>, p: SetupPoint, printed: bool) -> bool {
    is_note(a, t) && (st matches SetupStage::At(m2, p2, pr2) && m2@ == m && p2 == p && pr2 == printed)
}

/// What the setup does at the base clone.
pub open spec fn setup_repo(style: SetupStyle, tg: SetupTarget, m: Map<Seq<char>, Seq<char>>, printed: bool, st: SetupStage, a: Action) -> bool {
    let step = setup_step_spec(lookup(m, "repo"@), "cloned"@);
    let line = repo_line(style, step, tg.base_path@, tg.repo_url@, shown_status(m, "repo"@));
    match step {
        SetupStep::Missing => is_note(a, line) && (st matches SetupStage::Then(s2, x2) && (*s2 matches SetupStage::Cloning(
            m2,
        ) && m2@ == m) && is_run_of(*x2, "git clone '"@ + escape_quotes(tg.repo_url@) + "' "@ + tg.base_path@)),
        _ => note_then_at(st, a, line, m, SetupPoint::WorktreeDir, printed),
    }
}

/// What the setup does at point `p` of the components reported in `m`.
pub open spec fn setup_at(style: SetupStyle, tg: SetupTarget, m: Map<Seq<char>, Seq<char>>, p: SetupPoint, printed: bool, st: SetupStage, a: Action) -> bool {
    match p {
        SetupPoint::Tool(i) => if i < 3 {
            let t = tools_spec(tg.harness@)[i as int];
            let step = setup_step_spec(lookup(m, t), "installed"@);
            let line = tool_line(style, t, step, shown_status(m, t));
            match step {
                SetupStep::Missing => is_note(a, line) && (st matches SetupStage::Then(s2, x2) && (
                *s2 matches SetupStage::Installing(m2, i2, pr2) && m2@ == m && i2 == i && pr2 == printed) && is_run_of(
                    *x2,
                    install_spec(t, tg.harness@),
                )),
                SetupStep::Present => note_then_at(st, a, line, m, SetupPoint::Tool((i + 1) as usize), true),
                SetupStep::Unknown => note_then_at(st, a, line, m, SetupPoint::Tool((i + 1) as usize), printed),
            }
        } else if style == SetupStyle::Bootstrap && printed {
            note_then_at(st, a, "\n"@, m, SetupPoint::Repo, printed)
        } else {
            setup_repo(style, tg, m, printed, st, a)
        },
        SetupPoint::Repo => setup_repo(style, tg, m, printed, st, a),
        SetupPoint::WorktreeDir => {
            let step = setup_step_spec(lookup(m, "worktree-dir"@), "exists"@);
            let mk = "mkdir -p "@ + tg.worktree_base@;
            match dir_line(style, step, tg.worktree_base@, shown_status(m, "worktree-dir"@)) {
                Some(line) => if step == SetupStep::Missing {
                    is_note(a, line) && (st matches SetupStage::Then(s2, x2) && (*s2 matches SetupStage::MakingDir(m2)
                        && m2@ == m) && is_run_of(*x2, mk)
                )} else {
                    note_then_at(st, a, line, m, SetupPoint::End, printed)
                },
                None => is_run_of(a, mk) && (st matches SetupStage::MakingDir(m2) && m2@ == m),
            }
        },
        SetupPoint::End => match setup_end_line(style, tg.host@) {
            Some(line) => is_note(a, line) && (st matches SetupStage::Then(s2, x2) && *s2 is Finished && (*x2 matches Action::Done(
                Ok(()),
            ))),
            None => st is Finished && (a matches Action::Done(Ok(()))),
        },
    }
}

/// The stored points are in range.
pub open spec fn setup_wf(st: SetupStage) -> bool {
    match st {
        SetupStage::At(_, p, _) => match p {
            SetupPoint::Tool(i) => i <= 3,
            _ => true,
        },
        SetupStage::Installing(_, i, _) => i < 3,
        SetupStage::Then(s2, _) => match *s2 {
            SetupStage::At(_, p, _) => match p {
                SetupPoint::Tool(i) => i <= 3,
                _ => true,
            },
            SetupStage::Installing(_, i, _) => i < 3,
            SetupStage::Then(_, _) => false,
            _ => true,
        },
        _ => true,
    }
}

/// The event a stage waits for.
pub open spec fn setup_expects(st: SetupStage, ev: Event) -> bool {
    match st {
        SetupStage::Start => ev is Begin,
        SetupStage::CheckingApt | SetupStage::Checking | SetupStage::Installing(_, _, _) | SetupStage::Cloning(_)
        | SetupStage::MakingDir(_) => ev is Output,
        SetupStage::At(_, _, _) | SetupStage::Then(_, _) => ev is Shown,
        SetupStage::Finished => false,
    }
}


/// `a` followed by `b`.
fn cat2(a: &str, b: &str) -> (r: String)
    ensures
        r@ == a@ + b@,
{
    let mut s = owned(a);
    s.append(b);
    s
}

/// `a`, `b`, `c` in a row.
fn cat3(a: &str, b: &str, c: &str) -> (r: String)
    ensures
        r@ == a@ + b@ + c@,
{
    let mut s = owned(a);
    s.append(b);
    s.append(c);
    s
}

/// `a` to `e` in a row.
fn cat5(a: &str, b: &str, c: &str, d: &str, e: &str) -> (r: String)
    ensures
        r@ == a@ + b@ + c@ + d@ + e@,
{
    let mut s = owned(a);
    s.append(b);
    s.append(c);
    s.append(d);
    s.append(e);
    s
}

fn tool_text(style: SetupStyle, t: &str, step: SetupStep, status: &str) -> (r: String)
    ensures
        r@ == tool_line(style, t@, step, status@),
{
    match style {
        SetupStyle::Bootstrap => match step {
            SetupStep::Present => cat3("  ", t, ": already installed\n"),
            SetupStep::Missing => cat3("  ", t, ": missing -- installing...\n"),
            SetupStep::Unknown => cat5("  ", t, ": unknown status (", status, ")\n"),
        },
        SetupStyle::Init(c) => match step {
            SetupStep::Present => cat5("  ", checkmark(c), " ", t, " (already installed)\n"),
            SetupStep::Missing => cat3("  \u{27f3} Installing ", t, "...\n"),
            SetupStep::Unknown => cat3("  ? ", t, ": unknown status\n"),
        },
    }
}

fn repo_text(style: SetupStyle, step: SetupStep, base: &str, url: &str, status: &str) -> (r: String)
    ensures
        r@ == repo_line(style, step, base@, url@, status@),
{
    match style {
        SetupStyle::Bootstrap => match step {
            SetupStep::Present => cat3("  repo: already cloned at ", base, "\n"),
            SetupStep::Missing => cat5("  repo: cloning ", url, " to ", base, "...\n"),
            SetupStep::Unknown => cat3("  repo: unknown status (", status, ")\n"),
        },
        SetupStyle::Init(c) => match step {
            SetupStep::Present => cat5("  ", checkmark(c), " repo (already cloned at ", base, ")\n"),
            SetupStep::Missing => owned("  \u{27f3} Cloning repository...\n"),
            SetupStep::Unknown => cat3("  ? repo: unexpected status (", status, ")\n"),
        },
    }
}

fn dir_text(style: SetupStyle, step: SetupStep, wt: &str, status: &str) -> (r: Option<String>)
    ensures
        opt_seq(r) == dir_line(style, step, wt@, status@),
{
    match style {
        SetupStyle::Bootstrap => Some(
            match step {
                SetupStep::Present => cat3("  worktree dir: already exists at ", wt, "\n"),
                SetupStep::Missing => cat3("  worktree dir: creating ", wt, "...\n"),
                SetupStep::Unknown => cat3("  worktree dir: unknown status (", status, ")\n"),
            },
        ),
        SetupStyle::Init(c) => match step {
            SetupStep::Present => Some(cat3("  ", checkmark(c), " worktree dir (already exists)\n")),
            SetupStep::Missing => None,
            SetupStep::Unknown => Some(cat3("  ? worktree dir: unexpected status (", status, ")\n")),
        },
    }
}

/// The text of an optional string.
pub open spec fn opt_seq(o: Option<String>) -> Option<Seq<char>> {
    match o {
        Some(s) => Some(s@),
        None => None,
    }
}

impl RemoteSetup {
    /// A setup of `target` in the given style, not yet begun.
    pub fn new(style: SetupStyle, target: SetupTarget) -> (r: Self)
        ensures
            r.style == style,
            r.target == target,
            r.stage is Start,
    {
        RemoteSetup { style, target, stage: SetupStage::Start }
    }

    /// The tool at position `i`.
    fn tool(tg: &SetupTarget, i: usize) -> (t: &str)
        requires
            i < 3,
        ensures
            t@ == tools_spec(tg.harness@)[i as int],
    {
        if i == 0 {
            "tmux"
        } else if i == 1 {
            "git"
        } else {
            tg.harness.as_str()
        }
    }

    fn at_repo(style: SetupStyle, tg: &SetupTarget, m: KvMap, printed: bool) -> (r: (SetupStage, Action))
        ensures
            setup_wf(r.0),
            setup_repo(style, *tg, m@, printed, r.0, r.1),
    {
        let step = setup_step(&m, "repo", "cloned");
        let shown = status_or_unknown(&m, "repo");
        let line = repo_text(style, step, tg.base_path.as_str(), tg.repo_url.as_str(), shown.as_str());
        match step {
            SetupStep::Missing => {
                let c = clone_command(tg.repo_url.as_str(), tg.base_path.as_str());
                (SetupStage::Then(Box::new(SetupStage::Cloning(m)), Box::new(Action::Run(c))), Action::Note(line))
            },
            _ => (SetupStage::At(m, SetupPoint::WorktreeDir, printed), Action::Note(line)),
        }
    }

    /// What to do at point `p` of the components reported in `m`.
    fn act(style: SetupStyle, tg: &SetupTarget, m: KvMap, p: SetupPoint, printed: bool) -> (r: (SetupStage, Action))
        requires
            p matches SetupPoint::Tool(i) ==> i <= 3,
        ensures
            setup_wf(r.0),
            setup_at(style, *tg, m@, p, printed, r.0, r.1),
    {
        match p {
            SetupPoint::Tool(i) => {
                if i < 3 {
                    let t = Self::tool(tg, i);
                    let step = setup_step(&m, t, "installed");
                    let shown = status_or_unknown(&m, t);
                    let line = tool_text(style, t, step, shown.as_str());
                    match step {
                        SetupStep::Missing => {
                            let c = install_command(t, tg.harness.as_str());
                            (
                                SetupStage::Then(Box::new(SetupStage::Installing(m, i, printed)), Box::new(Action::Run(c))),
                                Action::Note(line),
                            )
                        },
                        SetupStep::Present => (SetupStage::At(m, SetupPoint::Tool(i + 1), true), Action::Note(line)),
                        SetupStep::Unknown => (SetupStage::At(m, SetupPoint::Tool(i + 1), printed), Action::Note(line)),
                    }
                } else if style == SetupStyle::Bootstrap && printed {
                    (SetupStage::At(m, SetupPoint::Repo, printed), Action::Note(owned("\n")))
                } else {
                    Self::at_repo(style, tg, m, printed)
                }
            },
            SetupPoint::Repo => Self::at_repo(style, tg, m, printed),
            SetupPoint::WorktreeDir => {
                let step = setup_step(&m, "worktree-dir", "exists");
                let shown = status_or_unknown(&m, "worktree-dir");
                let mk = cat2("mkdir -p ", tg.worktree_base.as_str());
                match dir_text(style, step, tg.worktree_base.as_str(), shown.as_str()) {
                    Some(line) => {
                        if step == SetupStep::Missing {
                            (SetupStage::Then(Box::new(SetupStage::MakingDir(m)), Box::new(Action::Run(mk))), Action::Note(line))
                        } else {
                            (SetupStage::At(m, SetupPoint::End, printed), Action::Note(line))
                        }
                    },
                    None => (SetupStage::MakingDir(m), Action::Run(mk)),
                }
            },
            SetupPoint::End => match style {
                SetupStyle::Bootstrap => {
                    let line = cat3("\nBootstrap complete. ", tg.host.as_str(), " is ready for `skulk new`.\n");
                    (SetupStage::Then(Box::new(SetupStage::Finished), Box::new(Action::Done(Ok(())))), Action::Note(line))
                },
                SetupStyle::Init(_) => (SetupStage::Finished, Action::Done(Ok(()))),
            },
        }
    }

    /// Take the next step: given what happened, say what to do. The init
    /// setup first makes sure the host has apt-get; the components are
    /// checked in one command; tmux, git and the harness are installed
    /// where missing (a failed install stops a bootstrap and only warns
    /// during init); the base clone and the worktree directory are created
    /// where missing (a failure there stops either); every outcome gets a
    /// line.
    pub fn step(&mut self, ev: Event) -> (a: Action)
        requires
            setup_wf(old(self).stage),
            setup_expects(old(self).stage, ev),
        ensures
            final(self).style == old(self).style,
            final(self).target == old(self).target,
            setup_wf(final(self).stage),
            ({
                let style = old(self).style;
                let tg = old(self).target;
                let st = final(self).stage;
                let check = check_spec(tg.base_path@, tg.worktree_base@, tg.harness@);
                match old(self).stage {
                    SetupStage::Start => is_note(a, setup_header(style, tg.host@)) && (st matches SetupStage::Then(s2, x2)
                        && match style {
                        SetupStyle::Bootstrap => *s2 is Checking && is_run_of(*x2, check),
                        SetupStyle::Init(_) => *s2 is CheckingApt && is_run_of(*x2, "command -v apt-get"@),
                    }),
                    SetupStage::CheckingApt => match ev {
                        Event::Output(Ok(_)) => st is Checking && is_run_of(a, check),
                        Event::Output(Err(_)) => is_note(
                            a,
                            no_apt_text(
                                match style {
                                    SetupStyle::Init(c) => c,
                                    _ => false,
                                },
                                tg.host@,
                            ),
                        ) && (st matches SetupStage::Then(s2, x2) && *s2 is Finished && (*x2 matches Action::Done(Err(e))
                            && e@ == ErrorView::Validation("apt-get not found. Debian/Ubuntu required."@))),
                        _ => false,
                    },
                    SetupStage::Checking => match ev {
                        Event::Output(Err(e)) => st is Finished && a == Action::Done(Err(e)),
                        Event::Output(Ok(raw)) => setup_at(style, tg, status_fold(lines(raw@)), SetupPoint::Tool(0), false, st, a),
                        _ => false,
                    },
                    SetupStage::At(m, p, printed) => setup_at(style, tg, m@, p, printed, st, a),
                    SetupStage::Installing(m, i, printed) => {
                        let t = tools_spec(tg.harness@)[i as int];
                        match ev {
                            Event::Output(Ok(_)) => note_then_at(st, a, installed_line(style, t), m@, SetupPoint::Tool((i + 1) as usize), printed),
                            Event::Output(Err(e)) => match style {
                                SetupStyle::Bootstrap => is_note(a, install_failed_line(style, t, display_spec(e@))) && (
                                st matches SetupStage::Then(s2, x2) && *s2 is Finished && (*x2 matches Action::Done(Err(f))
                                    && f@ == ErrorView::SshFailed("Failed to install "@ + t + " on "@ + tg.host@))),
                                SetupStyle::Init(_) => note_then_at(
                                    st,
                                    a,
                                    install_failed_line(style, t, display_spec(e@)),
                                    m@,
                                    SetupPoint::Tool((i + 1) as usize),
                                    printed,
                                ),
                            },
                            _ => false,
                        }
                    },
                    SetupStage::Cloning(m) => match ev {
                        Event::Output(Err(e)) => st is Finished && a == Action::Done(Err(e)),
                        Event::Output(Ok(_)) => note_then_at(st, a, cloned_line(style, tg.base_path@), m@, SetupPoint::WorktreeDir, false),
                        _ => false,
                    },
                    SetupStage::MakingDir(m) => match ev {
                        Event::Output(Err(e)) => st is Finished && a == Action::Done(Err(e)),
                        Event::Output(Ok(_)) => note_then_at(st, a, dir_made_line(style), m@, SetupPoint::End, false),
                        _ => false,
                    },
                    SetupStage::Then(s2, x2) => st == *s2 && a == *x2,
                    SetupStage::Finished => false,
                }
            }),
    {
        let mut stage = SetupStage::Finished;
        core::mem::swap(&mut stage, &mut self.stage);
        let style = self.style;
        match stage {
            SetupStage::Start => {
                let header = match style {
                    SetupStyle::Bootstrap => cat3("Checking ", self.target.host.as_str(), " setup...\n\n"),
                    SetupStyle::Init(_) => cat3("\n  Setting up ", self.target.host.as_str(), "...\n"),
                };
                let next = match style {
                    SetupStyle::Bootstrap => {
                        let c = remote_check_command(
                            self.target.base_path.as_str(),
                            self.target.worktree_base.as_str(),
                            self.target.harness.as_str(),
                        );
                        (SetupStage::Checking, Action::Run(c))
                    },
                    SetupStyle::Init(_) => (SetupStage::CheckingApt, Action::Run(owned("command -v apt-get"))),
                };
                self.stage = SetupStage::Then(Box::new(next.0), Box::new(next.1));
                Action::Note(header)
            },
            SetupStage::CheckingApt => match ev {
                Event::Output(Ok(_)) => {
                    let c = remote_check_command(
                        self.target.base_path.as_str(),
                        self.target.worktree_base.as_str(),
                        self.target.harness.as_str(),
                    );
                    self.stage = SetupStage::Checking;
                    Action::Run(c)
                },
                _ => {
                    let color = match style {
                        SetupStyle::Init(c) => c,
                        _ => false,
                    };
                    let mut t = cat5("  ", crossmark(color), " apt-get not found on ", self.target.host.as_str(), ".\n");
                    t.append("  Skulk currently only supports Debian/Ubuntu servers.\n");
                    t.append("  Want support for your OS? Open an issue or PR:\n");
                    t.append("  https://github.com/frantufro/skulk/issues\n");
                    let e = SkulkError::Validation(owned("apt-get not found. Debian/Ubuntu required."));
                    self.stage = SetupStage::Then(Box::new(SetupStage::Finished), Box::new(Action::Done(Err(e))));
                    Action::Note(t)
                },
            },
            SetupStage::Checking => match ev {
                Event::Output(Ok(raw)) => {
                    let m = parse_status_lines(raw.as_str());
                    let (st, a) = Self::act(style, &self.target, m, SetupPoint::Tool(0), false);
                    self.stage = st;
                    a
                },
                Event::Output(Err(e)) => Action::Done(Err(e)),
                _ => Action::Done(Ok(())),
            },
            SetupStage::At(m, p, printed) => {
                let (st, a) = Self::act(style, &self.target, m, p, printed);
                self.stage = st;
                a
            },
            SetupStage::Installing(m, i, printed) => {
                let t = Self::tool(&self.target, i);
                match ev {
                    Event::Output(Ok(_)) => {
                        let line = match style {
                            SetupStyle::Bootstrap => cat3("  ", t, ": installed successfully\n"),
                            SetupStyle::Init(c) => cat5("  ", checkmark(c), " ", t, " installed\n"),
                        };
                        self.stage = SetupStage::At(m, SetupPoint::Tool(i + 1), printed);
                        Action::Note(line)
                    },
                    Event::Output(Err(e)) => {
                        let msg = e.message();
                        match style {
                            SetupStyle::Bootstrap => {
                                let line = cat5("  ", t, ": installation failed -- ", msg.as_str(), "\n");
                                let mut fm = cat3("Failed to install ", t, " on ");
                                fm.append(self.target.host.as_str());
                                let f = SkulkError::SshFailed(fm);
                                self.stage = SetupStage::Then(Box::new(SetupStage::Finished), Box::new(Action::Done(Err(f))));
                                Action::Note(line)
                            },
                            SetupStyle::Init(c) => {
                                let mut line = cat5("  ", crossmark(c), " ", t, " install failed: ");
                                line.append(msg.as_str());
                                line.append("\n");
                                self.stage = SetupStage::At(m, SetupPoint::Tool(i + 1), printed);
                                Action::Note(line)
                            },
                        }
                    },
                    _ => Action::Done(Ok(())),
                }
            },
            SetupStage::Cloning(m) => match ev {
                Event::Output(Ok(_)) => {
                    let line = match style {
                        SetupStyle::Bootstrap => owned("  repo: cloned successfully\n"),
                        SetupStyle::Init(c) => cat5("  ", checkmark(c), " repo cloned to ", self.target.base_path.as_str(), "\n"),
                    };
                    self.stage = SetupStage::At(m, SetupPoint::WorktreeDir, false);
                    Action::Note(line)
                },
                Event::Output(Err(e)) => Action::Done(Err(e)),
                _ => Action::Done(Ok(())),
            },
            SetupStage::MakingDir(m) => match ev {
                Event::Output(Ok(_)) => {
                    let line = match style {
                        SetupStyle::Bootstrap => owned("  worktree dir: created successfully\n"),
                        SetupStyle::Init(c) => cat3("  ", checkmark(c), " worktree dir created\n"),
                    };
                    self.stage = SetupStage::At(m, SetupPoint::End, false);
                    Action::Note(line)
                },
                Event::Output(Err(e)) => Action::Done(Err(e)),
                _ => Action::Done(Ok(())),
            },
            SetupStage::Then(s2, x2) => {
                self.stage = *s2;
                *x2
            },
            SetupStage::Finished => Action::Done(Ok(())),
        }
    }
}

} // verus!
