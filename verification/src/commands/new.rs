//! `skulk new`: create a worktree and a tmux session running the agent, and
//! hand it its first prompt.

use vstd::prelude::*;
use crate::config::Config;
use crate::error::{ErrorView, SkulkError};
use crate::inventory::{inventory_command, inventory_command_spec, parse_inventory, parsed_inventory, AgentInventory};
use crate::commands::flow::{Action, Event};
use crate::text::{owned, vec_contains, views};
use crate::util::{
    escape_quotes, shell_escape, validate_model, validate_model_spec, validate_name,
    validate_name_spec,
};

verus! {

/// Seconds the remote waits for the agent to start before the first prompt.
pub const STARTUP_DELAY: u64 = 5;

/// How the initial prompt fared.
#[derive(Debug, Clone, Copy, PartialEq, Eq, Structural)]
pub enum PromptStatus {
    Delivered,
    Failed,
    NotSent,
}

/// `mkdir -p <wb> && cd <base> && git worktree add -b <s> <wb>/<s> <default>`
/// for the session name `s`.
pub open spec fn create_worktree_spec(cfg: Config, session: Seq<char>) -> Seq<char> {
    "mkdir -p "@ + cfg.worktree_base@ + " && cd "@ + cfg.base_path@ + " && git worktree add -b "@
        + session + " "@ + cfg.worktree_base@ + "/"@ + session + " "@ + cfg.default_branch@
}

/// The SSH command that creates an agent's git worktree on a new branch off
/// the default branch.
pub fn agent_create_worktree_command(name: &str, cfg: &Config) -> (r: String)
    ensures
        r@ == create_worktree_spec(*cfg, cfg.session_prefix@ + name@),
{
    let mut s = owned("mkdir -p ");
    s.append(cfg.worktree_base.as_str());
    s.append(" && cd ");
    s.append(cfg.base_path.as_str());
    s.append(" && git worktree add -b ");
    s.append(cfg.session_prefix.as_str());
    s.append(name);
    s.append(" ");
    s.append(cfg.worktree_base.as_str());
    s.append("/");
    s.append(cfg.session_prefix.as_str());
    s.append(name);
    s.append(" ");
    s.append(cfg.default_branch.as_str());
    s
}

/// The flags added to the agent command line: remote control under the
/// session name, the model, and any extra arguments, each escaped for the
/// surrounding single quotes.
pub open spec fn launch_flags_spec(session: Seq<char>, remote_control: bool, model: Option<Seq<char>>, extra: Option<Seq<char>>) -> Seq<char> {
    (if remote_control { " --remote-control "@ + session } else { Seq::empty() }) + (match model {
        Some(m) => " --model "@ + escape_quotes(m),
        None => Seq::empty(),
    }) + (match extra {
        Some(a) => if a.len() > 0 { " "@ + escape_quotes(a) } else { Seq::empty() },
        None => Seq::empty(),
    })
}

/// `tmux new-session -d -s <s> -c <wb>/<s> && tmux send-keys -t <s>
/// '<harness> --dangerously-skip-permissions<flags>' C-m`.
pub open spec fn create_tmux_spec(wb: Seq<char>, session: Seq<char>, harness: Seq<char>, flags: Seq<char>) -> Seq<char> {
    "tmux new-session -d -s "@ + session + " -c "@ + wb + "/"@ + session + " && tmux send-keys -t "@
        + session + " '"@ + harness + " --dangerously-skip-permissions"@ + flags + "' C-m"@
}

/// The view of an optional text argument.
pub open spec fn opt_view(o: Option<&str>) -> Option<Seq<char>> {
    match o {
        Some(s) => Some(s@),
        None => None,
    }
}

/// The SSH command that creates the agent's tmux session with a login shell
/// in its worktree and types the harness command into it. `model` must be
/// validated by the caller; `extra_args` reaches the inner shell as typed.
pub fn agent_create_tmux_command(
    name: &str,
    cfg: &Config,
    remote_control: bool,
    model: Option<&str>,
    extra_args: Option<&str>,
) -> (r: String)
    ensures
        r@ == create_tmux_spec(
            cfg.worktree_base@,
            cfg.session_prefix@ + name@,
            cfg.harness@,
            launch_flags_spec(cfg.session_prefix@ + name@, remote_control, opt_view(model), opt_view(extra_args)),
        ),
{
    let mut session = owned(cfg.session_prefix.as_str());
    session.append(name);
    let mut flags = String::new();
    if remote_control {
        flags.append(" --remote-control ");
        flags.append(session.as_str());
    }
    let ghost f1 = flags@;
    match model {
        Some(m) => {
            flags.append(" --model ");
            let e = shell_escape(m);
            flags.append(e.as_str());
            assert(flags@ =~= f1 + (" --model "@ + escape_quotes(m@)));
        },
        None => {
            assert(flags@ =~= f1 + Seq::<char>::empty());
        },
    }
    let ghost f2 = flags@;
    match extra_args {
        Some(a) => {
            if !a.is_empty() {
                flags.append(" ");
                let e = shell_escape(a);
                flags.append(e.as_str());
                assert(flags@ =~= f2 + (" "@ + escape_quotes(a@)));
            } else {
                assert(flags@ =~= f2 + Seq::<char>::empty());
            }
        },
        None => {
            assert(flags@ =~= f2 + Seq::<char>::empty());
        },
    }
    proof {
        assert(f1 =~= (if remote_control { " --remote-control "@ + session@ } else { Seq::<char>::empty() }));
        let ghost m_part = match opt_view(model) {
            Some(m) => " --model "@ + escape_quotes(m),
            None => Seq::<char>::empty(),
        };
        assert(f2 =~= f1 + m_part);
        assert(flags@ =~= launch_flags_spec(session@, remote_control, opt_view(model), opt_view(extra_args)));
    }
    let mut s = owned("tmux new-session -d -s ");
    s.append(session.as_str());
    s.append(" -c ");
    s.append(cfg.worktree_base.as_str());
    s.append("/");
    s.append(session.as_str());
    s.append(" && tmux send-keys -t ");
    s.append(session.as_str());
    s.append(" '");
    s.append(cfg.harness.as_str());
    s.append(" --dangerously-skip-permissions");
    s.append(flags.as_str());
    s.append("' C-m");
    s
}

/// `sleep 5 && tmux has-session -t <s> && tmux set-buffer -b <buf> --
/// '<escaped>' && tmux paste-buffer -p -d -t <s> -b <buf> && sleep 0.1 &&
/// tmux send-keys -t <s> Enter`, with the buffer `skulk-prompt-<s>`.
pub open spec fn send_prompt_spec(session: Seq<char>, prompt: Seq<char>) -> Seq<char> {
    let buffer = "skulk-prompt-"@ + session;
    "sleep 5 && tmux has-session -t "@ + session + " && tmux set-buffer -b "@ + buffer + " -- '"@
        + escape_quotes(prompt) + "' && tmux paste-buffer -p -d -t "@ + session + " -b "@ + buffer
        + " && sleep 0.1 && tmux send-keys -t "@ + session + " Enter"@
}

/// The prompt command, after checking the session, fills the buffer
/// `skulk-prompt-<session>` with a word the shell reads back as exactly the
/// prompt, pastes that same buffer into the session, then presses Enter
/// there.
pub proof fn lemma_prompt_pasted_from_its_buffer(session: Seq<char>, prompt: Seq<char>)
    ensures
        exists|word: Seq<char>|
            #![trigger crate::util::sh_unquote(word, false)]
            crate::util::sh_unquote(word, false) == prompt && send_prompt_spec(session, prompt) == "sleep 5 && tmux has-session -t "@
                + session + " && tmux set-buffer -b skulk-prompt-"@ + session + " -- "@ + word
                + " && tmux paste-buffer -p -d -t "@ + session + " -b skulk-prompt-"@ + session
                + " && sleep 0.1 && tmux send-keys -t "@ + session + " Enter"@,
{
    reveal_strlit(" && tmux set-buffer -b ");
    reveal_strlit("skulk-prompt-");
    reveal_strlit(" && tmux set-buffer -b skulk-prompt-");
    reveal_strlit(" -- '");
    reveal_strlit(" -- ");
    reveal_strlit("' && tmux paste-buffer -p -d -t ");
    reveal_strlit(" && tmux paste-buffer -p -d -t ");
    reveal_strlit(" -b ");
    reveal_strlit(" -b skulk-prompt-");
    let word = seq!['\''] + escape_quotes(prompt) + seq!['\''];
    crate::util::lemma_shell_escape_roundtrip(prompt);
    assert(send_prompt_spec(session, prompt) =~= "sleep 5 && tmux has-session -t "@ + session
        + " && tmux set-buffer -b skulk-prompt-"@ + session + " -- "@ + word + " && tmux paste-buffer -p -d -t "@
        + session + " -b skulk-prompt-"@ + session + " && sleep 0.1 && tmux send-keys -t "@ + session + " Enter"@);
}

/// `mkdir -p ~/.skulk/prompts && printf '%s' '<escaped>' > ~/.skulk/prompts/<s>.txt`.
pub open spec fn persist_prompt_spec(session: Seq<char>, prompt: Seq<char>) -> Seq<char> {
    "mkdir -p ~/.skulk/prompts && printf '%s' '"@ + escape_quotes(prompt) + "' > ~/.skulk/prompts/"@ + session
        + ".txt"@
}

/// The SSH command that stores an agent's prompt on the host, where
/// `replay` reads it back.
pub fn persist_prompt_command(name: &str, prompt: &str, cfg: &Config) -> (r: String)
    ensures
        r@ == persist_prompt_spec(cfg.session_prefix@ + name@, prompt@),
{
    let mut s = owned("mkdir -p ~/.skulk/prompts && printf '%s' '");
    s.append(shell_escape(prompt).as_str());
    s.append("' > ~/.skulk/prompts/");
    s.append(cfg.session_prefix.as_str());
    s.append(name);
    s.append(".txt");
    let ghost session = cfg.session_prefix@ + name@;
    assert(s@ =~= persist_prompt_spec(session, prompt@));
    s
}

/// The SSH command that delivers the first prompt after the startup delay:
/// checks the session still lives, pastes the prompt as one bracketed block
/// from a named buffer deleted by the paste, then submits it with Enter.
pub fn agent_send_prompt_command(name: &str, prompt: &str, cfg: &Config) -> (r: String)
    ensures
        r@ == send_prompt_spec(cfg.session_prefix@ + name@, prompt@),
{
    let mut session = owned(cfg.session_prefix.as_str());
    session.append(name);
    let mut buffer = owned("skulk-prompt-");
    buffer.append(session.as_str());
    let mut s = owned("sleep 5 && tmux has-session -t ");
    s.append(session.as_str());
    s.append(" && tmux set-buffer -b ");
    s.append(buffer.as_str());
    s.append(" -- '");
    s.append(shell_escape(prompt).as_str());
    s.append("' && tmux paste-buffer -p -d -t ");
    s.append(session.as_str());
    s.append(" -b ");
    s.append(buffer.as_str());
    s.append(" && sleep 0.1 && tmux send-keys -t ");
    s.append(session.as_str());
    s.append(" Enter");
    s
}

/// The SSH command that undoes a worktree creation: removes the worktree and
/// deletes its branch.
pub fn agent_rollback_worktree_command(name: &str, cfg: &Config) -> (r: String)
    ensures
        r@ == "cd "@ + cfg.base_path@ + " && git worktree remove --force "@ + cfg.worktree_base@ + "/"@
            + (cfg.session_prefix@ + name@) + " && git branch -D "@ + (cfg.session_prefix@ + name@),
{
    let ghost session = cfg.session_prefix@ + name@;
    let mut s = owned("cd ");
    s.append(cfg.base_path.as_str());
    s.append(" && git worktree remove --force ");
    s.append(cfg.worktree_base.as_str());
    s.append("/");
    s.append(cfg.session_prefix.as_str());
    s.append(name);
    s.append(" && git branch -D ");
    s.append(cfg.session_prefix.as_str());
    s.append(name);
    assert(s@ =~= "cd "@ + cfg.base_path@ + " && git worktree remove --force "@ + cfg.worktree_base@ + "/"@
        + session + " && git branch -D "@ + session);
    s
}

/// The SSH command that checks the base clone exists.
pub fn base_clone_check_command(cfg: &Config) -> (r: String)
    ensures
        r@ == "test -d "@ + cfg.base_path@ + "/.git && echo exists"@,
{
    let mut s = owned("test -d ");
    s.append(cfg.base_path.as_str());
    s.append("/.git && echo exists");
    s
}

/// What the base-clone check means: a failed remote command is a missing
/// clone, reported as a validation error; any other failure passes through.
pub fn base_clone_outcome(check: Result<String, SkulkError>, cfg: &Config) -> (r: Result<(), SkulkError>)
    ensures
        match check {
            Ok(_) => r is Ok,
            Err(e) => if e@ is SshFailed {
                r matches Err(f) && f@ == ErrorView::Validation(
                    "Base clone not found at "@ + cfg.base_path@ + " on "@ + cfg.host@
                        + ". Run `skulk pull` or clone manually."@,
                )
            } else {
                r == Err::<(), SkulkError>(e)
            },
        },
{
    match check {
        Ok(_) => Ok(()),
        Err(SkulkError::SshFailed(_)) => {
            let mut m = owned("Base clone not found at ");
            m.append(cfg.base_path.as_str());
            m.append(" on ");
            m.append(cfg.host.as_str());
            m.append(". Run `skulk pull` or clone manually.");
            Err(SkulkError::Validation(m))
        },
        Err(e) => Err(e),
    }
}

/// The argument checks of `new`, before anything is sent: the name, then
/// the model when one is given.
pub fn validate_new_args(name: &str, model: Option<&str>) -> (r: Result<(), SkulkError>)
    ensures
        validate_name_spec(name@) is Err ==> (r matches Err(e) && e@ == ErrorView::Validation(validate_name_spec(name@)->Err_0)),
        validate_name_spec(name@) is Ok ==> match model {
            None => r is Ok,
            Some(m) => match validate_model_spec(m@) {
                Ok(()) => r is Ok,
                Err(msg) => r matches Err(e) && e@ == ErrorView::Validation(msg),
            },
        },
{
    match validate_name(name) {
        Err(e) => return Err(e),
        Ok(()) => {},
    }
    match model {
        Some(m) => validate_model(m),
        None => Ok(()),
    }
}

/// Why a new agent `name` would clash with `inv`, if it would: a live
/// session of that name, else a leftover worktree.
pub open spec fn clash_message(name: Seq<char>, inv: AgentInventory, cfg: Config) -> Option<Seq<char>> {
    let session = cfg.session_prefix@ + name;
    if views(inv.sessions@).contains(session) {
        Some("Agent '"@ + name + "' already exists."@)
    } else if inv.worktrees@.contains_key(session) {
        Some(
            "Agent '"@ + name + "' already has a worktree (archived or crashed).\n  Resume it: `skulk restart "@
                + name + "`\n  Or wipe it: `skulk destroy "@ + name + "`"@,
        )
    } else {
        None
    }
}

/// A new agent must not clash with a live session or a leftover worktree.
pub fn check_new_unique(name: &str, inv: &AgentInventory, cfg: &Config) -> (r: Result<(), SkulkError>)
    ensures
        match clash_message(name@, *inv, *cfg) {
            Some(m) => r matches Err(e) && e@ == ErrorView::Validation(m),
            None => r is Ok,
        },
{
    let mut session = owned(cfg.session_prefix.as_str());
    session.append(name);
    if vec_contains(&inv.sessions, session.as_str()) {
        let mut m = owned("Agent '");
        m.append(name);
        m.append("' already exists.");
        return Err(SkulkError::Validation(m));
    }
    if inv.worktrees.contains_key(session.as_str()) {
        let mut m = owned("Agent '");
        m.append(name);
        m.append("' already has a worktree (archived or crashed).\n  Resume it: `skulk restart ");
        m.append(name);
        m.append("`\n  Or wipe it: `skulk destroy ");
        m.append(name);
        m.append("`");
        return Err(SkulkError::Validation(m));
    }
    Ok(())
}

/// The warning when the rollback after a failed session start fails too.
pub fn rollback_failed_warning(name: &str) -> (r: String)
    ensures
        r@ == "Warning: Failed to clean up worktree for agent '"@ + name@ + "'. Run `skulk gc` to clean up."@,
{
    let mut m = owned("Warning: Failed to clean up worktree for agent '");
    m.append(name);
    m.append("'. Run `skulk gc` to clean up.");
    m
}

/// The warning when the agent started but its first prompt did not arrive.
pub fn prompt_failed_warning(name: &str) -> (r: String)
    ensures
        r@ == "Warning: Agent '"@ + name@ + "' created but prompt delivery failed. Send manually:\n  skulk send "@
            + name@ + " \"...\""@,
{
    let mut m = owned("Warning: Agent '");
    m.append(name);
    m.append("' created but prompt delivery failed. Send manually:\n  skulk send ");
    m.append(name);
    m.append(" \"...\"");
    m
}

/// The prompt line of the creation report.
pub open spec fn prompt_line_spec(status: PromptStatus) -> Seq<char> {
    match status {
        PromptStatus::Delivered => "  Prompt: delivered (after 5s delay)"@,
        PromptStatus::Failed => "  Prompt: delivery failed (agent is running, send manually)"@,
        PromptStatus::NotSent => "  Prompt: none (idle, waiting for input)"@,
    }
}

/// The prompt line of the creation report.
pub fn prompt_line(status: PromptStatus) -> (r: &'static str)
    ensures
        r@ == prompt_line_spec(status),
{
    match status {
        PromptStatus::Delivered => "  Prompt: delivered (after 5s delay)",
        PromptStatus::Failed => "  Prompt: delivery failed (agent is running, send manually)",
        PromptStatus::NotSent => "  Prompt: none (idle, waiting for input)",
    }
}

/// The report printed once the agent is up.
pub open spec fn created_report_spec(
    name: Seq<char>,
    cfg: Config,
    remote_control: bool,
    model: Option<Seq<char>>,
    extra: Option<Seq<char>>,
    status: PromptStatus,
) -> Seq<char> {
    let session = cfg.session_prefix@ + name;
    "Agent '"@ + name + "' created.\n  Branch: "@ + session + "\n  Worktree: "@ + cfg.worktree_base@
        + "/"@ + session + "\n"@ + (if remote_control {
        "  Mode: remote-control (skip-permissions)"@
    } else {
        "  Mode: skip-permissions"@
    }) + (match model {
        Some(m) => "\n  Model: "@ + m,
        None => Seq::empty(),
    }) + (match extra {
        Some(a) => if a.len() > 0 { "\n  Extra "@ + cfg.harness@ + " args: "@ + a } else { Seq::empty() },
        None => Seq::empty(),
    }) + "\n"@ + prompt_line_spec(status) + "\n\nNext steps:\n  skulk connect "@ + name
        + "    # attach to session\n  skulk send "@ + name + " \"...\" # send a prompt\n  skulk destroy "@
        + name + "    # tear down"@
}

/// The report printed once the agent is up: branch, worktree, mode, model,
/// extra arguments, how the prompt fared, and what to do next.
pub fn created_report(
    name: &str,
    cfg: &Config,
    remote_control: bool,
    model: Option<&str>,
    extra_args: Option<&str>,
    status: PromptStatus,
) -> (r: String)
    ensures
        r@ == created_report_spec(name@, *cfg, remote_control, opt_view(model), opt_view(extra_args), status),
{
    let mut session = owned(cfg.session_prefix.as_str());
    session.append(name);
    let mut s = owned("Agent '");
    s.append(name);
    s.append("' created.\n  Branch: ");
    s.append(session.as_str());
    s.append("\n  Worktree: ");
    s.append(cfg.worktree_base.as_str());
    s.append("/");
    s.append(session.as_str());
    s.append("\n");
    if remote_control {
        s.append("  Mode: remote-control (skip-permissions)");
    } else {
        s.append("  Mode: skip-permissions");
    }
    let ghost s1 = s@;
    match model {
        Some(m) => {
            s.append("\n  Model: ");
            s.append(m);
            assert(s@ =~= s1 + ("\n  Model: "@ + m@));
        },
        None => {
            assert(s@ =~= s1 + Seq::<char>::empty());
        },
    }
    let ghost s2 = s@;
    match extra_args {
        Some(a) => {
            if !a.is_empty() {
                s.append("\n  Extra ");
                s.append(cfg.harness.as_str());
                s.append(" args: ");
                s.append(a);
                assert(s@ =~= s2 + ("\n  Extra "@ + cfg.harness@ + " args: "@ + a@));
            } else {
                assert(s@ =~= s2 + Seq::<char>::empty());
            }
        },
        None => {
            assert(s@ =~= s2 + Seq::<char>::empty());
        },
    }
    let ghost s3 = s@;
    s.append("\n");
    s.append(prompt_line(status));
    s.append("\n\nNext steps:\n  skulk connect ");
    s.append(name);
    s.append("    # attach to session\n  skulk send ");
    s.append(name);
    s.append(" \"...\" # send a prompt\n  skulk destroy ");
    s.append(name);
    s.append("    # tear down");
    proof {
        let mp = match opt_view(model) {
            Some(m) => "\n  Model: "@ + m,
            None => Seq::<char>::empty(),
        };
        let ep = match opt_view(extra_args) {
            Some(a) => if a.len() > 0 { "\n  Extra "@ + cfg.harness@ + " args: "@ + a } else { Seq::<char>::empty() },
            None => Seq::<char>::empty(),
        };
        assert(s2 =~= s1 + mp);
        assert(s3 =~= s1 + mp + ep);
        assert(s@ =~= created_report_spec(name@, *cfg, remote_control, opt_view(model), opt_view(extra_args), status));
    }
    s
}

/// Where the creation of an agent stands.
#[derive(Debug)]
pub enum NewStage {
    /// Nothing done yet.
    Start,
    /// Waiting for the base-clone check.
    CheckingBase,
    /// Waiting for the inventory.
    ReadingInventory,
    /// Waiting for the worktree to be created.
    CreatingWorktree,
    /// Waiting for the tmux session to start.
    StartingSession,
    /// The session failed with this error; waiting for the worktree rollback.
    RollingBack(SkulkError),
    /// The rollback failed too; its warning is out, the error follows.
    WarnedRollback(SkulkError),
    /// Waiting for the prompt to be stored on the host.
    Persisting,
    /// Waiting for the first prompt to be delivered.
    SendingPrompt,
    /// The prompt did not arrive; its warning is out.
    WarnedPrompt,
    /// The report is out.
    Reporting,
    /// The command is over.
    Finished,
}

/// The creation of one agent, driven step by step.
pub struct NewAgent {
    pub name: String,
    pub prompt: Option<String>,
    pub remote_control: bool,
    pub model: Option<String>,
    pub extra_args: Option<String>,
    /// Store the prompt on the host, for a later `replay`, before sending it.
    pub persist: bool,
    pub stage: NewStage,
}

/// The event a stage waits for.
pub open spec fn new_expects(stage: NewStage, ev: Event) -> bool {
    match stage {
        NewStage::Start => ev is Begin,
        NewStage::CheckingBase | NewStage::ReadingInventory | NewStage::CreatingWorktree
        | NewStage::StartingSession | NewStage::RollingBack(_) | NewStage::Persisting | NewStage::SendingPrompt => ev is Output,
        NewStage::WarnedRollback(_) | NewStage::WarnedPrompt | NewStage::Reporting => ev is Shown,
        NewStage::Finished => false,
    }
}

/// The text and error views of an optional owned text.
pub open spec fn opt_string(o: Option<String>) -> Option<Seq<char>> {
    match o {
        Some(s) => Some(s@),
        None => None,
    }
}

/// The view of an optional owned text as a borrowed one.
fn as_deref(o: &Option<String>) -> (r: Option<&str>)
    ensures
        opt_view(r) == opt_string(*o),
{
    match o {
        Some(s) => Some(s.as_str()),
        None => None,
    }
}

/// A line of text: the text and a newline.
fn line(s: String) -> (r: String)
    ensures
        r@ == s@ + "\n"@,
{
    let mut s = s;
    s.append("\n");
    s
}

/// One step of the creation of an agent: from `n`, on `ev`, to `n2`,
/// answering `a`.
pub open spec fn new_agent_next(n: NewAgent, cfg: Config, ev: Event, n2: NewAgent, a: Action) -> bool {
    &&& n2.name == n.name
    &&& n2.prompt == n.prompt
    &&& n2.remote_control == n.remote_control
    &&& n2.model == n.model
    &&& n2.extra_args == n.extra_args
    &&& n2.persist == n.persist
    &&& ({
        let name = n.name@;
        let session = cfg.session_prefix@ + name;
        let st = n2.stage;
        match n.stage {
            NewStage::Start => match validate_new_args_spec(name, opt_string(n.model)) {
                Some(msg) => st is Finished && (a matches Action::Done(Err(e)) && e@ == ErrorView::Validation(msg)),
                None => st is CheckingBase && (a matches Action::Run(c) && c@
                    == "test -d "@ + cfg.base_path@ + "/.git && echo exists"@),
            },
            NewStage::CheckingBase => match ev {
                Event::Output(Ok(_)) => st is ReadingInventory && (a matches Action::Run(c) && c@
                    == inventory_command_spec(cfg.base_path@, cfg.session_prefix@)),
                Event::Output(Err(e)) => st is Finished && (a matches Action::Done(Err(f)) && (if e@ is SshFailed {
                    f@ == ErrorView::Validation(
                        "Base clone not found at "@ + cfg.base_path@ + " on "@ + cfg.host@
                            + ". Run `skulk pull` or clone manually."@,
                    )
                } else {
                    f == e
                })),
                _ => false,
            },
            NewStage::ReadingInventory => match ev {
                Event::Output(Err(e)) => st is Finished && a == Action::Done(Err(e)),
                Event::Output(Ok(raw)) => exists|inv: AgentInventory|
                    #![trigger parsed_inventory(raw@, cfg.session_prefix@, inv)]
                    parsed_inventory(raw@, cfg.session_prefix@, inv) && match clash_message(name, inv, cfg) {
                        Some(m) => st is Finished && (a matches Action::Done(Err(e)) && e@ == ErrorView::Validation(m)),
                        None => st is CreatingWorktree && (a matches Action::Run(c) && c@ == create_worktree_spec(cfg, session)),
                    },
                _ => false,
            },
            NewStage::CreatingWorktree => match ev {
                Event::Output(Err(e)) => st is Finished && a == Action::Done(Err(e)),
                Event::Output(Ok(_)) => st is StartingSession && (a matches Action::Run(c) && c@ == create_tmux_spec(
                    cfg.worktree_base@,
                    session,
                    cfg.harness@,
                    launch_flags_spec(
                        session,
                        n.remote_control,
                        opt_string(n.model),
                        opt_string(n.extra_args),
                    ),
                )),
                _ => false,
            },
            NewStage::StartingSession => match ev {
                Event::Output(Err(e)) => st == NewStage::RollingBack(e) && (a matches Action::Run(c) && c@
                    == "cd "@ + cfg.base_path@ + " && git worktree remove --force "@ + cfg.worktree_base@ + "/"@
                    + session + " && git branch -D "@ + session),
                Event::Output(Ok(_)) => match n.prompt {
                    Some(p) => if n.persist {
                        st is Persisting && (a matches Action::Run(c) && c@ == persist_prompt_spec(session, p@))
                    } else {
                        st is SendingPrompt && (a matches Action::Run(c) && c@ == send_prompt_spec(session, p@))
                    },
                    None => st is Reporting && (a matches Action::Print(t) && t@ == created_report_spec(
                        name,
                        cfg,
                        n.remote_control,
                        opt_string(n.model),
                        opt_string(n.extra_args),
                        PromptStatus::NotSent,
                    ) + "\n"@),
                },
                _ => false,
            },
            NewStage::RollingBack(e) => match ev {
                Event::Output(Ok(_)) => st is Finished && a == Action::Done(Err(e)),
                Event::Output(Err(_)) => st == NewStage::WarnedRollback(e) && (a matches Action::Note(t) && t@
                    == "Warning: Failed to clean up worktree for agent '"@ + name + "'. Run `skulk gc` to clean up."@ + "\n"@),
                _ => false,
            },
            NewStage::WarnedRollback(e) => st is Finished && a == Action::Done(Err(e)),
            NewStage::Persisting => match n.prompt {
                Some(p) => st is SendingPrompt && (a matches Action::Run(c) && c@ == send_prompt_spec(session, p@)),
                None => st is Finished && (a matches Action::Done(Ok(()))),
            },
            NewStage::SendingPrompt => match ev {
                Event::Output(Ok(_)) => st is Reporting && (a matches Action::Print(t) && t@ == created_report_spec(
                    name,
                    cfg,
                    n.remote_control,
                    opt_string(n.model),
                    opt_string(n.extra_args),
                    PromptStatus::Delivered,
                ) + "\n"@),
                Event::Output(Err(_)) => st is WarnedPrompt && (a matches Action::Note(t) && t@ == "Warning: Agent '"@
                    + name + "' created but prompt delivery failed. Send manually:\n  skulk send "@ + name
                    + " \"...\""@ + "\n"@),
                _ => false,
            },
            NewStage::WarnedPrompt => st is Reporting && (a matches Action::Print(t) && t@ == created_report_spec(
                name,
                cfg,
                n.remote_control,
                opt_string(n.model),
                opt_string(n.extra_args),
                PromptStatus::Failed,
            ) + "\n"@),
            NewStage::Reporting => st is Finished && (a matches Action::Done(Ok(()))),
            NewStage::Finished => false,
        }
    })
}

impl NewAgent {
    /// A creation not yet begun.
    pub fn new(name: String, prompt: Option<String>, remote_control: bool, model: Option<String>, extra_args: Option<String>) -> (r: Self)
        ensures
            r.name == name,
            r.prompt == prompt,
            r.remote_control == remote_control,
            r.model == model,
            r.extra_args == extra_args,
            !r.persist,
            r.stage is Start,
    {
        NewAgent { name, prompt, remote_control, model, extra_args, persist: false, stage: NewStage::Start }
    }

    /// A creation not yet begun that also stores its prompt on the host, as
    /// a replayed agent does.
    pub fn storing_prompt(name: String, prompt: Option<String>, remote_control: bool, model: Option<String>, extra_args: Option<String>) -> (r: Self)
        ensures
            r.name == name,
            r.prompt == prompt,
            r.remote_control == remote_control,
            r.model == model,
            r.extra_args == extra_args,
            r.persist,
            r.stage is Start,
    {
        NewAgent { name, prompt, remote_control, model, extra_args, persist: true, stage: NewStage::Start }
    }

    /// Take the next step: given what happened, say what to do. Arguments
    /// are checked before anything is sent; the base clone must exist and
    /// the name be free; a session that fails to start has its worktree
    /// rolled back before the error is returned; a prompt that fails to
    /// arrive only warns; the report comes last.
    pub fn step(&mut self, cfg: &Config, ev: Event) -> (a: Action)
        requires
            new_expects(old(self).stage, ev),
        ensures
            new_agent_next(*old(self), *cfg, ev, *final(self), a),
    {
        let mut stage = NewStage::Finished;
        core::mem::swap(&mut stage, &mut self.stage);
        let name = self.name.as_str();
        match stage {
            NewStage::Start => {
                match validate_new_args(name, as_deref(&self.model)) {
                    Err(e) => Action::Done(Err(e)),
                    Ok(()) => {
                        self.stage = NewStage::CheckingBase;
                        Action::Run(base_clone_check_command(cfg))
                    },
                }
            },
            NewStage::CheckingBase => match ev {
                Event::Output(r) => match base_clone_outcome(r, cfg) {
                    Err(e) => Action::Done(Err(e)),
                    Ok(()) => {
                        self.stage = NewStage::ReadingInventory;
                        Action::Run(inventory_command(cfg))
                    },
                },
                _ => Action::Done(Ok(())),
            },
            NewStage::ReadingInventory => match ev {
                Event::Output(Err(e)) => Action::Done(Err(e)),
                Event::Output(Ok(raw)) => {
                    let inv = parse_inventory(raw.as_str(), cfg);
                    assert(parsed_inventory(raw@, cfg.session_prefix@, inv));
                    match check_new_unique(name, &inv, cfg) {
                        Err(e) => Action::Done(Err(e)),
                        Ok(()) => {
                            self.stage = NewStage::CreatingWorktree;
                            Action::Run(agent_create_worktree_command(name, cfg))
                        },
                    }
                },
                _ => Action::Done(Ok(())),
            },
            NewStage::CreatingWorktree => match ev {
                Event::Output(Err(e)) => Action::Done(Err(e)),
                Event::Output(Ok(_)) => {
                    self.stage = NewStage::StartingSession;
                    Action::Run(
                        agent_create_tmux_command(
                            name,
                            cfg,
                            self.remote_control,
                            as_deref(&self.model),
                            as_deref(&self.extra_args),
                        ),
                    )
                },
                _ => Action::Done(Ok(())),
            },
            NewStage::StartingSession => match ev {
                Event::Output(Err(e)) => {
                    self.stage = NewStage::RollingBack(e);
                    Action::Run(agent_rollback_worktree_command(name, cfg))
                },
                Event::Output(Ok(_)) => match &self.prompt {
                    Some(p) => {
                        if self.persist {
                            let cmd = persist_prompt_command(name, p.as_str(), cfg);
                            self.stage = NewStage::Persisting;
                            Action::Run(cmd)
                        } else {
                            let cmd = agent_send_prompt_command(name, p.as_str(), cfg);
                            self.stage = NewStage::SendingPrompt;
                            Action::Run(cmd)
                        }
                    },
                    None => {
                        let t = line(
                            created_report(
                                name,
                                cfg,
                                self.remote_control,
                                as_deref(&self.model),
                                as_deref(&self.extra_args),
                                PromptStatus::NotSent,
                            ),
                        );
                        self.stage = NewStage::Reporting;
                        Action::Print(t)
                    },
                },
                _ => Action::Done(Ok(())),
            },
            NewStage::RollingBack(e) => match ev {
                Event::Output(Ok(_)) => Action::Done(Err(e)),
                Event::Output(Err(_)) => {
                    let t = line(rollback_failed_warning(name));
                    self.stage = NewStage::WarnedRollback(e);
                    Action::Note(t)
                },
                _ => Action::Done(Ok(())),
            },
            NewStage::WarnedRollback(e) => Action::Done(Err(e)),
            NewStage::Persisting => match &self.prompt {
                Some(p) => {
                    let cmd = agent_send_prompt_command(name, p.as_str(), cfg);
                    self.stage = NewStage::SendingPrompt;
                    Action::Run(cmd)
                },
                None => Action::Done(Ok(())),
            },
            NewStage::SendingPrompt => match ev {
                Event::Output(Ok(_)) => {
                    let t = line(
                        created_report(
                            name,
                            cfg,
                            self.remote_control,
                            as_deref(&self.model),
                            as_deref(&self.extra_args),
                            PromptStatus::Delivered,
                        ),
                    );
                    self.stage = NewStage::Reporting;
                    Action::Print(t)
                },
                Event::Output(Err(_)) => {
                    let t = line(prompt_failed_warning(name));
                    self.stage = NewStage::WarnedPrompt;
                    Action::Note(t)
                },
                _ => Action::Done(Ok(())),
            },
            NewStage::WarnedPrompt => {
                let t = line(
                    created_report(
                        name,
                        cfg,
                        self.remote_control,
                        as_deref(&self.model),
                        as_deref(&self.extra_args),
                        PromptStatus::Failed,
                    ),
                );
                self.stage = NewStage::Reporting;
                Action::Print(t)
            },
            NewStage::Reporting => Action::Done(Ok(())),
            NewStage::Finished => Action::Done(Ok(())),
        }
    }
}

/// The argument check of `new`: the name's message if it is invalid, else
/// the model's if one is given and invalid, else none.
pub open spec fn validate_new_args_spec(name: Seq<char>, model: Option<Seq<char>>) -> Option<Seq<char>> {
    match validate_name_spec(name) {
        Err(m) => Some(m),
        Ok(()) => match model {
            Some(m) => match validate_model_spec(m) {
                Err(msg) => Some(msg),
                Ok(()) => None,
            },
            None => None,
        },
    }
}

} // verus!
