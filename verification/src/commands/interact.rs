//! Commands that talk to a running agent: connect, disconnect, diff, push,
//! log, logs, transcript, archive and send.

use vstd::prelude::*;
use crate::agent_ref::AgentRef;
use crate::commands::destroy::{agent_destroy_session_command, destroy_session_spec};
use crate::commands::flow::{Action, Event};
use crate::commands::wait::{has_session_command, has_session_spec, mark_busy_command, mark_busy_spec, wait_error};
use crate::config::Config;
use crate::io::{find_new_content_start, new_content_start_ok};
use crate::error::{classify_agent_error, display_spec, ErrorView, SkulkError};
use crate::text::{chars_eq, join, lines, lines_of, nat_dec, owned, to_chars, u64_to_dec, views};
use crate::util::{escape_quotes, shell_escape, validate_name, validate_name_spec};

verus! {

/// Output format of `skulk diff`.
#[derive(Debug, Clone, Copy, PartialEq, Eq, Structural)]
pub enum DiffFormat {
    /// Unified diff: `git diff`.
    Default,
    /// Files changed with insertions and deletions: `git diff --stat`.
    Stat,
    /// Changed paths only: `git diff --name-only`.
    NameOnly,
}

/// Scrollback lines `skulk transcript` asks for; tmux caps it at its own
/// history limit, so this means "everything there is".
pub const TRANSCRIPT_MAX_LINES: u32 = 100000;

/// The SSH command that attaches to an agent's tmux session.
pub fn connect_command(name: &str, cfg: &Config) -> (r: String)
    ensures
        r@ == "tmux attach-session -t "@ + cfg.session_prefix@ + name@,
{
    let mut s = owned("tmux attach-session -t ");
    s.append(AgentRef::new(name, cfg).session_name().as_str());
    s
}

/// The SSH command that detaches every client from an agent's session.
pub fn disconnect_command(name: &str, cfg: &Config) -> (r: String)
    ensures
        r@ == "tmux detach-client -s "@ + cfg.session_prefix@ + name@,
{
    let mut s = owned("tmux detach-client -s ");
    s.append(AgentRef::new(name, cfg).session_name().as_str());
    s
}

/// The `git diff` flag of a format.
pub open spec fn diff_flag(f: DiffFormat) -> Seq<char> {
    match f {
        DiffFormat::Default => ""@,
        DiffFormat::Stat => " --stat"@,
        DiffFormat::NameOnly => " --name-only"@,
    }
}

/// The SSH command that diffs the agent's branch against the default branch
/// (three-dot range: changes since they diverged).
pub fn diff_command(name: &str, format: DiffFormat, cfg: &Config) -> (r: String)
    ensures
        r@ == "cd "@ + cfg.base_path@ + " && git diff"@ + diff_flag(format) + " "@ + cfg.default_branch@
            + "..."@ + cfg.session_prefix@ + name@,
{
    let extra = match format {
        DiffFormat::Default => "",
        DiffFormat::Stat => " --stat",
        DiffFormat::NameOnly => " --name-only",
    };
    let mut s = owned("cd ");
    s.append(cfg.base_path.as_str());
    s.append(" && git diff");
    s.append(extra);
    s.append(" ");
    s.append(cfg.default_branch.as_str());
    s.append("...");
    s.append(AgentRef::new(name, cfg).branch_name().as_str());
    s
}

/// The SSH command that pushes the agent's branch to `origin` with upstream
/// tracking.
pub fn push_command(name: &str, cfg: &Config) -> (r: String)
    ensures
        r@ == "cd "@ + cfg.base_path@ + " && git push -u origin "@ + cfg.session_prefix@ + name@,
{
    let mut s = owned("cd ");
    s.append(cfg.base_path.as_str());
    s.append(" && git push -u origin ");
    s.append(AgentRef::new(name, cfg).branch_name().as_str());
    s
}

/// The SSH command that lists the agent's commits not on the default branch.
pub fn git_log_command(name: &str, cfg: &Config) -> (r: String)
    ensures
        r@ == "cd "@ + cfg.base_path@ + " && git log "@ + cfg.default_branch@ + ".."@ + cfg.session_prefix@
            + name@ + " --oneline"@,
{
    let mut s = owned("cd ");
    s.append(cfg.base_path.as_str());
    s.append(" && git log ");
    s.append(cfg.default_branch.as_str());
    s.append("..");
    s.append(AgentRef::new(name, cfg).branch_name().as_str());
    s.append(" --oneline");
    s
}

/// `tmux capture-pane -p -t <s>`.
pub open spec fn capture_pane_spec(session: Seq<char>) -> Seq<char> {
    "tmux capture-pane -p -t "@ + session
}

/// The SSH command that prints the visible pane of an agent's session.
pub fn capture_pane_command(name: &str, cfg: &Config) -> (r: String)
    ensures
        r@ == capture_pane_spec(cfg.session_prefix@ + name@),
{
    let mut s = owned("tmux capture-pane -p -t ");
    s.append(AgentRef::new(name, cfg).session_name().as_str());
    s
}

/// `tmux capture-pane -p -t <s> -S -<n>`.
pub open spec fn deep_capture_spec(session: Seq<char>, lines: u32) -> Seq<char> {
    "tmux capture-pane -p -t "@ + session + " -S -"@ + nat_dec(lines as nat)
}

/// The SSH command that prints the last `lines` lines of scrollback.
pub fn logs_snapshot_deep_command(name: &str, lines: u32, cfg: &Config) -> (r: String)
    ensures
        r@ == deep_capture_spec(cfg.session_prefix@ + name@, lines),
{
    let mut s = owned("tmux capture-pane -p -t ");
    s.append(AgentRef::new(name, cfg).session_name().as_str());
    s.append(" -S -");
    s.append(u64_to_dec(lines as u64).as_str());
    s
}

/// The snapshot `logs` takes: the scrollback depth asked for, else the
/// visible pane.
pub fn logs_command(name: &str, lines: Option<u32>, cfg: &Config) -> (r: String)
    ensures
        r@ == match lines {
            Some(n) => deep_capture_spec(cfg.session_prefix@ + name@, n),
            None => capture_pane_spec(cfg.session_prefix@ + name@),
        },
{
    match lines {
        Some(n) => logs_snapshot_deep_command(name, n, cfg),
        None => capture_pane_command(name, cfg),
    }
}

/// The command `transcript` runs: the whole scrollback tmux keeps.
pub fn transcript_command(name: &str, cfg: &Config) -> (r: String)
    ensures
        r@ == deep_capture_spec(cfg.session_prefix@ + name@, TRANSCRIPT_MAX_LINES),
{
    logs_snapshot_deep_command(name, TRANSCRIPT_MAX_LINES, cfg)
}

/// The SSH command that archives an agent: kill its tmux session and keep
/// its worktree and branch.
pub fn archive_command(name: &str, cfg: &Config) -> (r: String)
    ensures
        r@ == destroy_session_spec(cfg.session_prefix@ + name@),
{
    agent_destroy_session_command(name, cfg)
}

/// `<mark busy> && tmux send-keys -t <s> '<escaped>' && sleep 0.1 &&
/// tmux send-keys -t <s> Enter`.
pub open spec fn send_spec(session: Seq<char>, prompt: Seq<char>) -> Seq<char> {
    mark_busy_spec(session) + " && tmux send-keys -t "@ + session + " '"@ + escape_quotes(prompt)
        + "' && sleep 0.1 && tmux send-keys -t "@ + session + " Enter"@
}

/// The SSH command that sends a prompt to a running agent: mark it busy,
/// type the prompt, pause, then submit with a separate Enter.
pub fn send_command(name: &str, prompt: &str, cfg: &Config) -> (r: String)
    ensures
        r@ == send_spec(cfg.session_prefix@ + name@, prompt@),
{
    let session = AgentRef::new(name, cfg).session_name();
    let mut s = mark_busy_command(session.as_str());
    s.append(" && tmux send-keys -t ");
    s.append(session.as_str());
    s.append(" '");
    s.append(shell_escape(prompt).as_str());
    s.append("' && sleep 0.1 && tmux send-keys -t ");
    s.append(session.as_str());
    s.append(" Enter");
    s
}

/// The line printed after a push.
pub fn pushed_message(name: &str, cfg: &Config) -> (r: String)
    ensures
        r@ == "Pushed "@ + cfg.session_prefix@ + name@ + " to origin."@,
{
    let mut s = owned("Pushed ");
    s.append(AgentRef::new(name, cfg).branch_name().as_str());
    s.append(" to origin.");
    s
}

/// The line printed after detaching all clients.
pub fn disconnected_message(name: &str, cfg: &Config) -> (r: String)
    ensures
        r@ == "Detached all clients from "@ + cfg.session_prefix@ + name@ + "."@,
{
    let mut s = owned("Detached all clients from ");
    s.append(AgentRef::new(name, cfg).session_name().as_str());
    s.append(".");
    s
}

/// The line printed when an interactive session ends, by its exit status.
pub fn connect_ended_message(name: &str, cfg: &Config, success: bool) -> (r: String)
    ensures
        success ==> r@ == "Detached from "@ + cfg.session_prefix@ + name@ + "."@,
        !success ==> r@ == "Connection to "@ + cfg.session_prefix@ + name@ + " ended (non-zero exit)."@,
{
    let session = AgentRef::new(name, cfg).session_name();
    if success {
        let mut s = owned("Detached from ");
        s.append(session.as_str());
        s.append(".");
        s
    } else {
        let mut s = owned("Connection to ");
        s.append(session.as_str());
        s.append(" ended (non-zero exit).");
        s
    }
}

/// The line printed after archiving.
pub fn archived_message(name: &str) -> (r: String)
    ensures
        r@ == "Archived agent '"@ + name@ + "'. Worktree and branch preserved."@,
{
    let mut s = owned("Archived agent '");
    s.append(name);
    s.append("'. Worktree and branch preserved.");
    s
}

/// What `send` reports after comparing the pane before and after: unchanged
/// means delivery could not be confirmed, changed means delivered, and a
/// failed second capture leaves it unverified.
pub fn send_verification_message(name: &str, cfg: &Config, before: &str, after: &Result<String, SkulkError>) -> (r: String)
    ensures
        match after {
            Ok(a) => if a@ == before@ {
                r@ == "Warning: Prompt sent to "@ + cfg.session_prefix@ + name@ + " but delivery could not be confirmed."@
            } else {
                r@ == "Prompt delivered to "@ + cfg.session_prefix@ + name@ + "."@
            },
            Err(_) => r@ == "Warning: Prompt sent, but post-send verification failed."@,
        },
{
    let session = AgentRef::new(name, cfg).session_name();
    match after {
        Ok(a) => {
            let av = to_chars(a.as_str());
            let bv = to_chars(before);
            if chars_eq(av.as_slice(), bv.as_slice()) {
                let mut s = owned("Warning: Prompt sent to ");
                s.append(session.as_str());
                s.append(" but delivery could not be confirmed.");
                s
            } else {
                let mut s = owned("Prompt delivered to ");
                s.append(session.as_str());
                s.append(".");
                s
            }
        },
        Err(_) => owned("Warning: Prompt sent, but post-send verification failed."),
    }
}

/// The diff format the flags ask for: `--stat` wins over `--name-only`.
pub fn diff_format(stat: bool, name_only: bool) -> (r: DiffFormat)
    ensures
        r == (if stat {
            DiffFormat::Stat
        } else if name_only {
            DiffFormat::NameOnly
        } else {
            DiffFormat::Default
        }),
{
    if stat {
        DiffFormat::Stat
    } else if name_only {
        DiffFormat::NameOnly
    } else {
        DiffFormat::Default
    }
}


/// A command on one agent that runs one remote command and reports.
#[derive(Debug, Clone, Copy, PartialEq, Eq, Structural)]
pub enum TaskKind {
    /// Print the pane, or this many lines of scrollback.
    Logs(Option<u32>),
    /// Print the diff against the default branch.
    Diff(DiffFormat),
    /// Print the branch's own commits.
    GitLog,
    /// Push the branch and say so.
    Push,
    /// Kill the session, keep worktree and branch, and say so.
    Archive,
    /// Detach every client and say so.
    Disconnect,
    /// Print the whole scrollback.
    Transcript,
}

/// The remote command of a task on agent `name`.
pub open spec fn task_command(kind: TaskKind, name: Seq<char>, cfg: Config) -> Seq<char> {
    let session = cfg.session_prefix@ + name;
    match kind {
        TaskKind::Logs(Some(n)) => deep_capture_spec(session, n),
        TaskKind::Logs(None) => capture_pane_spec(session),
        TaskKind::Diff(f) => "cd "@ + cfg.base_path@ + " && git diff"@ + diff_flag(f) + " "@ + cfg.default_branch@
            + "..."@ + cfg.session_prefix@ + name,
        TaskKind::GitLog => "cd "@ + cfg.base_path@ + " && git log "@ + cfg.default_branch@ + ".."@ + cfg.session_prefix@
            + name + " --oneline"@,
        TaskKind::Push => "cd "@ + cfg.base_path@ + " && git push -u origin "@ + cfg.session_prefix@ + name,
        TaskKind::Archive => destroy_session_spec(session),
        TaskKind::Disconnect => "tmux detach-client -s "@ + cfg.session_prefix@ + name,
        TaskKind::Transcript => deep_capture_spec(session, TRANSCRIPT_MAX_LINES),
    }
}

/// The closing note of a task, when it has one.
pub open spec fn task_note(kind: TaskKind, name: Seq<char>, cfg: Config) -> Option<Seq<char>> {
    match kind {
        TaskKind::Push => Some("Pushed "@ + cfg.session_prefix@ + name + " to origin."@ + "\n"@),
        TaskKind::Archive => Some("Archived agent '"@ + name + "'. Worktree and branch preserved."@ + "\n"@),
        TaskKind::Disconnect => Some("Detached all clients from "@ + cfg.session_prefix@ + name + "."@ + "\n"@),
        _ => None,
    }
}

/// The task prints the command's output.
pub open spec fn task_prints(kind: TaskKind) -> bool {
    match kind {
        TaskKind::Archive | TaskKind::Disconnect => false,
        _ => true,
    }
}

/// The remote command of a task.
pub fn make_task_command(kind: TaskKind, name: &str, cfg: &Config) -> (r: String)
    ensures
        r@ == task_command(kind, name@, *cfg),
{
    match kind {
        TaskKind::Logs(lines) => logs_command(name, lines, cfg),
        TaskKind::Diff(f) => diff_command(name, f, cfg),
        TaskKind::GitLog => git_log_command(name, cfg),
        TaskKind::Push => push_command(name, cfg),
        TaskKind::Archive => archive_command(name, cfg),
        TaskKind::Disconnect => disconnect_command(name, cfg),
        TaskKind::Transcript => transcript_command(name, cfg),
    }
}

/// Where a one-command task stands.
pub enum TaskStage {
    Start,
    /// Waiting for the command.
    Running,
    /// The output is out; the note (if any) follows.
    Printed,
    /// The last text is out.
    Closing,
    Finished,
}

/// A one-command task on an agent, driven step by step.
pub struct AgentTask {
    pub name: String,
    pub kind: TaskKind,
    pub stage: TaskStage,
}

/// The event a stage waits for.
pub open spec fn task_expects(st: TaskStage, ev: Event) -> bool {
    match st {
        TaskStage::Start => ev is Begin,
        TaskStage::Running => ev is Output,
        TaskStage::Printed | TaskStage::Closing => ev is Shown,
        TaskStage::Finished => false,
    }
}

/// After the output is out: the note, else the end.
pub open spec fn task_after_print(kind: TaskKind, name: Seq<char>, cfg: Config, st: TaskStage, a: Action) -> bool {
    match task_note(kind, name, cfg) {
        Some(t) => st is Closing && (a matches Action::Note(x) && x@ == t),
        None => st is Finished && (a matches Action::Done(Ok(()))),
    }
}

impl AgentTask {
    /// A task not yet begun.
    pub fn new(name: String, kind: TaskKind) -> (r: Self)
        ensures
            r.name == name,
            r.kind == kind,
            r.stage is Start,
    {
        AgentTask { name, kind, stage: TaskStage::Start }
    }

    fn after_print(&self, cfg: &Config) -> (r: (TaskStage, Action))
        ensures
            task_after_print(self.kind, self.name@, *cfg, r.0, r.1),
    {
        let name = self.name.as_str();
        match self.kind {
            TaskKind::Push => {
                let mut t = pushed_message(name, cfg);
                t.append("\n");
                (TaskStage::Closing, Action::Note(t))
            },
            TaskKind::Archive => {
                let mut t = archived_message(name);
                t.append("\n");
                (TaskStage::Closing, Action::Note(t))
            },
            TaskKind::Disconnect => {
                let mut t = disconnected_message(name, cfg);
                t.append("\n");
                (TaskStage::Closing, Action::Note(t))
            },
            _ => (TaskStage::Finished, Action::Done(Ok(()))),
        }
    }

    /// Take the next step: given what happened, say what to do. The name is
    /// checked; the command runs; a failure names the agent; the output is
    /// printed as it came (a push prints it only when there is any), and a
    /// push, archive or disconnect ends with a note.
    pub fn step(&mut self, cfg: &Config, ev: Event) -> (a: Action)
        requires
            task_expects(old(self).stage, ev),
        ensures
            final(self).name == old(self).name,
            final(self).kind == old(self).kind,
            ({
                let name = old(self).name@;
                let kind = old(self).kind;
                let st = final(self).stage;
                match old(self).stage {
                    TaskStage::Start => match validate_name_spec(name) {
                        Err(m) => st is Finished && (a matches Action::Done(Err(e)) && e@ == ErrorView::Validation(m)),
                        Ok(()) => st is Running && (a matches Action::Run(c) && c@ == task_command(kind, name, *cfg)),
                    },
                    TaskStage::Running => match ev {
                        Event::Output(Err(e)) => st is Finished && (a matches Action::Done(Err(f)) && f@ == wait_error(
                            name,
                            e@,
                            *cfg,
                        )),
                        Event::Output(Ok(o)) => if task_prints(kind) && !(kind == TaskKind::Push && o@.len() == 0) {
                            st is Printed && (a matches Action::Print(t) && t@ == o@)
                        } else {
                            task_after_print(kind, name, *cfg, st, a)
                        },
                        _ => false,
                    },
                    TaskStage::Printed => task_after_print(kind, name, *cfg, st, a),
                    TaskStage::Closing => st is Finished && (a matches Action::Done(Ok(()))),
                    TaskStage::Finished => false,
                }
            }),
    {
        let mut stage = TaskStage::Finished;
        core::mem::swap(&mut stage, &mut self.stage);
        match stage {
            TaskStage::Start => match validate_name(self.name.as_str()) {
                Err(e) => Action::Done(Err(e)),
                Ok(()) => {
                    self.stage = TaskStage::Running;
                    Action::Run(make_task_command(self.kind, self.name.as_str(), cfg))
                },
            },
            TaskStage::Running => match ev {
                Event::Output(Err(e)) => Action::Done(Err(classify_agent_error(self.name.as_str(), e, cfg.host.as_str()))),
                Event::Output(Ok(o)) => {
                    let prints = match self.kind {
                        TaskKind::Archive | TaskKind::Disconnect => false,
                        TaskKind::Push => !o.as_str().is_empty(),
                        _ => true,
                    };
                    if prints {
                        self.stage = TaskStage::Printed;
                        Action::Print(o)
                    } else {
                        let (st, a) = self.after_print(cfg);
                        self.stage = st;
                        a
                    }
                },
                _ => Action::Done(Ok(())),
            },
            TaskStage::Printed => {
                let (st, a) = self.after_print(cfg);
                self.stage = st;
                a
            },
            TaskStage::Closing => Action::Done(Ok(())),
            TaskStage::Finished => Action::Done(Ok(())),
        }
    }
}


/// Where a send stands.
pub enum SendStage {
    Start,
    /// Waiting for the pane before sending.
    Capturing,
    /// Waiting for the send; the pane read this before it.
    Sending(String),
    /// Letting the pane settle.
    Settling(String),
    /// Waiting for the pane after sending.
    Verifying(String),
    /// The verdict is out.
    Closing,
    Finished,
}

/// A prompt sent to a running agent, with a check that it arrived.
pub struct Send {
    pub name: String,
    pub prompt: String,
    /// How long, in milliseconds, the pane settles before delivery is checked.
    pub delay_ms: u64,
    pub stage: SendStage,
}

/// The event a stage waits for.
pub open spec fn send_expects(st: SendStage, ev: Event) -> bool {
    match st {
        SendStage::Start => ev is Begin,
        SendStage::Capturing | SendStage::Sending(_) | SendStage::Verifying(_) => ev is Output,
        SendStage::Settling(_) | SendStage::Closing => ev is Shown,
        SendStage::Finished => false,
    }
}

/// The verdict on delivery from the pane before and after.
pub open spec fn send_verdict(name: Seq<char>, cfg: Config, before: Seq<char>, after: Result<String, SkulkError>) -> Seq<char> {
    match after {
        Ok(a) => if a@ == before {
            "Warning: Prompt sent to "@ + cfg.session_prefix@ + name + " but delivery could not be confirmed."@
        } else {
            "Prompt delivered to "@ + cfg.session_prefix@ + name + "."@
        },
        Err(_) => "Warning: Prompt sent, but post-send verification failed."@,
    }
}

impl Send {
    /// A send not yet begun.
    pub fn new(name: String, prompt: String, delay_ms: u64) -> (r: Self)
        ensures
            r.name == name,
            r.prompt == prompt,
            r.delay_ms == delay_ms,
            r.stage is Start,
    {
        Send { name, prompt, delay_ms, stage: SendStage::Start }
    }

    /// Take the next step: given what happened, say what to do. The name is
    /// checked; the pane is read, the prompt sent, and after a pause the
    /// pane is read again: a changed pane means delivered, an unchanged one
    /// a warning, a failed read a warning too; failures before the send
    /// name the agent.
    pub fn step(&mut self, cfg: &Config, ev: Event) -> (a: Action)
        requires
            send_expects(old(self).stage, ev),
        ensures
            final(self).name == old(self).name,
            final(self).prompt == old(self).prompt,
            final(self).delay_ms == old(self).delay_ms,
            ({
                let name = old(self).name@;
                let session = cfg.session_prefix@ + name;
                let st = final(self).stage;
                match old(self).stage {
                    SendStage::Start => match validate_name_spec(name) {
                        Err(m) => st is Finished && (a matches Action::Done(Err(e)) && e@ == ErrorView::Validation(m)),
                        Ok(()) => st is Capturing && (a matches Action::Run(c) && c@ == capture_pane_spec(session)),
                    },
                    SendStage::Capturing => match ev {
                        Event::Output(Err(e)) => st is Finished && (a matches Action::Done(Err(f)) && f@ == wait_error(name, e@, *cfg)),
                        Event::Output(Ok(b)) => st == SendStage::Sending(b) && (a matches Action::Run(c) && c@ == send_spec(
                            session,
                            old(self).prompt@,
                        )),
                        _ => false,
                    },
                    SendStage::Sending(b) => match ev {
                        Event::Output(Err(e)) => st is Finished && (a matches Action::Done(Err(f)) && f@ == wait_error(name, e@, *cfg)),
                        Event::Output(Ok(_)) => st == SendStage::Settling(b) && a == Action::Sleep(old(self).delay_ms),
                        _ => false,
                    },
                    SendStage::Settling(b) => st == SendStage::Verifying(b) && (a matches Action::Run(c) && c@ == capture_pane_spec(
                        session,
                    )),
                    SendStage::Verifying(b) => match ev {
                        Event::Output(r) => st is Closing && (a matches Action::Note(t) && t@ == send_verdict(name, *cfg, b@, r)
                            + "\n"@),
                        _ => false,
                    },
                    SendStage::Closing => st is Finished && (a matches Action::Done(Ok(()))),
                    SendStage::Finished => false,
                }
            }),
    {
        let mut stage = SendStage::Finished;
        core::mem::swap(&mut stage, &mut self.stage);
        let name = self.name.as_str();
        match stage {
            SendStage::Start => match validate_name(name) {
                Err(e) => Action::Done(Err(e)),
                Ok(()) => {
                    self.stage = SendStage::Capturing;
                    Action::Run(capture_pane_command(name, cfg))
                },
            },
            SendStage::Capturing => match ev {
                Event::Output(Err(e)) => Action::Done(Err(classify_agent_error(name, e, cfg.host.as_str()))),
                Event::Output(Ok(b)) => {
                    let c = send_command(name, self.prompt.as_str(), cfg);
                    self.stage = SendStage::Sending(b);
                    Action::Run(c)
                },
                _ => Action::Done(Ok(())),
            },
            SendStage::Sending(b) => match ev {
                Event::Output(Err(e)) => Action::Done(Err(classify_agent_error(name, e, cfg.host.as_str()))),
                Event::Output(Ok(_)) => {
                    self.stage = SendStage::Settling(b);
                    Action::Sleep(self.delay_ms)
                },
                _ => Action::Done(Ok(())),
            },
            SendStage::Settling(b) => {
                self.stage = SendStage::Verifying(b);
                Action::Run(capture_pane_command(name, cfg))
            },
            SendStage::Verifying(b) => match ev {
                Event::Output(r) => {
                    let mut t = send_verification_message(name, cfg, b.as_str(), &r);
                    t.append("\n");
                    self.stage = SendStage::Closing;
                    Action::Note(t)
                },
                _ => Action::Done(Ok(())),
            },
            SendStage::Closing => Action::Done(Ok(())),
            SendStage::Finished => Action::Done(Ok(())),
        }
    }
}

/// Where a connection stands.
pub enum ConnectStage {
    Start,
    /// Waiting for the session check.
    Checking,
    /// Waiting for the attached session to end.
    Attached,
    /// The closing line is out.
    Closing,
    Finished,
}

/// An interactive attachment to an agent's session.
pub struct Connect {
    pub name: String,
    pub stage: ConnectStage,
}

/// The event a stage waits for.
pub open spec fn connect_expects(st: ConnectStage, ev: Event) -> bool {
    match st {
        ConnectStage::Start => ev is Begin,
        ConnectStage::Checking => ev is Output,
        ConnectStage::Attached => ev is Exited,
        ConnectStage::Closing => ev is Shown,
        ConnectStage::Finished => false,
    }
}

impl Connect {
    /// A connection not yet begun.
    pub fn new(name: String) -> (r: Self)
        ensures
            r.name == name,
            r.stage is Start,
    {
        Connect { name, stage: ConnectStage::Start }
    }

    /// Take the next step: given what happened, say what to do. The name is
    /// checked and the session must exist before the terminal is attached;
    /// how the attachment ended is reported.
    pub fn step(&mut self, cfg: &Config, ev: Event) -> (a: Action)
        requires
            connect_expects(old(self).stage, ev),
        ensures
            final(self).name == old(self).name,
            ({
                let name = old(self).name@;
                let session = cfg.session_prefix@ + name;
                let st = final(self).stage;
                match old(self).stage {
                    ConnectStage::Start => match validate_name_spec(name) {
                        Err(m) => st is Finished && (a matches Action::Done(Err(e)) && e@ == ErrorView::Validation(m)),
                        Ok(()) => st is Checking && (a matches Action::Run(c) && c@ == has_session_spec(session)),
                    },
                    ConnectStage::Checking => match ev {
                        Event::Output(Err(e)) => st is Finished && (a matches Action::Done(Err(f)) && f@ == wait_error(name, e@, *cfg)),
                        Event::Output(Ok(_)) => st is Attached && (a matches Action::Attach(c) && c@ == "tmux attach-session -t "@
                            + cfg.session_prefix@ + name),
                        _ => false,
                    },
                    ConnectStage::Attached => match ev {
                        Event::Exited(Err(e)) => st is Finished && a == Action::Done(Err(e)),
                        Event::Exited(Ok(true)) => st is Closing && (a matches Action::Note(t) && t@ == "Detached from "@
                            + cfg.session_prefix@ + name + "."@ + "\n"@),
                        Event::Exited(Ok(false)) => st is Closing && (a matches Action::Note(t) && t@ == "Connection to "@
                            + cfg.session_prefix@ + name + " ended (non-zero exit)."@ + "\n"@),
                        _ => false,
                    },
                    ConnectStage::Closing => st is Finished && (a matches Action::Done(Ok(()))),
                    ConnectStage::Finished => false,
                }
            }),
    {
        let mut stage = ConnectStage::Finished;
        core::mem::swap(&mut stage, &mut self.stage);
        let name = self.name.as_str();
        match stage {
            ConnectStage::Start => match validate_name(name) {
                Err(e) => Action::Done(Err(e)),
                Ok(()) => {
                    self.stage = ConnectStage::Checking;
                    Action::Run(has_session_command(name, cfg))
                },
            },
            ConnectStage::Checking => match ev {
                Event::Output(Err(e)) => Action::Done(Err(classify_agent_error(name, e, cfg.host.as_str()))),
                Event::Output(Ok(_)) => {
                    self.stage = ConnectStage::Attached;
                    Action::Attach(connect_command(name, cfg))
                },
                _ => Action::Done(Ok(())),
            },
            ConnectStage::Attached => match ev {
                Event::Exited(Err(e)) => Action::Done(Err(e)),
                Event::Exited(Ok(ok)) => {
                    let mut t = connect_ended_message(name, cfg, ok);
                    t.append("\n");
                    self.stage = ConnectStage::Closing;
                    Action::Note(t)
                },
                _ => Action::Done(Ok(())),
            },
            ConnectStage::Closing => Action::Done(Ok(())),
            ConnectStage::Finished => Action::Done(Ok(())),
        }
    }
}


/// Scrollback lines each poll of `logs --follow` reads.
pub const FOLLOW_LINES: u32 = 200;

/// The pause between polls of `logs --follow`.
pub const FOLLOW_INTERVAL_MS: u64 = 2000;

/// Lines printed one per line.
pub open spec fn each_line(ls: Seq<Seq<char>>) -> Seq<char>
    decreases ls.len(),
{
    if ls.len() == 0 {
        Seq::empty()
    } else {
        each_line(ls.drop_last()) + ls.last() + "\n"@
    }
}

/// The lines of `ls` from `start` on, one per line.
pub fn print_lines_from(ls: &Vec<String>, start: usize) -> (r: String)
    requires
        start <= ls@.len(),
    ensures
        r@ == each_line(views(ls@).skip(start as int)),
{
    let ghost all = views(ls@).skip(start as int);
    let mut out = String::new();
    let mut i: usize = start;
    assert(all.take(0) =~= Seq::<Seq<char>>::empty());
    while i < ls.len()
        invariant
            start <= i <= ls.len(),
            all == views(ls@).skip(start as int),
            out@ == each_line(all.take(i - start)),
        decreases ls.len() - i,
    {
        out.append(ls[i].as_str());
        out.append("\n");
        let ghost t = all.take(i - start + 1);
        assert(t.drop_last() =~= all.take(i - start));
        assert(t.last() == ls@[i as int]@);
        i = i + 1;
    }
    assert(all.take(ls.len() - start) =~= all);
    out
}

/// Where `logs --follow` stands; it runs until interrupted.
pub enum FollowStage {
    Start,
    /// Waiting for the first capture.
    Initial,
    /// The header is out; the first lines follow.
    Announced(Vec<String>),
    /// New lines (or a warning) are out; the pause follows.
    Printed(Vec<String>),
    /// Pausing before the next capture.
    Sleeping(Vec<String>),
    /// Waiting for the next capture; these lines were seen last.
    Polling(Vec<String>),
}

/// Following an agent's output, driven step by step.
pub struct Follow {
    pub name: String,
    pub stage: FollowStage,
}

/// The event a stage waits for.
pub open spec fn follow_expects(st: FollowStage, ev: Event) -> bool {
    match st {
        FollowStage::Start => ev is Begin,
        FollowStage::Initial | FollowStage::Polling(_) => ev is Output,
        FollowStage::Announced(_) | FollowStage::Printed(_) | FollowStage::Sleeping(_) => ev is Shown,
    }
}

impl Follow {
    /// A follow not yet begun.
    pub fn new(name: String) -> (r: Self)
        ensures
            r.name == name,
            r.stage is Start,
    {
        Follow { name, stage: FollowStage::Start }
    }

    /// Take the next step: given what happened, say what to do. The name is
    /// checked; the last 200 lines are printed after a header; then every
    /// two seconds the capture is repeated and only the lines after the
    /// longest run of old lines found again are printed; a failed capture
    /// only warns.
    pub fn step(&mut self, cfg: &Config, ev: Event) -> (a: Action)
        requires
            follow_expects(old(self).stage, ev),
        ensures
            final(self).name == old(self).name,
            ({
                let name = old(self).name@;
                let cmd = deep_capture_spec(cfg.session_prefix@ + name, FOLLOW_LINES);
                let st = final(self).stage;
                match old(self).stage {
                    FollowStage::Start => match validate_name_spec(name) {
                        Err(m) => (a matches Action::Done(Err(e)) && e@ == ErrorView::Validation(m)),
                        Ok(()) => st is Initial && (a matches Action::Run(c) && c@ == cmd),
                    },
                    FollowStage::Initial => match ev {
                        Event::Output(Err(e)) => (a matches Action::Done(Err(f)) && f@ == wait_error(name, e@, *cfg)),
                        Event::Output(Ok(o)) => (st matches FollowStage::Announced(ls) && views(ls@) == lines(o@)) && (
                        a matches Action::Note(t) && t@ == "Following "@ + name + " (Ctrl+C to stop)..."@ + "\n"@),
                        _ => false,
                    },
                    FollowStage::Announced(ls) => st == FollowStage::Printed(ls) && (a matches Action::Print(t) && t@
                        == each_line(views(ls@))),
                    FollowStage::Printed(ls) => st == FollowStage::Sleeping(ls) && a == Action::Sleep(FOLLOW_INTERVAL_MS),
                    FollowStage::Sleeping(ls) => st == FollowStage::Polling(ls) && (a matches Action::Run(c) && c@ == cmd),
                    FollowStage::Polling(ls) => match ev {
                        Event::Output(Err(e)) => st == FollowStage::Printed(ls) && (a matches Action::Note(t) && t@
                            == "Warning: capture failed: "@ + display_spec(e@) + "\n"@),
                        Event::Output(Ok(o)) => (st matches FollowStage::Printed(cur) && views(cur@) == lines(o@)) && (
                        a matches Action::Print(t) && exists|k: int|
                            0 <= k <= lines(o@).len() && new_content_start_ok(views(ls@), lines(o@), k) && t@ == each_line(
                                lines(o@).skip(k),
                            )),
                        _ => false,
                    },
                }
            }),
    {
        let mut stage = FollowStage::Initial;
        core::mem::swap(&mut stage, &mut self.stage);
        let name = self.name.as_str();
        match stage {
            FollowStage::Start => match validate_name(name) {
                Err(e) => Action::Done(Err(e)),
                Ok(()) => Action::Run(logs_snapshot_deep_command(name, FOLLOW_LINES, cfg)),
            },
            FollowStage::Initial => match ev {
                Event::Output(Err(e)) => Action::Done(Err(classify_agent_error(name, e, cfg.host.as_str()))),
                Event::Output(Ok(o)) => {
                    let ls = lines_of(o.as_str());
                    let mut t = owned("Following ");
                    t.append(name);
                    t.append(" (Ctrl+C to stop)...");
                    t.append("\n");
                    self.stage = FollowStage::Announced(ls);
                    Action::Note(t)
                },
                _ => Action::Done(Ok(())),
            },
            FollowStage::Announced(ls) => {
                let t = print_lines_from(&ls, 0);
                assert(views(ls@).skip(0) =~= views(ls@));
                self.stage = FollowStage::Printed(ls);
                Action::Print(t)
            },
            FollowStage::Printed(ls) => {
                self.stage = FollowStage::Sleeping(ls);
                Action::Sleep(FOLLOW_INTERVAL_MS)
            },
            FollowStage::Sleeping(ls) => {
                self.stage = FollowStage::Polling(ls);
                Action::Run(logs_snapshot_deep_command(name, FOLLOW_LINES, cfg))
            },
            FollowStage::Polling(ls) => match ev {
                Event::Output(Err(e)) => {
                    let mut t = owned("Warning: capture failed: ");
                    t.append(e.message().as_str());
                    t.append("\n");
                    self.stage = FollowStage::Printed(ls);
                    Action::Note(t)
                },
                Event::Output(Ok(o)) => {
                    let cur = lines_of(o.as_str());
                    let k = find_new_content_start(&ls, &cur);
                    let t = print_lines_from(&cur, k);
                    self.stage = FollowStage::Printed(cur);
                    Action::Print(t)
                },
                _ => {
                    self.stage = FollowStage::Printed(ls);
                    Action::Sleep(FOLLOW_INTERVAL_MS)
                },
            },
        }
    }
}

} // verus!
