//! `skulk restart`: a fresh agent session in an existing worktree.

use vstd::prelude::*;
use crate::commands::destroy::{agent_destroy_session_command, destroy_session_spec};
use crate::commands::flow::{Action, Event};
use crate::commands::new::{
    agent_create_tmux_command, create_tmux_spec, launch_flags_spec, opt_string, validate_new_args,
    validate_new_args_spec,
};
use crate::config::Config;
use crate::error::{agent_error_spec, classify_agent_error, ErrorView, SkulkError};
use crate::inventory::{inventory_command, inventory_command_spec, parse_inventory, parsed_inventory, AgentInventory};
use crate::text::lowercase;
use crate::text::{owned, vec_contains, views};

verus! {

/// Restarting needs the agent stopped and its worktree present: a running
/// session is refused, and without a worktree there is nothing to restart.
pub fn check_restart_target(name: &str, inv: &AgentInventory, cfg: &Config) -> (r: Result<(), SkulkError>)
    ensures
        views(inv.sessions@).contains(cfg.session_prefix@ + name@) ==> (r matches Err(e) && e@ == ErrorView::Validation(
            "Agent '"@ + name@ + "' is already running. Use `skulk connect "@ + name@ + "` to attach."@,
        )),
        !views(inv.sessions@).contains(cfg.session_prefix@ + name@) && !inv.worktrees@.contains_key(
            cfg.session_prefix@ + name@,
        ) ==> (r matches Err(e) && e@ == ErrorView::NotFound(
            "No worktree for agent '"@ + name@ + "'. Use `skulk new "@ + name@ + "` to create a new agent."@,
        )),
        !views(inv.sessions@).contains(cfg.session_prefix@ + name@) && inv.worktrees@.contains_key(
            cfg.session_prefix@ + name@,
        ) ==> r is Ok,
{
    let mut session = owned(cfg.session_prefix.as_str());
    session.append(name);
    if vec_contains(&inv.sessions, session.as_str()) {
        let mut m = owned("Agent '");
        m.append(name);
        m.append("' is already running. Use `skulk connect ");
        m.append(name);
        m.append("` to attach.");
        return Err(SkulkError::Validation(m));
    }
    if !inv.worktrees.contains_key(session.as_str()) {
        let mut m = owned("No worktree for agent '");
        m.append(name);
        m.append("'. Use `skulk new ");
        m.append(name);
        m.append("` to create a new agent.");
        return Err(SkulkError::NotFound(m));
    }
    Ok(())
}

/// The warning when the half-made session could not be cleaned up.
pub fn partial_session_warning(name: &str) -> (r: String)
    ensures
        r@ == "Warning: failed to clean up partial tmux session for agent '"@ + name@
            + "'. If `skulk restart "@ + name@ + "` reports 'already running', run `skulk destroy "@ + name@
            + "` first."@,
{
    let mut m = owned("Warning: failed to clean up partial tmux session for agent '");
    m.append(name);
    m.append("'. If `skulk restart ");
    m.append(name);
    m.append("` reports 'already running', run `skulk destroy ");
    m.append(name);
    m.append("` first.");
    m
}

/// The report after a restart.
pub fn restarted_report(name: &str, cfg: &Config) -> (r: String)
    ensures
        r@ == "Agent '"@ + name@ + "' restarted.\n  Branch: "@ + cfg.session_prefix@ + name@ + "\n  Worktree: "@
            + cfg.worktree_base@ + "/"@ + cfg.session_prefix@ + name@
            + "\n  Mode: skip-permissions\n  Context: fresh (empty)\n\nNext steps:\n  skulk connect "@ + name@
            + "    # attach to session\n  skulk send "@ + name@ + " \"...\" # send a prompt\n  skulk archive "@
            + name@ + "    # stop without losing work"@,
{
    let mut s = owned("Agent '");
    s.append(name);
    s.append("' restarted.\n  Branch: ");
    s.append(cfg.session_prefix.as_str());
    s.append(name);
    s.append("\n  Worktree: ");
    s.append(cfg.worktree_base.as_str());
    s.append("/");
    s.append(cfg.session_prefix.as_str());
    s.append(name);
    s.append("\n  Mode: skip-permissions\n  Context: fresh (empty)\n\nNext steps:\n  skulk connect ");
    s.append(name);
    s.append("    # attach to session\n  skulk send ");
    s.append(name);
    s.append(" \"...\" # send a prompt\n  skulk archive ");
    s.append(name);
    s.append("    # stop without losing work");
    s
}


/// Why agent `name` cannot be restarted from `inv`, if it cannot: it is
/// running, or it has no worktree.
pub open spec fn restart_block(name: Seq<char>, inv: AgentInventory, cfg: Config) -> Option<ErrorView> {
    let session = cfg.session_prefix@ + name;
    if views(inv.sessions@).contains(session) {
        Some(ErrorView::Validation("Agent '"@ + name + "' is already running. Use `skulk connect "@ + name + "` to attach."@))
    } else if !inv.worktrees@.contains_key(session) {
        Some(ErrorView::NotFound("No worktree for agent '"@ + name + "'. Use `skulk new "@ + name + "` to create a new agent."@))
    } else {
        None
    }
}

/// The error a failed session start becomes, naming the agent.
pub open spec fn start_error(name: Seq<char>, e: ErrorView, cfg: Config) -> ErrorView {
    match e {
        ErrorView::SshFailed(s) => agent_error_spec(name, s, lowercase(s), cfg.host@),
        other => other,
    }
}

/// Where a restart stands.
pub enum RestartStage {
    /// Nothing done yet.
    Start,
    /// Waiting for the inventory.
    ReadingInventory,
    /// Waiting for the new session.
    Starting,
    /// The session failed with this error; waiting for the half-made
    /// session to be killed.
    Cleaning(SkulkError),
    /// The cleanup warning is out; the error follows.
    Warned(SkulkError),
    /// The report is out.
    Reporting,
    /// The command is over.
    Finished,
}

/// A restart of an archived agent in its worktree, driven step by step.
pub struct Restart {
    pub name: String,
    pub remote_control: bool,
    pub model: Option<String>,
    pub extra_args: Option<String>,
    pub stage: RestartStage,
}

/// The event a stage waits for.
pub open spec fn restart_expects(st: RestartStage, ev: Event) -> bool {
    match st {
        RestartStage::Start => ev is Begin,
        RestartStage::ReadingInventory | RestartStage::Starting | RestartStage::Cleaning(_) => ev is Output,
        RestartStage::Warned(_) | RestartStage::Reporting => ev is Shown,
        RestartStage::Finished => false,
    }
}

fn as_deref(o: &Option<String>) -> (r: Option<&str>)
    ensures
        crate::commands::init::opt_view(*o) == match r {
            Some(s) => Some(s@),
            None => None::<Seq<char>>,
        },
{
    match o {
        Some(s) => Some(s.as_str()),
        None => None,
    }
}

impl Restart {
    /// A restart not yet begun.
    pub fn new(name: String, remote_control: bool, model: Option<String>, extra_args: Option<String>) -> (r: Self)
        ensures
            r.name == name,
            r.remote_control == remote_control,
            r.model == model,
            r.extra_args == extra_args,
            r.stage is Start,
    {
        Restart { name, remote_control, model, extra_args, stage: RestartStage::Start }
    }

    /// Take the next step: given what happened, say what to do. The name
    /// and model are checked first; the agent must be stopped and keep its
    /// worktree; a fresh session is started there; if that fails, the
    /// half-made session is killed (with a warning when that fails too)
    /// and the error, naming the agent, is returned.
    pub fn step(&mut self, cfg: &Config, ev: Event) -> (a: Action)
        requires
            restart_expects(old(self).stage, ev),
        ensures
            final(self).name == old(self).name,
            final(self).remote_control == old(self).remote_control,
            final(self).model == old(self).model,
            final(self).extra_args == old(self).extra_args,
            ({
                let name = old(self).name@;
                let session = cfg.session_prefix@ + name;
                let st = final(self).stage;
                match old(self).stage {
                    RestartStage::Start => match validate_new_args_spec(name, opt_string(old(self).model)) {
                        Some(m) => st is Finished && (a matches Action::Done(Err(e)) && e@ == ErrorView::Validation(m)),
                        None => st is ReadingInventory && (a matches Action::Run(c) && c@ == inventory_command_spec(
                            cfg.base_path@,
                            cfg.session_prefix@,
                        )),
                    },
                    RestartStage::ReadingInventory => match ev {
                        Event::Output(Err(e)) => st is Finished && a == Action::Done(Err(e)),
                        Event::Output(Ok(raw)) => exists|inv: AgentInventory|
                            #![trigger parsed_inventory(raw@, cfg.session_prefix@, inv)]
                            parsed_inventory(raw@, cfg.session_prefix@, inv) && match restart_block(name, inv, *cfg) {
                                Some(v) => st is Finished && (a matches Action::Done(Err(e)) && e@ == v),
                                None => st is Starting && (a matches Action::Run(c) && c@ == create_tmux_spec(
                                    cfg.worktree_base@,
                                    session,
                                    cfg.harness@,
                                    launch_flags_spec(
                                        session,
                                        old(self).remote_control,
                                        opt_string(old(self).model),
                                        opt_string(old(self).extra_args),
                                    ),
                                )),
                            },
                        _ => false,
                    },
                    RestartStage::Starting => match ev {
                        Event::Output(Ok(_)) => st is Reporting && (a matches Action::Print(t) && t@ == "Agent '"@ + name
                            + "' restarted.\n  Branch: "@ + cfg.session_prefix@ + name + "\n  Worktree: "@
                            + cfg.worktree_base@ + "/"@ + cfg.session_prefix@ + name
                            + "\n  Mode: skip-permissions\n  Context: fresh (empty)\n\nNext steps:\n  skulk connect "@
                            + name + "    # attach to session\n  skulk send "@ + name
                            + " \"...\" # send a prompt\n  skulk archive "@ + name + "    # stop without losing work"@
                            + "\n"@),
                        Event::Output(Err(e)) => (st matches RestartStage::Cleaning(f) && f@ == start_error(name, e@, *cfg))
                            && (a matches Action::Run(c) && c@ == destroy_session_spec(session)),
                        _ => false,
                    },
                    RestartStage::Cleaning(f) => match ev {
                        Event::Output(Ok(_)) => st is Finished && a == Action::Done(Err(f)),
                        Event::Output(Err(_)) => st == RestartStage::Warned(f) && (a matches Action::Note(t) && t@
                            == "Warning: failed to clean up partial tmux session for agent '"@ + name
                            + "'. If `skulk restart "@ + name + "` reports 'already running', run `skulk destroy "@
                            + name + "` first."@ + "\n"@),
                        _ => false,
                    },
                    RestartStage::Warned(f) => st is Finished && a == Action::Done(Err(f)),
                    RestartStage::Reporting => st is Finished && (a matches Action::Done(Ok(()))),
                    RestartStage::Finished => false,
                }
            }),
    {
        let mut stage = RestartStage::Finished;
        core::mem::swap(&mut stage, &mut self.stage);
        let name = self.name.as_str();
        match stage {
            RestartStage::Start => match validate_new_args(name, as_deref(&self.model)) {
                Err(e) => Action::Done(Err(e)),
                Ok(()) => {
                    self.stage = RestartStage::ReadingInventory;
                    Action::Run(inventory_command(cfg))
                },
            },
            RestartStage::ReadingInventory => match ev {
                Event::Output(Err(e)) => Action::Done(Err(e)),
                Event::Output(Ok(raw)) => {
                    let inv = parse_inventory(raw.as_str(), cfg);
                    assert(parsed_inventory(raw@, cfg.session_prefix@, inv));
                    match check_restart_target(name, &inv, cfg) {
                        Err(e) => Action::Done(Err(e)),
                        Ok(()) => {
                            self.stage = RestartStage::Starting;
                            Action::Run(
                                agent_create_tmux_command(
                                    name,
                                    cfg,
                                    self.remote_control,
                                    as_deref(&self.model),
                                    as_deref(&self.extra_args),
                                ),
                            )
                        },
                    }
                },
                _ => Action::Done(Ok(())),
            },
            RestartStage::Starting => match ev {
                Event::Output(Ok(_)) => {
                    let mut t = restarted_report(name, cfg);
                    t.append("\n");
                    self.stage = RestartStage::Reporting;
                    Action::Print(t)
                },
                Event::Output(Err(e)) => {
                    let f = classify_agent_error(name, e, cfg.host.as_str());
                    self.stage = RestartStage::Cleaning(f);
                    Action::Run(agent_destroy_session_command(name, cfg))
                },
                _ => Action::Done(Ok(())),
            },
            RestartStage::Cleaning(f) => match ev {
                Event::Output(Ok(_)) => Action::Done(Err(f)),
                Event::Output(Err(_)) => {
                    let mut t = partial_session_warning(name);
                    t.append("\n");
                    self.stage = RestartStage::Warned(f);
                    Action::Note(t)
                },
                _ => Action::Done(Ok(())),
            },
            RestartStage::Warned(f) => Action::Done(Err(f)),
            RestartStage::Reporting => Action::Done(Ok(())),
            RestartStage::Finished => Action::Done(Ok(())),
        }
    }
}

} // verus!
