//! `skulk wait`: block until an agent has finished its turn.

use vstd::prelude::*;
use crate::agent_ref::{unqualified, AgentRef};
use crate::commands::flow::{Action, Event};
use crate::config::Config;
use crate::inventory::{inventory_command, inventory_command_spec, parse_inventory, parsed_inventory, AgentInventory};
use crate::error::{agent_error_spec, classify_agent_error, ErrorView, SkulkError};
use crate::text::{chars_eq, lowercase, nat_dec, owned, to_chars, trim, trim_str, u64_to_dec};
use crate::util::{validate_name, validate_name_spec};

verus! {

/// `cat ~/.skulk/state/<s> 2>/dev/null || echo missing`.
pub open spec fn wait_state_spec(session: Seq<char>) -> Seq<char> {
    "cat ~/.skulk/state/"@ + session + " 2>/dev/null || echo missing"@
}

/// The SSH command that reads an agent's idle marker (`idle` or `busy`),
/// printing `missing` when the agent has not finished any turn yet.
pub fn wait_state_command(name: &str, cfg: &Config) -> (r: String)
    ensures
        r@ == wait_state_spec(cfg.session_prefix@ + name@),
{
    let mut s = owned("cat ~/.skulk/state/");
    s.append(AgentRef::new(name, cfg).session_name().as_str());
    s.append(" 2>/dev/null || echo missing");
    s
}

/// `tmux has-session -t <s>`.
pub open spec fn has_session_spec(session: Seq<char>) -> Seq<char> {
    "tmux has-session -t "@ + session
}

/// The SSH command that checks the agent's tmux session exists.
pub fn has_session_command(name: &str, cfg: &Config) -> (r: String)
    ensures
        r@ == has_session_spec(cfg.session_prefix@ + name@),
{
    let mut s = owned("tmux has-session -t ");
    s.append(AgentRef::new(name, cfg).session_name().as_str());
    s
}

/// `mkdir -p ~/.skulk/state && printf busy > ~/.skulk/state/<s>`.
pub open spec fn mark_busy_spec(session: Seq<char>) -> Seq<char> {
    "mkdir -p ~/.skulk/state && printf busy > ~/.skulk/state/"@ + session
}

/// The shell snippet that marks a session busy before a prompt goes out, so
/// a `wait` right after a `send` cannot see a stale `idle`.
pub fn mark_busy_command(session_name: &str) -> (r: String)
    ensures
        r@ == mark_busy_spec(session_name@),
{
    let mut s = owned("mkdir -p ~/.skulk/state && printf busy > ~/.skulk/state/");
    s.append(session_name);
    s
}

/// What one poll of the idle marker decides.
#[derive(Debug, Clone, Copy, PartialEq, Eq, Structural)]
pub enum WaitStep {
    /// The agent is idle (or never ran a turn): stop waiting.
    Idle,
    /// Still busy and the deadline has passed.
    TimedOut,
    /// Still busy: sleep and poll again.
    Poll,
}

/// The decision after reading `marker`, `elapsed_ms` into a wait of
/// `timeout_ms`: `idle` and `missing` (surrounding whitespace ignored) end
/// the wait; otherwise the deadline decides.
pub open spec fn wait_step_spec(marker: Seq<char>, elapsed_ms: u64, timeout_ms: u64) -> WaitStep {
    let t = trim(marker);
    if t == "idle"@ || t == "missing"@ {
        WaitStep::Idle
    } else if elapsed_ms >= timeout_ms {
        WaitStep::TimedOut
    } else {
        WaitStep::Poll
    }
}

/// Decide what to do after a poll of the idle marker.
pub fn wait_step(marker: &str, elapsed_ms: u64, timeout_ms: u64) -> (r: WaitStep)
    ensures
        r == wait_step_spec(marker@, elapsed_ms, timeout_ms),
{
    let t = trim_str(marker);
    let tv = to_chars(t.as_str());
    let idle = to_chars("idle");
    let missing = to_chars("missing");
    if chars_eq(tv.as_slice(), idle.as_slice()) || chars_eq(tv.as_slice(), missing.as_slice()) {
        WaitStep::Idle
    } else if elapsed_ms >= timeout_ms {
        WaitStep::TimedOut
    } else {
        WaitStep::Poll
    }
}

/// The line printed once the agent is idle.
pub fn idle_message(name: &str, cfg: &Config) -> (r: String)
    ensures
        r@ == "Agent "@ + cfg.session_prefix@ + name@ + " is idle."@,
{
    let mut s = owned("Agent ");
    s.append(AgentRef::new(name, cfg).session_name().as_str());
    s.append(" is idle.");
    s
}

/// The error when the agent stays busy past the deadline.
pub fn wait_timeout_error(name: &str, cfg: &Config, timeout_secs: u64) -> (r: SkulkError)
    ensures
        r@ == (ErrorView::Diagnostic {
            message: "Timed out after "@ + nat_dec(timeout_secs as nat) + "s waiting for "@ + cfg.session_prefix@
                + name@ + " to become idle."@,
            suggestion: "Inspect the agent: `skulk connect "@ + name@ + "` (or raise --timeout)."@,
        }),
{
    let mut m = owned("Timed out after ");
    m.append(u64_to_dec(timeout_secs).as_str());
    m.append("s waiting for ");
    m.append(AgentRef::new(name, cfg).session_name().as_str());
    m.append(" to become idle.");
    let mut s = owned("Inspect the agent: `skulk connect ");
    s.append(name);
    s.append("` (or raise --timeout).");
    assert(m@ =~= "Timed out after "@ + nat_dec(timeout_secs as nat) + "s waiting for "@ + cfg.session_prefix@
        + name@ + " to become idle."@);
    SkulkError::Diagnostic { message: m, suggestion: s }
}


/// Where a wait for one agent stands.
pub enum WaitStage {
    /// Nothing done yet.
    Start,
    /// Waiting for the session check.
    CheckingSession,
    /// Waiting for the clock at the start of polling.
    Clocking,
    /// Waiting for the idle marker; polling began at this time.
    Polling(u64),
    /// The marker was read; waiting for the clock to judge it.
    Timing(u64, String),
    /// Waiting out the poll interval.
    Sleeping(u64),
    /// The idle line is out.
    Reporting,
    /// The wait is over.
    Finished,
}

/// A wait for one agent to become idle, driven step by step.
pub struct Wait {
    pub name: String,
    /// The pause between polls.
    pub poll_ms: u64,
    /// How long to wait before giving up.
    pub timeout_ms: u64,
    pub stage: WaitStage,
}

/// The event a stage waits for.
pub open spec fn wait_expects(st: WaitStage, ev: Event) -> bool {
    match st {
        WaitStage::Start => ev is Begin,
        WaitStage::CheckingSession | WaitStage::Polling(_) => ev is Output,
        WaitStage::Clocking | WaitStage::Timing(_, _) => ev is Millis,
        WaitStage::Sleeping(_) | WaitStage::Reporting => ev is Shown,
        WaitStage::Finished => false,
    }
}

/// Time passed from `t0` to `t`; a clock reading before `t0` counts as none.
pub open spec fn since(t0: u64, t: u64) -> u64 {
    if t >= t0 { (t - t0) as u64 } else { 0 }
}

/// The error a failed remote command of the wait becomes, naming the agent.
pub open spec fn wait_error(name: Seq<char>, e: ErrorView, cfg: Config) -> ErrorView {
    match e {
        ErrorView::SshFailed(s) => agent_error_spec(name, s, lowercase(s), cfg.host@),
        other => other,
    }
}

/// One step of a wait: from `o`, on `ev`, to `o2`, answering `a`.
pub open spec fn wait_next(o: Wait, cfg: Config, ev: Event, o2: Wait, a: Action) -> bool {
    &&& o2.name == o.name
    &&& o2.poll_ms == o.poll_ms
    &&& o2.timeout_ms == o.timeout_ms
    &&& ({
        let w = o;
        let name = w.name@;
        let session = cfg.session_prefix@ + name;
        let st = o2.stage;
        match w.stage {
            WaitStage::Start => match validate_name_spec(name) {
                Err(m) => st is Finished && (a matches Action::Done(Err(e)) && e@ == ErrorView::Validation(m)),
                Ok(()) => st is CheckingSession && (a matches Action::Run(c) && c@ == has_session_spec(session)),
            },
            WaitStage::CheckingSession => match ev {
                Event::Output(Ok(_)) => st is Clocking && a is Now,
                Event::Output(Err(e)) => st is Finished && (a matches Action::Done(Err(f)) && f@ == wait_error(
                    name,
                    e@,
                    cfg,
                )),
                _ => false,
            },
            WaitStage::Clocking => match ev {
                Event::Millis(t) => st == WaitStage::Polling(t) && (a matches Action::Run(c) && c@ == wait_state_spec(session)),
                _ => false,
            },
            WaitStage::Polling(t0) => match ev {
                Event::Output(Ok(m)) => (st matches WaitStage::Timing(t1, m2) && t1 == t0 && m2@ == m@) && a is Now,
                Event::Output(Err(e)) => st is Finished && (a matches Action::Done(Err(f)) && f@ == wait_error(
                    name,
                    e@,
                    cfg,
                )),
                _ => false,
            },
            WaitStage::Timing(t0, m) => match ev {
                Event::Millis(t) => match wait_step_spec(m@, since(t0, t), w.timeout_ms) {
                    WaitStep::Idle => st is Reporting && (a matches Action::Note(x) && x@ == "Agent "@
                        + cfg.session_prefix@ + name + " is idle."@ + "\n"@),
                    WaitStep::TimedOut => st is Finished && (a matches Action::Done(Err(e)) && e@ == (ErrorView::Diagnostic {
                        message: "Timed out after "@ + nat_dec((w.timeout_ms / 1000) as nat) + "s waiting for "@
                            + cfg.session_prefix@ + name + " to become idle."@,
                        suggestion: "Inspect the agent: `skulk connect "@ + name + "` (or raise --timeout)."@,
                    })),
                    WaitStep::Poll => st == WaitStage::Sleeping(t0) && a == Action::Sleep(w.poll_ms),
                },
                _ => false,
            },
            WaitStage::Sleeping(t0) => st == WaitStage::Polling(t0) && (a matches Action::Run(c) && c@
                == wait_state_spec(session)),
            WaitStage::Reporting => st is Finished && (a matches Action::Done(Ok(()))),
            WaitStage::Finished => false,
        }
    })
}

impl Wait {
    /// A wait not yet begun.
    pub fn new(name: String, poll_ms: u64, timeout_ms: u64) -> (r: Self)
        ensures
            r.name == name,
            r.poll_ms == poll_ms,
            r.timeout_ms == timeout_ms,
            r.stage is Start,
    {
        Wait { name, poll_ms, timeout_ms, stage: WaitStage::Start }
    }

    /// Take the next step: given what happened, say what to do. The name is
    /// checked and the session must exist; then the idle marker is read
    /// until it says `idle` or `missing`, pausing between reads, and giving
    /// up once the timeout has passed; failures of the remote commands name
    /// the agent.
    pub fn step(&mut self, cfg: &Config, ev: Event) -> (a: Action)
        requires
            wait_expects(old(self).stage, ev),
        ensures
            wait_next(*old(self), *cfg, ev, *final(self), a),
    {
        let mut stage = WaitStage::Finished;
        core::mem::swap(&mut stage, &mut self.stage);
        let name = self.name.as_str();
        match stage {
            WaitStage::Start => match validate_name(name) {
                Err(e) => Action::Done(Err(e)),
                Ok(()) => {
                    self.stage = WaitStage::CheckingSession;
                    Action::Run(has_session_command(name, cfg))
                },
            },
            WaitStage::CheckingSession => match ev {
                Event::Output(Ok(_)) => {
                    self.stage = WaitStage::Clocking;
                    Action::Now
                },
                Event::Output(Err(e)) => Action::Done(Err(classify_agent_error(name, e, cfg.host.as_str()))),
                _ => Action::Done(Ok(())),
            },
            WaitStage::Clocking => match ev {
                Event::Millis(t) => {
                    self.stage = WaitStage::Polling(t);
                    Action::Run(wait_state_command(name, cfg))
                },
                _ => Action::Done(Ok(())),
            },
            WaitStage::Polling(t0) => match ev {
                Event::Output(Ok(m)) => {
                    self.stage = WaitStage::Timing(t0, m);
                    Action::Now
                },
                Event::Output(Err(e)) => Action::Done(Err(classify_agent_error(name, e, cfg.host.as_str()))),
                _ => Action::Done(Ok(())),
            },
            WaitStage::Timing(t0, m) => match ev {
                Event::Millis(t) => {
                    let elapsed = if t >= t0 { t - t0 } else { 0 };
                    match wait_step(m.as_str(), elapsed, self.timeout_ms) {
                        WaitStep::Idle => {
                            let mut x = idle_message(name, cfg);
                            x.append("\n");
                            self.stage = WaitStage::Reporting;
                            Action::Note(x)
                        },
                        WaitStep::TimedOut => Action::Done(Err(wait_timeout_error(name, cfg, self.timeout_ms / 1000))),
                        WaitStep::Poll => {
                            self.stage = WaitStage::Sleeping(t0);
                            Action::Sleep(self.poll_ms)
                        },
                    }
                },
                _ => Action::Done(Ok(())),
            },
            WaitStage::Sleeping(t0) => {
                self.stage = WaitStage::Polling(t0);
                Action::Run(wait_state_command(name, cfg))
            },
            WaitStage::Reporting => Action::Done(Ok(())),
            WaitStage::Finished => Action::Done(Ok(())),
        }
    }
}


/// Where a wait for every running agent stands.
pub enum WaitAllStage {
    /// Nothing done yet.
    Start,
    /// Waiting for the inventory.
    ReadingInventory,
    /// Waiting for the agent of session `at` of these sessions.
    Waiting(Vec<String>, usize, Wait),
    /// The note that nothing runs is out.
    Closing,
    /// The command is over.
    Finished,
}

/// A wait for every running agent in turn, driven step by step.
pub struct WaitAll {
    pub poll_ms: u64,
    pub timeout_ms: u64,
    pub stage: WaitAllStage,
}

/// The stored position is in range.
pub open spec fn wait_all_wf(st: WaitAllStage) -> bool {
    match st {
        WaitAllStage::Waiting(ss, i, _) => i < ss@.len(),
        _ => true,
    }
}

/// The event a stage waits for.
pub open spec fn wait_all_expects(st: WaitAllStage, ev: Event) -> bool {
    match st {
        WaitAllStage::Start => ev is Begin,
        WaitAllStage::ReadingInventory => ev is Output,
        WaitAllStage::Waiting(_, _, w) => wait_expects(w.stage, ev),
        WaitAllStage::Closing => ev is Shown,
        WaitAllStage::Finished => false,
    }
}

/// The wait for the agent of session `i` of `ss` begins: its first action.
pub open spec fn wait_all_begin(ss: Vec<String>, i: int, poll_ms: u64, timeout_ms: u64, cfg: Config, st: WaitAllStage, a: Action) -> bool {
    exists|w0: Wait, w1: Wait|
        #![trigger wait_next(w0, cfg, Event::Begin, w1, a)]
        w0.name@ == unqualified(ss@[i]@, cfg.session_prefix@) && w0.poll_ms == poll_ms && w0.timeout_ms == timeout_ms
            && w0.stage is Start && wait_next(w0, cfg, Event::Begin, w1, a) && st == WaitAllStage::Waiting(ss, i as usize, w1)
}

impl WaitAll {
    /// A wait for all agents, not yet begun.
    pub fn new(poll_ms: u64, timeout_ms: u64) -> (r: Self)
        ensures
            r.poll_ms == poll_ms,
            r.timeout_ms == timeout_ms,
            r.stage is Start,
    {
        WaitAll { poll_ms, timeout_ms, stage: WaitAllStage::Start }
    }

    fn begin(&self, ss: Vec<String>, i: usize, cfg: &Config) -> (r: (WaitAllStage, Action))
        requires
            i < ss@.len(),
        ensures
            wait_all_wf(r.0),
            wait_all_begin(ss, i as int, self.poll_ms, self.timeout_ms, *cfg, r.0, r.1),
    {
        let agent = AgentRef::from_qualified(ss[i].as_str(), cfg);
        let w0 = Wait::new(owned(agent.name()), self.poll_ms, self.timeout_ms);
        let ghost g0 = w0;
        let mut w = w0;
        let a = w.step(cfg, Event::Begin);
        assert(wait_next(g0, *cfg, Event::Begin, w, a));
        (WaitAllStage::Waiting(ss, i, w), a)
    }

    /// Take the next step: given what happened, say what to do. Every
    /// running session of the inventory is waited for in inventory order,
    /// as `wait` does for one agent; the first failure ends it all.
    pub fn step(&mut self, cfg: &Config, ev: Event) -> (a: Action)
        requires
            wait_all_wf(old(self).stage),
            wait_all_expects(old(self).stage, ev),
        ensures
            final(self).poll_ms == old(self).poll_ms,
            final(self).timeout_ms == old(self).timeout_ms,
            wait_all_wf(final(self).stage),
            ({
                let o = *old(self);
                let st = final(self).stage;
                match o.stage {
                    WaitAllStage::Start => st is ReadingInventory && (a matches Action::Run(c) && c@ == inventory_command_spec(
                        cfg.base_path@,
                        cfg.session_prefix@,
                    )),
                    WaitAllStage::ReadingInventory => match ev {
                        Event::Output(Err(e)) => st is Finished && a == Action::Done(Err(e)),
                        Event::Output(Ok(raw)) => exists|inv: AgentInventory|
                            #![trigger parsed_inventory(raw@, cfg.session_prefix@, inv)]
                            parsed_inventory(raw@, cfg.session_prefix@, inv) && if inv.sessions@.len() == 0 {
                                st is Closing && (a matches Action::Note(t) && t@ == "No running agents.\n"@)
                            } else {
                                wait_all_begin(inv.sessions, 0, o.poll_ms, o.timeout_ms, *cfg, st, a)
                            },
                        _ => false,
                    },
                    WaitAllStage::Waiting(ss, i, w) => exists|w2: Wait, x: Action|
                        #![trigger wait_next(w, *cfg, ev, w2, x)]
                        wait_next(w, *cfg, ev, w2, x) && match x {
                            Action::Done(Ok(())) => if i + 1 < ss@.len() {
                                wait_all_begin(ss, i + 1, o.poll_ms, o.timeout_ms, *cfg, st, a)
                            } else {
                                st is Finished && (a matches Action::Done(Ok(())))
                            },
                            Action::Done(Err(e)) => st is Finished && a == x,
                            _ => st == WaitAllStage::Waiting(ss, i, w2) && a == x,
                        },
                    WaitAllStage::Closing => st is Finished && (a matches Action::Done(Ok(()))),
                    WaitAllStage::Finished => false,
                }
            }),
    {
        let mut stage = WaitAllStage::Finished;
        core::mem::swap(&mut stage, &mut self.stage);
        match stage {
            WaitAllStage::Start => {
                self.stage = WaitAllStage::ReadingInventory;
                Action::Run(inventory_command(cfg))
            },
            WaitAllStage::ReadingInventory => match ev {
                Event::Output(Err(e)) => Action::Done(Err(e)),
                Event::Output(Ok(raw)) => {
                    let inv = parse_inventory(raw.as_str(), cfg);
                    assert(parsed_inventory(raw@, cfg.session_prefix@, inv));
                    if inv.sessions.len() == 0 {
                        self.stage = WaitAllStage::Closing;
                        Action::Note(owned("No running agents.\n"))
                    } else {
                        let (st, a) = self.begin(inv.sessions, 0, cfg);
                        self.stage = st;
                        a
                    }
                },
                _ => Action::Done(Ok(())),
            },
            WaitAllStage::Waiting(ss, i, mut w) => {
                let ghost g = w;
                let x = w.step(cfg, ev);
                assert(wait_next(g, *cfg, ev, w, x));
                match x {
                    Action::Done(Ok(())) => {
                        let n = ss.len();
                        if i + 1 < n {
                            let (st, a) = self.begin(ss, i + 1, cfg);
                            self.stage = st;
                            a
                        } else {
                            Action::Done(Ok(()))
                        }
                    },
                    Action::Done(Err(e)) => Action::Done(Err(e)),
                    other => {
                        self.stage = WaitAllStage::Waiting(ss, i, w);
                        other
                    },
                }
            },
            WaitAllStage::Closing => Action::Done(Ok(())),
            WaitAllStage::Finished => Action::Done(Ok(())),
        }
    }
}

} // verus!
