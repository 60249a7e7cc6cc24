//! `skulk pull`: bring the remote base clone up to date with `origin/main`.

use vstd::prelude::*;
use crate::commands::flow::{Action, Event};
use crate::config::Config;
use crate::error::{ErrorView, SkulkError};
use crate::text::{contains, contains_str, lowercase, owned, to_lowercase};

verus! {

/// The SSH command that checks the base clone is a git repository.
pub fn base_check_command(cfg: &Config) -> (r: String)
    ensures
        r@ == "test -d "@ + cfg.base_path@ + "/.git && echo exists"@,
{
    let mut s = owned("test -d ");
    s.append(cfg.base_path.as_str());
    s.append("/.git && echo exists");
    s
}

/// The message for a missing base clone, with how to create it.
pub open spec fn missing_clone_message(cfg: Config) -> Seq<char> {
    "Base clone not found at "@ + cfg.base_path@ + " on "@ + cfg.host@ + ".\nSet it up with: ssh "@
        + cfg.host@ + " 'git clone <your-repo-url> "@ + cfg.base_path@ + "'"@
}

/// The message for a missing base clone, with how to create it.
pub fn missing_clone_error_message(cfg: &Config) -> (r: String)
    ensures
        r@ == missing_clone_message(*cfg),
{
    let mut m = owned("Base clone not found at ");
    m.append(cfg.base_path.as_str());
    m.append(" on ");
    m.append(cfg.host.as_str());
    m.append(".\nSet it up with: ssh ");
    m.append(cfg.host.as_str());
    m.append(" 'git clone <your-repo-url> ");
    m.append(cfg.base_path.as_str());
    m.append("'");
    m
}

/// What the base-clone check means: a failed remote command is a missing
/// clone; other failures (connectivity) pass through.
pub fn base_check_outcome(check: Result<String, SkulkError>, cfg: &Config) -> (r: Result<(), SkulkError>)
    ensures
        match check {
            Ok(_) => r is Ok,
            Err(e) => if e@ is SshFailed {
                r matches Err(f) && f@ == ErrorView::Validation(missing_clone_message(*cfg))
            } else {
                r == Err::<(), SkulkError>(e)
            },
        },
{
    match check {
        Ok(_) => Ok(()),
        Err(SkulkError::SshFailed(_)) => Err(SkulkError::Validation(missing_clone_error_message(cfg))),
        Err(e) => Err(e),
    }
}

/// The warning printed before a forced reset.
pub fn force_warning(cfg: &Config) -> (r: String)
    ensures
        r@ == "Warning: This will discard any local changes on "@ + cfg.host@ + "."@,
{
    let mut m = owned("Warning: This will discard any local changes on ");
    m.append(cfg.host.as_str());
    m.append(".");
    m
}

/// The SSH command that discards local changes and resets to `origin/main`.
pub fn force_reset_command(cfg: &Config) -> (r: String)
    ensures
        r@ == "cd "@ + cfg.base_path@ + " && git fetch origin && git reset --hard origin/main"@,
{
    let mut s = owned("cd ");
    s.append(cfg.base_path.as_str());
    s.append(" && git fetch origin && git reset --hard origin/main");
    s
}

/// The SSH command that fast-forwards to `origin/main`.
pub fn ff_pull_command(cfg: &Config) -> (r: String)
    ensures
        r@ == "cd "@ + cfg.base_path@ + " && git pull --ff-only origin main"@,
{
    let mut s = owned("cd ");
    s.append(cfg.base_path.as_str());
    s.append(" && git pull --ff-only origin main");
    s
}

/// The error a failed fast-forward pull becomes, from git's stderr (case
/// ignored): a diverged remote, uncommitted changes, a missing `main`, or
/// the stderr itself.
pub open spec fn pull_failure_spec(stderr: Seq<char>, cfg: Config) -> ErrorView {
    let lower = lowercase(stderr);
    if contains(lower, "not possible to fast-forward"@) || contains(lower, "non-fast-forward"@) {
        ErrorView::Validation(
            "Cannot fast-forward. Remote has diverged.\n  Run `skulk pull --force` to discard local changes and reset to origin/main."@,
        )
    } else if contains(lower, "please commit your changes or stash them"@) {
        ErrorView::Validation(
            "Working tree has uncommitted changes on "@ + cfg.host@ + ".\n  Commit or stash changes on "@
                + cfg.host@ + ", then retry."@,
        )
    } else if contains(lower, "couldn't find remote ref"@) || contains(lower, "fatal: invalid refspec"@) {
        ErrorView::Validation(
            "Cannot find 'main' branch on origin.\n  Check remote configuration: ssh "@ + cfg.host@ + " 'cd "@
                + cfg.base_path@ + " && git remote -v'"@,
        )
    } else {
        ErrorView::SshFailed(stderr)
    }
}

/// What a fast-forward pull's result means: its output on success, a
/// classified error for a failed git command, other failures unchanged.
pub fn pull_outcome(result: Result<String, SkulkError>, cfg: &Config) -> (r: Result<String, SkulkError>)
    ensures
        match result {
            Ok(o) => r matches Ok(x) && x@ == o@,
            Err(e) => match e@ {
                ErrorView::SshFailed(stderr) => r matches Err(f) && f@ == pull_failure_spec(stderr, *cfg),
                _ => r == Err::<String, SkulkError>(e),
            },
        },
{
    match result {
        Ok(o) => Ok(o),
        Err(SkulkError::SshFailed(stderr)) => {
            let lower = to_lowercase(stderr.as_str());
            let l = lower.as_str();
            if contains_str(l, "not possible to fast-forward") || contains_str(l, "non-fast-forward") {
                Err(SkulkError::Validation(owned(
                    "Cannot fast-forward. Remote has diverged.\n  Run `skulk pull --force` to discard local changes and reset to origin/main.",
                )))
            } else if contains_str(l, "please commit your changes or stash them") {
                let mut m = owned("Working tree has uncommitted changes on ");
                m.append(cfg.host.as_str());
                m.append(".\n  Commit or stash changes on ");
                m.append(cfg.host.as_str());
                m.append(", then retry.");
                Err(SkulkError::Validation(m))
            } else if contains_str(l, "couldn't find remote ref") || contains_str(l, "fatal: invalid refspec") {
                let mut m = owned("Cannot find 'main' branch on origin.\n  Check remote configuration: ssh ");
                m.append(cfg.host.as_str());
                m.append(" 'cd ");
                m.append(cfg.base_path.as_str());
                m.append(" && git remote -v'");
                Err(SkulkError::Validation(m))
            } else {
                Err(SkulkError::SshFailed(stderr))
            }
        },
        Err(e) => Err(e),
    }
}


/// Where a pull stands.
pub enum PullStage {
    /// Nothing done yet.
    Start,
    /// Waiting for the base-clone check.
    Checking,
    /// The warning is out; the forced reset comes next.
    Warned,
    /// Waiting for the forced reset.
    Resetting,
    /// Waiting for the fast-forward pull.
    Pulling,
    /// git's output is out.
    Closing,
    /// The command is over.
    Finished,
}

/// A pull of the base clone, driven step by step.
pub struct PullRun {
    /// Discard local changes and reset to `origin/main`.
    pub force: bool,
    pub stage: PullStage,
}

/// The event a stage waits for.
pub open spec fn pull_expects(st: PullStage, ev: Event) -> bool {
    match st {
        PullStage::Start => ev is Begin,
        PullStage::Checking | PullStage::Resetting | PullStage::Pulling => ev is Output,
        PullStage::Warned | PullStage::Closing => ev is Shown,
        PullStage::Finished => false,
    }
}

impl PullRun {
    /// A pull not yet begun.
    pub fn new(force: bool) -> (r: Self)
        ensures
            r.force == force,
            r.stage is Start,
    {
        PullRun { force, stage: PullStage::Start }
    }

    /// Take the next step: given what happened, say what to do. The base
    /// clone must exist; a forced pull warns, then fetches and resets hard
    /// to `origin/main`; otherwise only a fast-forward is attempted and a
    /// refusal is explained; git's output is printed.
    pub fn step(&mut self, cfg: &Config, ev: Event) -> (a: Action)
        requires
            pull_expects(old(self).stage, ev),
        ensures
            final(self).force == old(self).force,
            ({
                let st = final(self).stage;
                match old(self).stage {
                    PullStage::Start => st is Checking && (a matches Action::Run(c) && c@ == "test -d "@ + cfg.base_path@
                        + "/.git && echo exists"@),
                    PullStage::Checking => match ev {
                        Event::Output(Err(e)) => st is Finished && (a matches Action::Done(Err(f)) && if e@ is SshFailed {
                            f@ == ErrorView::Validation(missing_clone_message(*cfg))
                        } else {
                            f == e
                        }),
                        Event::Output(Ok(_)) => if old(self).force {
                            st is Warned && (a matches Action::Note(t) && t@
                                == "Warning: This will discard any local changes on "@ + cfg.host@ + "."@ + "\n"@)
                        } else {
                            st is Pulling && (a matches Action::Run(c) && c@ == "cd "@ + cfg.base_path@
                                + " && git pull --ff-only origin main"@)
                        },
                        _ => false,
                    },
                    PullStage::Warned => st is Resetting && (a matches Action::Run(c) && c@ == "cd "@ + cfg.base_path@
                        + " && git fetch origin && git reset --hard origin/main"@),
                    PullStage::Resetting => match ev {
                        Event::Output(Err(e)) => st is Finished && a == Action::Done(Err(e)),
                        Event::Output(Ok(o)) => st is Closing && (a matches Action::Print(t) && t@ == o@ + "\n"@),
                        _ => false,
                    },
                    PullStage::Pulling => match ev {
                        Event::Output(Ok(o)) => st is Closing && (a matches Action::Print(t) && t@ == o@ + "\n"@),
                        Event::Output(Err(e)) => st is Finished && (a matches Action::Done(Err(f)) && match e@ {
                            ErrorView::SshFailed(stderr) => f@ == pull_failure_spec(stderr, *cfg),
                            _ => f == e,
                        }),
                        _ => false,
                    },
                    PullStage::Closing => st is Finished && (a matches Action::Done(Ok(()))),
                    PullStage::Finished => false,
                }
            }),
    {
        let mut stage = PullStage::Finished;
        core::mem::swap(&mut stage, &mut self.stage);
        match stage {
            PullStage::Start => {
                self.stage = PullStage::Checking;
                Action::Run(base_check_command(cfg))
            },
            PullStage::Checking => match ev {
                Event::Output(r) => match base_check_outcome(r, cfg) {
                    Err(e) => Action::Done(Err(e)),
                    Ok(()) => {
                        if self.force {
                            let mut t = force_warning(cfg);
                            t.append("\n");
                            self.stage = PullStage::Warned;
                            Action::Note(t)
                        } else {
                            self.stage = PullStage::Pulling;
                            Action::Run(ff_pull_command(cfg))
                        }
                    },
                },
                _ => Action::Done(Ok(())),
            },
            PullStage::Warned => {
                self.stage = PullStage::Resetting;
                Action::Run(force_reset_command(cfg))
            },
            PullStage::Resetting => match ev {
                Event::Output(Err(e)) => Action::Done(Err(e)),
                Event::Output(Ok(mut o)) => {
                    o.append("\n");
                    self.stage = PullStage::Closing;
                    Action::Print(o)
                },
                _ => Action::Done(Ok(())),
            },
            PullStage::Pulling => match ev {
                Event::Output(r) => match pull_outcome(r, cfg) {
                    Err(e) => Action::Done(Err(e)),
                    Ok(mut o) => {
                        o.append("\n");
                        self.stage = PullStage::Closing;
                        Action::Print(o)
                    },
                },
                _ => Action::Done(Ok(())),
            },
            PullStage::Closing => Action::Done(Ok(())),
            PullStage::Finished => Action::Done(Ok(())),
        }
    }
}

} // verus!
