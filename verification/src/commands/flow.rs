//! The protocol between a subcommand's decisions and the code that talks
//! to the outside: each step of a command takes what happened (an event)
//! and answers what to do next (an action).

use vstd::prelude::*;
use crate::error::SkulkError;
use crate::text::{owned, views};

verus! {

/// What a command asks the caller to do next.
#[derive(Debug)]
pub enum Action {
    /// Run this command on the remote host; answer with `Event::Output`.
    Run(String),
    /// Write this text to standard output as it is; answer with `Event::Shown`.
    Print(String),
    /// Write this text to standard error as it is; answer with `Event::Shown`.
    Note(String),
    /// Ask the user this yes/no question; answer with `Event::Answer`.
    Confirm(String),
    /// Show this prompt and read one line; answer with `Event::Input`.
    Prompt(String),
    /// Ask this yes/no question, where an empty answer means the flag;
    /// answer with `Event::Reply`.
    Ask(String, bool),
    /// Check that this host answers over SSH; answer with `Event::Output`.
    Probe(String),
    /// Read a monotonic clock; answer with `Event::Millis`.
    Now,
    /// Pause for this many milliseconds; answer with `Event::Shown`.
    Sleep(u64),
    /// Run this command on the remote host with the terminal attached;
    /// answer with `Event::Exited`.
    Attach(String),
    /// The command is over, with this result.
    Done(Result<(), SkulkError>),
}

/// What happened since the last action.
#[derive(Debug)]
pub enum Event {
    /// The command was just invoked.
    Begin,
    /// The remote command's output, or why it failed.
    Output(Result<String, SkulkError>),
    /// The text was written.
    Shown,
    /// The user's yes/no answer.
    Answer(bool),
    /// The line the user typed, trimmed, or why it could not be read.
    Input(Result<String, SkulkError>),
    /// The user's yes/no reply, or why it could not be read.
    Reply(Result<bool, SkulkError>),
    /// A reading of the monotonic clock, in milliseconds.
    Millis(u64),
    /// Whether the attached command exited successfully, or why it could
    /// not be run.
    Exited(Result<bool, SkulkError>),
}

} // verus!

verus! {

/// One unit of cleanup work: a line announcing it, the remote commands it
/// runs (all of them, in order), which of those count when judging it, and
/// the closing text for success or failure.
#[derive(Debug)]
pub struct Job {
    pub announce: String,
    pub commands: Vec<String>,
    pub checked: Vec<bool>,
    pub ok_text: String,
    pub fail_text: String,
}

/// A job is well-formed when each command says whether it counts.
pub open spec fn job_wf(j: &Job) -> bool {
    j.commands@.len() == j.checked@.len()
}

/// What a job holds, as plain values.
pub struct JobView {
    pub announce: Seq<char>,
    pub commands: Seq<Seq<char>>,
    pub checked: Seq<bool>,
    pub ok_text: Seq<char>,
    pub fail_text: Seq<char>,
}

impl View for Job {
    type V = JobView;

    open spec fn view(&self) -> JobView {
        JobView {
            announce: self.announce@,
            commands: views(self.commands@),
            checked: self.checked@,
            ok_text: self.ok_text@,
            fail_text: self.fail_text@,
        }
    }
}

/// The views of a list of jobs.
pub open spec fn job_views(js: Seq<Job>) -> Seq<JobView> {
    js.map_values(|j: Job| j@)
}

/// Every job of the list is well-formed.
pub open spec fn jobs_wf(js: Seq<Job>) -> bool {
    forall|i: int| 0 <= i < js.len() ==> job_wf(#[trigger] &js[i])
}

/// A job of one counted command, closed with `ok` or `fail`.
pub open spec fn single_job(announce: Seq<char>, cmd: Seq<char>, ok: Seq<char>, fail: Seq<char>) -> JobView {
    JobView { announce, commands: seq![cmd], checked: seq![true], ok_text: ok, fail_text: fail }
}

/// Build a job of one counted command.
pub fn one_command_job(announce: String, cmd: String, ok: &str, fail: &str) -> (j: Job)
    ensures
        job_wf(&j),
        j@ == single_job(announce@, cmd@, ok@, fail@),
{
    let ghost c = cmd@;
    let mut commands: Vec<String> = Vec::new();
    commands.push(cmd);
    let mut checked: Vec<bool> = Vec::new();
    checked.push(true);
    let j = Job { announce, commands, checked, ok_text: owned(ok), fail_text: owned(fail) };
    assert(views(j.commands@) =~= seq![c]);
    assert(j.checked@ =~= seq![true]);
    j
}

/// Where a batch stands inside its current job.
#[derive(Debug, Clone, Copy, PartialEq, Eq, Structural)]
pub enum BatchPhase {
    /// About to announce the current job.
    Announce,
    /// The announcement is out.
    Announced,
    /// Waiting for the output of command `step` of the current job.
    Running,
    /// The closing text is out.
    Closed,
}

/// A list of jobs run one after the other, each announced, its commands
/// run, and closed with its success or failure text.
pub struct Batch {
    pub jobs: Vec<Job>,
    /// Texts go to standard output rather than standard error.
    pub to_stdout: bool,
    pub job: usize,
    pub step: usize,
    pub failed: bool,
    pub phase: BatchPhase,
    /// How many jobs closed with their failure text.
    pub failures: usize,
}

/// The batch is consistent: jobs well-formed, position in range.
pub open spec fn batch_wf(b: &Batch) -> bool {
    &&& forall|i: int| 0 <= i < b.jobs@.len() ==> job_wf(#[trigger] &b.jobs@[i])
    &&& b.job <= b.jobs@.len()
    &&& b.failures <= b.job + (if b.phase == BatchPhase::Closed { 1int } else { 0int })
    &&& (b.job < b.jobs@.len() ==> b.step <= b.jobs@[b.job as int].commands@.len())
    &&& (b.phase == BatchPhase::Running ==> b.job < b.jobs@.len() && b.step < b.jobs@[b.job as int].commands@.len())
    &&& (b.phase == BatchPhase::Announced ==> b.job < b.jobs@.len())
    &&& (b.phase == BatchPhase::Closed ==> b.job < b.jobs@.len())
}

/// A text action on the batch's channel.
pub open spec fn says(b: &Batch, a: Action, t: Seq<char>) -> bool {
    if b.to_stdout {
        a matches Action::Print(x) && x@ == t
    } else {
        a matches Action::Note(x) && x@ == t
    }
}

/// A text action on the chosen channel.
fn say(to_stdout: bool, t: String) -> (a: Action)
    ensures
        to_stdout ==> a == Action::Print(t),
        !to_stdout ==> a == Action::Note(t),
{
    if to_stdout {
        Action::Print(t)
    } else {
        Action::Note(t)
    }
}

/// One step of a batch: from `b`, on `ev`, to `b2`, answering `a`. The
/// jobs and channel stay; a job is announced, its commands run in order
/// (a failed counted command marks the job failed), and it closes with its
/// failure or success text; there is no action once every job is closed.
pub open spec fn batch_next(b: Batch, ev: Event, b2: Batch, a: Option<Action>) -> bool {
    let j = b.jobs@[b.job as int];
    let failed_now = match ev {
        Event::Output(Err(_)) => j.checked@[b.step as int],
        _ => false,
    };
    let failed = if b.phase == BatchPhase::Announced { false } else { b.failed || failed_now };
    let next: int = if b.phase == BatchPhase::Announced { 0 } else { b.step + 1 };
    &&& batch_wf(&b2)
    &&& b2.jobs == b.jobs
    &&& b2.to_stdout == b.to_stdout
    &&& b2.job >= b.job
    &&& (a is None <==> ((b.phase == BatchPhase::Announce && b.over()) || (b.phase == BatchPhase::Closed
        && b.job + 1 >= b.jobs@.len())))
    &&& (a is None ==> b2.phase == BatchPhase::Announce)
    &&& (b.phase == BatchPhase::Announce && !b.over() ==> b2.job == b.job && b2.phase == BatchPhase::Announced
        && (a matches Some(x) && says(&b, x, j.announce@)))
    &&& ((b.phase == BatchPhase::Announced || b.phase == BatchPhase::Running) ==> {
        &&& b2.job == b.job
        &&& (next < j.commands@.len() ==> b2.phase == BatchPhase::Running && b2.step == next && b2.failed
            == failed && (a matches Some(x) && x is Run && x->Run_0@ == j.commands@[next]@))
        &&& (next >= j.commands@.len() ==> b2.phase == BatchPhase::Closed && b2.failures == b.failures + (
        if failed {
            1int
        } else {
            0int
        }) && (a matches Some(x) && says(&b, x, if failed { j.fail_text@ } else { j.ok_text@ })))
    })
    &&& (b.phase == BatchPhase::Closed ==> b2.job == b.job + 1 && b2.failures == b.failures && (b2.job
        < b.jobs@.len() ==> b2.phase == BatchPhase::Announced && (a matches Some(x) && says(
        &b,
        x,
        b.jobs@[b2.job as int].announce@,
    ))))
}

impl Batch {
    /// A batch about to start its first job.
    pub fn new(jobs: Vec<Job>, to_stdout: bool) -> (r: Self)
        requires
            forall|i: int| 0 <= i < jobs@.len() ==> job_wf(#[trigger] &jobs@[i]),
        ensures
            batch_wf(&r),
            r.jobs == jobs,
            r.to_stdout == to_stdout,
            r.job == 0,
            r.phase == BatchPhase::Announce,
            r.failures == 0,
    {
        Batch { jobs, to_stdout, job: 0, step: 0, failed: false, phase: BatchPhase::Announce, failures: 0 }
    }

    /// The batch has no work left.
    pub open spec fn over(&self) -> bool {
        self.job >= self.jobs@.len()
    }

    /// The event the batch waits for.
    pub open spec fn expects(&self, ev: Event) -> bool {
        match self.phase {
            BatchPhase::Announce => true,
            BatchPhase::Announced | BatchPhase::Closed => ev is Shown,
            BatchPhase::Running => ev is Output,
        }
    }

    /// The next action of the batch, or none when all jobs are done. A job
    /// is announced, runs its commands in order (a failure of a counted
    /// command marks it failed but the rest still run), then closes with
    /// its failure text if it failed, else its success text.
    pub fn step(&mut self, ev: Event) -> (a: Option<Action>)
        requires
            batch_wf(old(self)),
            old(self).expects(ev),
        ensures
            batch_next(*old(self), ev, *final(self), a),
    {
        match self.phase {
            BatchPhase::Announce => {
                if self.job >= self.jobs.len() {
                    return None;
                }
                let t = self.jobs[self.job].announce.clone();
                self.phase = BatchPhase::Announced;
                Some(say(self.to_stdout, t))
            },
            BatchPhase::Announced | BatchPhase::Running => {
                let total = self.jobs.len();
                assert(self.job < total);
                let n = self.jobs[self.job].commands.len();
                let (failed, next) = if self.phase == BatchPhase::Announced {
                    (false, 0)
                } else {
                    let failed_now = match ev {
                        Event::Output(Err(_)) => self.jobs[self.job].checked[self.step],
                        _ => false,
                    };
                    (self.failed || failed_now, self.step + 1)
                };
                if next < n {
                    let c = self.jobs[self.job].commands[next].clone();
                    self.step = next;
                    self.failed = failed;
                    self.phase = BatchPhase::Running;
                    Some(Action::Run(c))
                } else {
                    let t = if failed {
                        self.jobs[self.job].fail_text.clone()
                    } else {
                        self.jobs[self.job].ok_text.clone()
                    };
                    if failed {
                        self.failures = self.failures + 1;
                    }
                    self.step = next;
                    self.failed = failed;
                    self.phase = BatchPhase::Closed;
                    Some(say(self.to_stdout, t))
                }
            },
            BatchPhase::Closed => {
                let total = self.jobs.len();
                assert(self.job < total);
                self.job = self.job + 1;
                self.step = 0;
                self.failed = false;
                if self.job >= self.jobs.len() {
                    self.phase = BatchPhase::Announce;
                    return None;
                }
                let t = self.jobs[self.job].announce.clone();
                self.phase = BatchPhase::Announced;
                Some(say(self.to_stdout, t))
            },
        }
    }
}

} // verus!
