//! `skulk ship`: push an agent's branch and open a pull request whose
//! description the harness writes from the diff.

use vstd::prelude::*;
use crate::agent_ref::AgentRef;
use crate::commands::flow::{Action, Event};
use crate::commands::interact::push_command;
use crate::commands::wait::wait_error;
use crate::config::Config;
use crate::error::{classify_agent_error, ErrorView, SkulkError};
use crate::text::{contains, ends_with, lemma_contains_within, matches_at, owned};
use crate::util::{plain_name_spec, validate_plain_name};

verus! {

/// The instruction handed to the harness to write the PR description from
/// the diff on its stdin: title on line 1, a blank line, then the body. It
/// holds no single quote, as it travels inside single quotes.
pub const DESCRIPTION_PROMPT: &'static str = "Read the git diff on stdin and write a GitHub pull request description. The first line is the PR title (concise, imperative, no trailing period, max 70 chars). Then a blank line. Then a Markdown body explaining what changed and why. Output ONLY the title and body, no preamble, no commentary, no code fences.";

/// `command -v gh > /dev/null 2>&1 && command -v <harness> > /dev/null 2>&1`.
pub open spec fn precheck_spec(harness: Seq<char>) -> Seq<char> {
    "command -v gh > /dev/null 2>&1 && command -v "@ + harness + " > /dev/null 2>&1"@
}

/// The SSH command that checks `gh` and the harness are both installed; a
/// non-zero exit means one is missing.
pub fn precheck_command(cfg: &Config) -> (r: String)
    ensures
        r@ == precheck_spec(cfg.harness@),
{
    let mut s = owned("command -v gh > /dev/null 2>&1 && command -v ");
    s.append(cfg.harness.as_str());
    s.append(" > /dev/null 2>&1");
    s
}

/// What the precheck means: a failed remote command is a missing tool,
/// diagnosed with where to get both; other failures pass through.
pub fn precheck_outcome(check: Result<String, SkulkError>, cfg: &Config) -> (r: Result<(), SkulkError>)
    ensures
        match check {
            Ok(_) => r is Ok,
            Err(e) => if e@ is SshFailed {
                r matches Err(f) && f@ == (ErrorView::Diagnostic {
                    message: "`gh` and/or `"@ + cfg.harness@ + "` not installed on "@ + cfg.host@ + "."@,
                    suggestion: "Install both on "@ + cfg.host@ + ": GitHub CLI (https://cli.github.com) and "@
                        + cfg.harness@ + "."@,
                })
            } else {
                r == Err::<(), SkulkError>(e)
            },
        },
{
    match check {
        Ok(_) => Ok(()),
        Err(SkulkError::SshFailed(_)) => {
            let mut m = owned("`gh` and/or `");
            m.append(cfg.harness.as_str());
            m.append("` not installed on ");
            m.append(cfg.host.as_str());
            m.append(".");
            let mut s = owned("Install both on ");
            s.append(cfg.host.as_str());
            s.append(": GitHub CLI (https://cli.github.com) and ");
            s.append(cfg.harness.as_str());
            s.append(".");
            Err(SkulkError::Diagnostic { message: m, suggestion: s })
        },
        Err(e) => Err(e),
    }
}

/// The one-round-trip script that writes the description and opens the PR:
/// fail fast (`set -e`, `pipefail`), work in a temp dir removed on exit,
/// pipe the diff into the harness, split title (line 1) from body (line 3
/// on), refuse an empty title or body or a code-fenced title, then
/// `gh pr create`.
pub open spec fn ship_spec(base_path: Seq<char>, default_branch: Seq<char>, branch: Seq<char>, harness: Seq<char>, prompt: Seq<char>) -> Seq<char> {
    "set -e; set -o pipefail; cd "@ + base_path + "; T=$(mktemp -d); trap 'rm -rf \"$T\"' EXIT; git diff "@
        + default_branch + "..."@ + branch + " | "@ + harness + " -p '"@ + prompt
        + "' > \"$T/desc\"; head -n 1 \"$T/desc\" > \"$T/title\"; tail -n +3 \"$T/desc\" > \"$T/body\"; [ -s \"$T/title\" ] || { echo '"@
        + harness + " returned no title' >&2; exit 1; }; [ -s \"$T/body\" ] || { echo '"@ + harness
        + " returned no body' >&2; exit 1; }; [ \"$(head -c 3 \"$T/title\")\" != '```' ] || { echo '"@
        + harness + " returned a code-fenced title' >&2; exit 1; }; gh pr create --base "@ + default_branch
        + " --head "@ + branch + " --title \"$(cat \"$T/title\")\" --body-file \"$T/body\""@
}

/// The PR's title comes from the file that holds the first line of the
/// description, and it is that same file the script refuses when empty or
/// opening a code fence; the body is read from its own file.
pub proof fn lemma_title_is_first_line(
    base_path: Seq<char>,
    default_branch: Seq<char>,
    branch: Seq<char>,
    harness: Seq<char>,
    prompt: Seq<char>,
)
    ensures
        exists|file: Seq<char>|
            #![auto]
            contains(
                ship_spec(base_path, default_branch, branch, harness, prompt),
                "head -n 1 \"$T/desc\" > \""@ + file + "\";"@,
            ) && contains(ship_spec(base_path, default_branch, branch, harness, prompt), "[ -s \""@ + file + "\" ]"@)
                && contains(
                ship_spec(base_path, default_branch, branch, harness, prompt),
                "[ \"$(head -c 3 \""@ + file + "\")\" != '```' ]"@,
            ) && ends_with(
                ship_spec(base_path, default_branch, branch, harness, prompt),
                " --title \"$(cat \""@ + file + "\")\" --body-file \"$T/body\""@,
            ),
{
    let s = ship_spec(base_path, default_branch, branch, harness, prompt);
    let file = "$T/title"@;
    let l1 = "' > \"$T/desc\"; head -n 1 \"$T/desc\" > \"$T/title\"; tail -n +3 \"$T/desc\" > \"$T/body\"; [ -s \"$T/title\" ] || { echo '"@;
    let l3 = " returned no body' >&2; exit 1; }; [ \"$(head -c 3 \"$T/title\")\" != '```' ] || { echo '"@;
    let l5 = " --title \"$(cat \"$T/title\")\" --body-file \"$T/body\""@;
    reveal_strlit("$T/title");
    reveal_strlit("' > \"$T/desc\"; head -n 1 \"$T/desc\" > \"$T/title\"; tail -n +3 \"$T/desc\" > \"$T/body\"; [ -s \"$T/title\" ] || { echo '");
    reveal_strlit(" returned no body' >&2; exit 1; }; [ \"$(head -c 3 \"$T/title\")\" != '```' ] || { echo '");
    reveal_strlit(" --title \"$(cat \"$T/title\")\" --body-file \"$T/body\"");
    reveal_strlit("head -n 1 \"$T/desc\" > \"");
    reveal_strlit("\";");
    reveal_strlit("[ -s \"");
    reveal_strlit("\" ]");
    reveal_strlit("[ \"$(head -c 3 \"");
    reveal_strlit("\")\" != '```' ]");
    reveal_strlit(" --title \"$(cat \"");
    reveal_strlit("\")\" --body-file \"$T/body\"");
    let p1 = "head -n 1 \"$T/desc\" > \""@ + file + "\";"@;
    let p2 = "[ -s \""@ + file + "\" ]"@;
    let p3 = "[ \"$(head -c 3 \""@ + file + "\")\" != '```' ]"@;
    let p5 = " --title \"$(cat \""@ + file + "\")\" --body-file \"$T/body\""@;
    assert(l1.subrange(15, 15 + p1.len() as int) =~= p1);
    assert(matches_at(l1, p1, 15));
    assert(l1.subrange(83, 83 + p2.len() as int) =~= p2);
    assert(matches_at(l1, p2, 83));
    assert(l3.subrange(35, 35 + p3.len() as int) =~= p3);
    assert(matches_at(l3, p3, 35));
    assert(p5 =~= l5);
    let x1 = "set -e; set -o pipefail; cd "@ + base_path + "; T=$(mktemp -d); trap 'rm -rf \"$T\"' EXIT; git diff "@
        + default_branch + "..."@ + branch + " | "@ + harness + " -p '"@ + prompt;
    let y1 = harness + " returned no title' >&2; exit 1; }; [ -s \"$T/body\" ] || { echo '"@ + harness + l3 + harness
        + " returned a code-fenced title' >&2; exit 1; }; gh pr create --base "@ + default_branch + " --head "@ + branch + l5;
    assert(s =~= x1 + l1 + y1);
    lemma_contains_within(x1, l1, y1, p1);
    lemma_contains_within(x1, l1, y1, p2);
    let x3 = x1 + l1 + harness + " returned no title' >&2; exit 1; }; [ -s \"$T/body\" ] || { echo '"@ + harness;
    let y3 = harness + " returned a code-fenced title' >&2; exit 1; }; gh pr create --base "@ + default_branch + " --head "@
        + branch + l5;
    assert(s =~= x3 + l3 + y3);
    lemma_contains_within(x3, l3, y3, p3);
    assert(s.skip(s.len() - l5.len()) =~= l5);
    assert(ends_with(s, p5));
}

/// The SSH command that generates the description and opens the PR.
pub fn ship_command(name: &str, cfg: &Config) -> (r: String)
    ensures
        r@ == ship_spec(
            cfg.base_path@,
            cfg.default_branch@,
            cfg.session_prefix@ + name@,
            cfg.harness@,
            DESCRIPTION_PROMPT@,
        ),
{
    let branch = AgentRef::new(name, cfg).branch_name();
    let h = cfg.harness.as_str();
    let mut s = owned("set -e; set -o pipefail; cd ");
    s.append(cfg.base_path.as_str());
    s.append("; T=$(mktemp -d); trap 'rm -rf \"$T\"' EXIT; git diff ");
    s.append(cfg.default_branch.as_str());
    s.append("...");
    s.append(branch.as_str());
    s.append(" | ");
    s.append(h);
    s.append(" -p '");
    s.append(DESCRIPTION_PROMPT);
    s.append(
        "' > \"$T/desc\"; head -n 1 \"$T/desc\" > \"$T/title\"; tail -n +3 \"$T/desc\" > \"$T/body\"; [ -s \"$T/title\" ] || { echo '",
    );
    s.append(h);
    s.append(" returned no title' >&2; exit 1; }; [ -s \"$T/body\" ] || { echo '");
    s.append(h);
    s.append(" returned no body' >&2; exit 1; }; [ \"$(head -c 3 \"$T/title\")\" != '```' ] || { echo '");
    s.append(h);
    s.append(" returned a code-fenced title' >&2; exit 1; }; gh pr create --base ");
    s.append(cfg.default_branch.as_str());
    s.append(" --head ");
    s.append(branch.as_str());
    s.append(" --title \"$(cat \"$T/title\")\" --body-file \"$T/body\"");
    s
}

/// The line printed once the PR is open.
pub fn shipped_message(name: &str, cfg: &Config) -> (r: String)
    ensures
        r@ == "Opened PR for "@ + cfg.session_prefix@ + name@ + "."@,
{
    let mut s = owned("Opened PR for ");
    s.append(AgentRef::new(name, cfg).branch_name().as_str());
    s.append(".");
    s
}


/// Where a ship stands.
pub enum ShipStage {
    Start,
    /// Waiting for the tool check.
    Checking,
    /// Waiting for the push.
    Pushing,
    /// Waiting for the PR to be opened.
    Opening,
    /// The PR's address is out.
    Printed,
    /// The closing line is out.
    Closing,
    Finished,
}

/// Shipping an agent's branch as a pull request, driven step by step.
pub struct Ship {
    pub name: String,
    pub stage: ShipStage,
}

/// The event a stage waits for.
pub open spec fn ship_expects(st: ShipStage, ev: Event) -> bool {
    match st {
        ShipStage::Start => ev is Begin,
        ShipStage::Checking | ShipStage::Pushing | ShipStage::Opening => ev is Output,
        ShipStage::Printed | ShipStage::Closing => ev is Shown,
        ShipStage::Finished => false,
    }
}

/// The closing line of a ship.
pub open spec fn shipped_line(name: Seq<char>, cfg: Config) -> Seq<char> {
    "Opened PR for "@ + cfg.session_prefix@ + name + "."@ + "\n"@
}

impl Ship {
    /// A ship not yet begun.
    pub fn new(name: String) -> (r: Self)
        ensures
            r.name == name,
            r.stage is Start,
    {
        Ship { name, stage: ShipStage::Start }
    }

    fn closing(name: &str, cfg: &Config) -> (r: Action)
        ensures
            r matches Action::Note(t) && t@ == shipped_line(name@, *cfg),
    {
        let mut t = shipped_message(name, cfg);
        t.append("\n");
        Action::Note(t)
    }

    /// Take the next step: given what happened, say what to do. The name is
    /// checked; `gh` and the harness must be installed on the host; the
    /// branch is pushed, then the PR opened with a description the harness
    /// writes; git's and gh's failures name the agent; the PR's output, when
    /// there is any, is printed before the closing line.
    pub fn step(&mut self, cfg: &Config, ev: Event) -> (a: Action)
        requires
            ship_expects(old(self).stage, ev),
        ensures
            final(self).name == old(self).name,
            ({
                let name = old(self).name@;
                let st = final(self).stage;
                match old(self).stage {
                    ShipStage::Start => match plain_name_spec(name) {
                        Err(m) => st is Finished && (a matches Action::Done(Err(e)) && e@ == ErrorView::Validation(m)),
                        Ok(()) => st is Checking && (a matches Action::Run(c) && c@ == precheck_spec(cfg.harness@)),
                    },
                    ShipStage::Checking => match ev {
                        Event::Output(Ok(_)) => st is Pushing && (a matches Action::Run(c) && c@ == "cd "@ + cfg.base_path@
                            + " && git push -u origin "@ + cfg.session_prefix@ + name),
                        Event::Output(Err(e)) => st is Finished && (a matches Action::Done(Err(f)) && if e@ is SshFailed {
                            f@ == (ErrorView::Diagnostic {
                                message: "`gh` and/or `"@ + cfg.harness@ + "` not installed on "@ + cfg.host@ + "."@,
                                suggestion: "Install both on "@ + cfg.host@ + ": GitHub CLI (https://cli.github.com) and "@
                                    + cfg.harness@ + "."@,
                            })
                        } else {
                            f == e
                        }),
                        _ => false,
                    },
                    ShipStage::Pushing => match ev {
                        Event::Output(Ok(_)) => st is Opening && (a matches Action::Run(c) && c@ == ship_spec(
                            cfg.base_path@,
                            cfg.default_branch@,
                            cfg.session_prefix@ + name,
                            cfg.harness@,
                            DESCRIPTION_PROMPT@,
                        )),
                        Event::Output(Err(e)) => st is Finished && (a matches Action::Done(Err(f)) && f@ == wait_error(
                            name,
                            e@,
                            *cfg,
                        )),
                        _ => false,
                    },
                    ShipStage::Opening => match ev {
                        Event::Output(Ok(o)) => if o@.len() == 0 {
                            st is Closing && (a matches Action::Note(t) && t@ == shipped_line(name, *cfg))
                        } else {
                            st is Printed && (a matches Action::Print(t) && t@ == o@ + "\n"@)
                        },
                        Event::Output(Err(e)) => st is Finished && (a matches Action::Done(Err(f)) && f@ == wait_error(
                            name,
                            e@,
                            *cfg,
                        )),
                        _ => false,
                    },
                    ShipStage::Printed => st is Closing && (a matches Action::Note(t) && t@ == shipped_line(name, *cfg)),
                    ShipStage::Closing => st is Finished && (a matches Action::Done(Ok(()))),
                    ShipStage::Finished => false,
                }
            }),
    {
        let mut stage = ShipStage::Finished;
        core::mem::swap(&mut stage, &mut self.stage);
        let name = self.name.as_str();
        match stage {
            ShipStage::Start => match validate_plain_name(name) {
                Err(e) => Action::Done(Err(e)),
                Ok(()) => {
                    self.stage = ShipStage::Checking;
                    Action::Run(precheck_command(cfg))
                },
            },
            ShipStage::Checking => match ev {
                Event::Output(r) => match precheck_outcome(r, cfg) {
                    Err(e) => Action::Done(Err(e)),
                    Ok(()) => {
                        self.stage = ShipStage::Pushing;
                        Action::Run(push_command(name, cfg))
                    },
                },
                _ => Action::Done(Ok(())),
            },
            ShipStage::Pushing => match ev {
                Event::Output(Err(e)) => Action::Done(Err(classify_agent_error(name, e, cfg.host.as_str()))),
                Event::Output(Ok(_)) => {
                    self.stage = ShipStage::Opening;
                    Action::Run(ship_command(name, cfg))
                },
                _ => Action::Done(Ok(())),
            },
            ShipStage::Opening => match ev {
                Event::Output(Err(e)) => Action::Done(Err(classify_agent_error(name, e, cfg.host.as_str()))),
                Event::Output(Ok(mut o)) => {
                    if o.as_str().is_empty() {
                        self.stage = ShipStage::Closing;
                        Self::closing(name, cfg)
                    } else {
                        o.append("\n");
                        self.stage = ShipStage::Printed;
                        Action::Print(o)
                    }
                },
                _ => Action::Done(Ok(())),
            },
            ShipStage::Printed => {
                self.stage = ShipStage::Closing;
                Self::closing(name, cfg)
            },
            ShipStage::Closing => Action::Done(Ok(())),
            ShipStage::Finished => Action::Done(Ok(())),
        }
    }
}

} // verus!
