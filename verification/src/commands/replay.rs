//! `skulk replay`: start a fresh agent on the prompt an earlier agent was
//! given.

use vstd::prelude::*;
use crate::agent_ref::AgentRef;
use crate::commands::destroy::{destroy_all_names, names_of};
use crate::commands::flow::{Action, Event};
use crate::commands::new::{new_agent_next, new_expects, NewAgent};
use crate::config::Config;
use crate::error::{ErrorView, SkulkError};
use crate::inventory::{inventory_command, inventory_command_spec, parse_inventory, parsed_inventory, AgentInventory};
use crate::text::{
    all_digits, is_last_index, last_index, nat_dec, owned, parse_u32, parse_u32_spec,
    from_chars_range, to_chars, u64_to_dec, vec_contains, views,
};
use crate::util::{byte_len, validate_name, validate_name_spec};

verus! {

/// `test -f ~/.skulk/prompts/<s>.txt && cat ~/.skulk/prompts/<s>.txt`.
pub open spec fn read_prompt_spec(session: Seq<char>) -> Seq<char> {
    "test -f ~/.skulk/prompts/"@ + session + ".txt && cat ~/.skulk/prompts/"@ + session + ".txt"@
}

/// The SSH command that reads an agent's stored prompt; a missing file
/// fails the command rather than printing nothing.
pub fn agent_read_prompt_command(session_name: &str) -> (r: String)
    ensures
        r@ == read_prompt_spec(session_name@),
{
    let mut s = owned("test -f ~/.skulk/prompts/");
    s.append(session_name);
    s.append(".txt && cat ~/.skulk/prompts/");
    s.append(session_name);
    s.append(".txt");
    s
}

/// The message for an agent with no stored prompt.
pub open spec fn no_prompt_message(name: Seq<char>) -> Seq<char> {
    "No stored prompt for '"@ + name
        + "'.\n  Either it was created without a prompt, or with a version of skulk that didn't persist prompts.\n  Start a fresh agent with `skulk new` and pass --from or --github."@
}

/// `NotFound` for an agent with no stored prompt.
pub fn no_prompt_error(name: &str) -> (r: SkulkError)
    ensures
        r@ == ErrorView::NotFound(no_prompt_message(name@)),
{
    let mut m = owned("No stored prompt for '");
    m.append(name);
    m.append(
        "'.\n  Either it was created without a prompt, or with a version of skulk that didn't persist prompts.\n  Start a fresh agent with `skulk new` and pass --from or --github.",
    );
    SkulkError::NotFound(m)
}

/// What the prompt read means: an empty file or a failed read (the file is
/// missing) is `NotFound`; other failures pass through; else the prompt.
pub fn stored_prompt_outcome(name: &str, read: Result<String, SkulkError>) -> (r: Result<String, SkulkError>)
    ensures
        match read {
            Ok(c) => if c@.len() == 0 {
                r matches Err(e) && e@ == ErrorView::NotFound(no_prompt_message(name@))
            } else {
                r matches Ok(p) && p@ == c@
            },
            Err(e) => if e@ is SshFailed {
                r matches Err(f) && f@ == ErrorView::NotFound(no_prompt_message(name@))
            } else {
                r == Err::<String, SkulkError>(e)
            },
        },
{
    match read {
        Ok(c) => {
            if c.as_str().is_empty() {
                Err(no_prompt_error(name))
            } else {
                Ok(c)
            }
        },
        Err(SkulkError::SshFailed(_)) => Err(no_prompt_error(name)),
        Err(e) => Err(e),
    }
}

/// `name` split at a trailing `-<digits>`: the part before it and the
/// number after it plus one (saturating), or the whole name and 2.
pub open spec fn numeric_suffix_spec(name: Seq<char>) -> (Seq<char>, u32) {
    if name.contains('-') {
        let i = choose|i: int| is_last_index(name, '-', i);
        let tail = name.skip(i + 1);
        if tail.len() > 0 && all_digits(tail) && parse_u32_spec(tail) is Some {
            let n = parse_u32_spec(tail)->0;
            (name.take(i), if n == u32::MAX { u32::MAX } else { (n + 1) as u32 })
        } else {
            (name, 2)
        }
    } else {
        (name, 2)
    }
}

/// A character that occurs has exactly one last index.
proof fn lemma_last_index_unique(s: Seq<char>, c: char, i: int)
    requires
        is_last_index(s, c, i),
    ensures
        s.contains(c),
        (choose|j: int| is_last_index(s, c, j)) == i,
{
    assert(s[i] == c);
    let j = choose|j: int| is_last_index(s, c, j);
    assert(is_last_index(s, c, j));
    if j < i {
        assert(s[i] != c);
    } else if j > i {
        assert(s[j] != c);
    }
}

/// Split a name on a trailing `-<digits>`: `foo-bar-2` gives `("foo-bar", 3)`,
/// `foo-bar` gives `("foo-bar", 2)`.
pub fn split_numeric_suffix(name: &str) -> (r: (String, u32))
    ensures
        (r.0@, r.1) == numeric_suffix_spec(name@),
{
    let v = to_chars(name);
    match last_index(v.as_slice(), '-') {
        Some(idx) => {
            proof {
                lemma_last_index_unique(name@, '-', idx as int);
            }
            assert(idx < v@.len());
            assert(idx < v.len());
            let tail = from_chars_range(v.as_slice(), idx + 1, v.len());
            assert(tail@ =~= name@.skip(idx + 1));
            let tv = to_chars(tail.as_str());
            let mut digits = tv.len() > 0;
            let mut k: usize = 0;
            while k < tv.len()
                invariant
                    k <= tv.len(),
                    digits == (tv@.len() > 0 && forall|j: int| 0 <= j < k ==> crate::text::is_digit(tv@[j])),
                decreases tv.len() - k,
            {
                if !('0' <= tv[k] && tv[k] <= '9') {
                    digits = false;
                }
                k = k + 1;
            }
            if digits {
                match parse_u32(tail.as_str()) {
                    Some(n) => {
                        let head = from_chars_range(v.as_slice(), 0, idx);
                        assert(head@ =~= name@.take(idx as int));
                        return (head, n.saturating_add(1));
                    },
                    None => {},
                }
            }
            (owned(name), 2)
        },
        None => (owned(name), 2),
    }
}

/// The candidate replay name for suffix `n`: `<base>-<n>`.
pub open spec fn candidate(base: Seq<char>, n: int) -> Seq<char> {
    base + "-"@ + nat_dec(n as nat)
}

/// Candidates from `start` up to (not including) `stop` are all taken and
/// short enough.
pub open spec fn all_taken_before(base: Seq<char>, start: int, stop: int, taken: Seq<Seq<char>>) -> bool {
    forall|m: int| start <= m < stop ==> byte_len(#[trigger] candidate(base, m)) <= 30 && taken.contains(candidate(base, m))
}

/// The message when no candidate fits in 30 bytes.
pub open spec fn too_long_message(source: Seq<char>) -> Seq<char> {
    "Cannot derive a replay name under 30 chars from '"@ + source
        + "'. Pick one explicitly with --as <new-name>."@
}

/// `r` is the replay name derived from `source` when `taken` are in use:
/// the first candidate from the start that is not taken, if it fits in 30
/// bytes; else the error for a candidate too long or a counter run out.
pub open spec fn replay_name_result(source: Seq<char>, t: Seq<Seq<char>>, r: Result<String, SkulkError>) -> bool {
    let (base, start) = numeric_suffix_spec(source);
    &&& r matches Ok(c) ==> exists|m: int|
        start <= m <= u32::MAX && c@ == candidate(base, m) && byte_len(c@) <= 30 && !t.contains(c@)
            && all_taken_before(base, start as int, m, t)
    &&& r matches Err(e) ==> (exists|m: int|
        start <= m <= u32::MAX && byte_len(candidate(base, m)) > 30 && all_taken_before(base, start as int, m, t)
            && e@ == ErrorView::Validation(too_long_message(source)))
        || (all_taken_before(base, start as int, u32::MAX + 1, t)
            && e@ == ErrorView::Validation("Replay suffix overflowed u32."@))
}

/// Derive a free replay name from `source_name`: strip a trailing `-<N>` and
/// count up from `N+1` (else from 2), appending `-<n>` to the base, until a
/// candidate is not taken. Fails when the first candidate that is not
/// taken would be over 30 bytes, or the counter runs out.
pub fn derive_replay_name(source_name: &str, taken: &Vec<String>) -> (r: Result<String, SkulkError>)
    ensures
        replay_name_result(source_name@, views(taken@), r),
{
    let (base, start) = split_numeric_suffix(source_name);
    let ghost t = views(taken@);
    let mut n: u32 = start;
    loop
        invariant
            start <= n,
            t == views(taken@),
            (base@, start) == numeric_suffix_spec(source_name@),
            all_taken_before(base@, start as int, n as int, t),
        decreases u32::MAX - n,
    {
        let mut cand = base.clone();
        cand.append("-");
        cand.append(u64_to_dec(n as u64).as_str());
        assert(cand@ == candidate(base@, n as int));
        assert(cand@ == candidate(numeric_suffix_spec(source_name@).0, n as int));
        if cand.as_str().as_bytes().len() > 30 {
            let mut m = owned("Cannot derive a replay name under 30 chars from '");
            m.append(source_name);
            m.append("'. Pick one explicitly with --as <new-name>.");
            return Err(SkulkError::Validation(m));
        }
        if !vec_contains(taken, cand.as_str()) {
            return Ok(cand);
        }
        if n == u32::MAX {
            assert(all_taken_before(base@, start as int, u32::MAX + 1, t)) by {
                assert forall|m: int| start <= m < u32::MAX + 1 implies byte_len(#[trigger] candidate(base@, m)) <= 30 && t.contains(candidate(base@, m)) by {
                    if m < n {
                    } else {
                        assert(m == n);
                    }
                }
            }
            return Err(SkulkError::Validation(owned("Replay suffix overflowed u32.")));
        }
        assert(all_taken_before(base@, start as int, n + 1, t)) by {
            assert forall|m: int| start <= m < n + 1 implies byte_len(#[trigger] candidate(base@, m)) <= 30 && t.contains(candidate(base@, m)) by {
                if m == n {
                }
            }
        }
        n = n + 1;
    }
}

/// The error when an explicitly chosen replay name is taken.
pub fn check_override_free(new_name: &str, taken: &Vec<String>) -> (r: Result<(), SkulkError>)
    ensures
        views(taken@).contains(new_name@) ==> (r matches Err(e) && e@ == ErrorView::Validation(
            "Agent '"@ + new_name@ + "' already exists. Pick a different name or destroy it first."@,
        )),
        !views(taken@).contains(new_name@) ==> r is Ok,
{
    if vec_contains(taken, new_name) {
        let mut m = owned("Agent '");
        m.append(new_name);
        m.append("' already exists. Pick a different name or destroy it first.");
        return Err(SkulkError::Validation(m));
    }
    Ok(())
}

/// The line printed before the replay starts.
pub fn replaying_message(source: &str, new_name: &str) -> (r: String)
    ensures
        r@ == "Replaying prompt from '"@ + source@ + "' as '"@ + new_name@ + "'."@,
{
    let mut m = owned("Replaying prompt from '");
    m.append(source);
    m.append("' as '");
    m.append(new_name);
    m.append("'.");
    m
}


/// Where a replay stands.
pub enum ReplayStage {
    /// Nothing done yet.
    Start,
    /// Waiting for the stored prompt of the source agent.
    ReadingPrompt,
    /// Waiting for the inventory; the prompt is known.
    ReadingInventory(String),
    /// The replay line is out; the creation of this agent comes next.
    Announced(NewAgent),
    /// Creating the new agent.
    Creating(NewAgent),
    /// The command is over.
    Finished,
}

/// A replay of an agent's prompt as a fresh agent, driven step by step.
pub struct Replay {
    /// The agent whose prompt is replayed.
    pub source: String,
    /// The new agent's name, when chosen explicitly.
    pub new_name: Option<String>,
    pub remote_control: bool,
    pub model: Option<String>,
    pub extra_args: Option<String>,
    pub stage: ReplayStage,
}

/// An announced agent has not begun.
pub open spec fn replay_wf(st: ReplayStage) -> bool {
    match st {
        ReplayStage::Announced(g) => g.stage is Start,
        _ => true,
    }
}

/// The event a stage waits for.
pub open spec fn replay_expects(st: ReplayStage, ev: Event) -> bool {
    match st {
        ReplayStage::Start => ev is Begin,
        ReplayStage::ReadingPrompt | ReplayStage::ReadingInventory(_) => ev is Output,
        ReplayStage::Announced(_) => ev is Shown,
        ReplayStage::Creating(n) => new_expects(n.stage, ev),
        ReplayStage::Finished => false,
    }
}

/// The name is checked: the first validation error of the source name,
/// then of the chosen name.
pub open spec fn replay_names_error(source: Seq<char>, new_name: Option<String>) -> Option<Seq<char>> {
    match validate_name_spec(source) {
        Err(m) => Some(m),
        Ok(()) => match new_name {
            Some(n) => match validate_name_spec(n@) {
                Err(m) => Some(m),
                Ok(()) => None,
            },
            None => None,
        },
    }
}

/// The replay announces the new agent `n`, about to be created with the
/// stored prompt `p` and the replay's options.
pub open spec fn replay_announce(r: Replay, n: Seq<char>, p: Seq<char>, st: ReplayStage, a: Action) -> bool {
    (a matches Action::Note(t) && t@ == "Replaying prompt from '"@ + r.source@ + "' as '"@ + n + "'."@ + "\n"@)
        && (st matches ReplayStage::Announced(g) && g.name@ == n && (g.prompt matches Some(q) && q@ == p)
        && g.remote_control == r.remote_control && g.model == r.model && g.extra_args == r.extra_args
        && g.persist && g.stage is Start)
}

impl Replay {
    /// A replay not yet begun.
    pub fn new(source: String, new_name: Option<String>, remote_control: bool, model: Option<String>, extra_args: Option<String>) -> (r: Self)
        ensures
            r.source == source,
            r.new_name == new_name,
            r.remote_control == remote_control,
            r.model == model,
            r.extra_args == extra_args,
            r.stage is Start,
    {
        Replay { source, new_name, remote_control, model, extra_args, stage: ReplayStage::Start }
    }

    fn announce(&self, n: String, p: String) -> (r: (ReplayStage, Action))
        ensures
            replay_announce(*self, n@, p@, r.0, r.1),
    {
        let mut t = replaying_message(self.source.as_str(), n.as_str());
        t.append("\n");
        let g = NewAgent::storing_prompt(n, Some(p), self.remote_control, self.model.clone(), self.extra_args.clone());
        (ReplayStage::Announced(g), Action::Note(t))
    }

    /// Take the next step: given what happened, say what to do. Both names
    /// are checked first; the source's stored prompt must exist; the new
    /// name, chosen or derived from the source's, must be free among all
    /// agents; then the agent is created as `new` creates one, with that
    /// prompt.
    pub fn step(&mut self, cfg: &Config, ev: Event) -> (a: Action)
        requires
            replay_wf(old(self).stage),
            replay_expects(old(self).stage, ev),
        ensures
            replay_wf(final(self).stage),
            final(self).source == old(self).source,
            final(self).new_name == old(self).new_name,
            final(self).remote_control == old(self).remote_control,
            final(self).model == old(self).model,
            final(self).extra_args == old(self).extra_args,
            ({
                let r = *old(self);
                let st = final(self).stage;
                match old(self).stage {
                    ReplayStage::Start => match replay_names_error(r.source@, r.new_name) {
                        Some(m) => st is Finished && (a matches Action::Done(Err(e)) && e@ == ErrorView::Validation(m)),
                        None => st is ReadingPrompt && (a matches Action::Run(c) && c@ == read_prompt_spec(
                            cfg.session_prefix@ + r.source@,
                        )),
                    },
                    ReplayStage::ReadingPrompt => match ev {
                        Event::Output(Ok(c)) => if c@.len() == 0 {
                            st is Finished && (a matches Action::Done(Err(e)) && e@ == ErrorView::NotFound(
                                no_prompt_message(r.source@),
                            ))
                        } else {
                            (st matches ReplayStage::ReadingInventory(q) && q@ == c@) && (a matches Action::Run(x) && x@
                                == inventory_command_spec(cfg.base_path@, cfg.session_prefix@))
                        },
                        Event::Output(Err(e)) => st is Finished && if e@ is SshFailed {
                            a matches Action::Done(Err(f)) && f@ == ErrorView::NotFound(no_prompt_message(r.source@))
                        } else {
                            a == Action::Done(Err(e))
                        },
                        _ => false,
                    },
                    ReplayStage::ReadingInventory(p) => match ev {
                        Event::Output(Err(e)) => st is Finished && a == Action::Done(Err(e)),
                        Event::Output(Ok(raw)) => exists|inv: AgentInventory, taken: Vec<String>|
                            #![trigger parsed_inventory(raw@, cfg.session_prefix@, inv), names_of(inv, *cfg, taken)]
                            parsed_inventory(raw@, cfg.session_prefix@, inv) && names_of(inv, *cfg, taken) && match r.new_name {
                                Some(n) => if views(taken@).contains(n@) {
                                    st is Finished && (a matches Action::Done(Err(e)) && e@ == ErrorView::Validation(
                                        "Agent '"@ + n@ + "' already exists. Pick a different name or destroy it first."@,
                                    ))
                                } else {
                                    replay_announce(r, n@, p@, st, a)
                                },
                                None => exists|res: Result<String, SkulkError>|
                                    #![trigger replay_name_result(r.source@, views(taken@), res)]
                                    replay_name_result(r.source@, views(taken@), res) && match res {
                                        Ok(n) => replay_announce(r, n@, p@, st, a),
                                        Err(e) => st is Finished && a == Action::Done(Err(e)),
                                    },
                            },
                        _ => false,
                    },
                    ReplayStage::Announced(g) => exists|g2: NewAgent|
                        #![trigger new_agent_next(g, *cfg, Event::Begin, g2, a)]
                        new_agent_next(g, *cfg, Event::Begin, g2, a) && st == ReplayStage::Creating(g2),
                    ReplayStage::Creating(g) => exists|g2: NewAgent|
                        #![trigger new_agent_next(g, *cfg, ev, g2, a)]
                        new_agent_next(g, *cfg, ev, g2, a) && st == ReplayStage::Creating(g2),
                    ReplayStage::Finished => false,
                }
            }),
    {
        let mut stage = ReplayStage::Finished;
        core::mem::swap(&mut stage, &mut self.stage);
        match stage {
            ReplayStage::Start => {
                match validate_name(self.source.as_str()) {
                    Err(e) => {
                        return Action::Done(Err(e));
                    },
                    Ok(()) => {},
                }
                match &self.new_name {
                    Some(n) => match validate_name(n.as_str()) {
                        Err(e) => {
                            return Action::Done(Err(e));
                        },
                        Ok(()) => {},
                    },
                    None => {},
                }
                let session = AgentRef::new(self.source.as_str(), cfg).session_name();
                self.stage = ReplayStage::ReadingPrompt;
                Action::Run(agent_read_prompt_command(session.as_str()))
            },
            ReplayStage::ReadingPrompt => match ev {
                Event::Output(r) => match stored_prompt_outcome(self.source.as_str(), r) {
                    Err(e) => Action::Done(Err(e)),
                    Ok(p) => {
                        self.stage = ReplayStage::ReadingInventory(p);
                        Action::Run(inventory_command(cfg))
                    },
                },
                _ => Action::Done(Ok(())),
            },
            ReplayStage::ReadingInventory(p) => match ev {
                Event::Output(Err(e)) => Action::Done(Err(e)),
                Event::Output(Ok(raw)) => {
                    let inv = parse_inventory(raw.as_str(), cfg);
                    let taken = destroy_all_names(&inv, cfg);
                    assert(parsed_inventory(raw@, cfg.session_prefix@, inv));
                    assert(names_of(inv, *cfg, taken));
                    match &self.new_name {
                        Some(n) => match check_override_free(n.as_str(), &taken) {
                            Err(e) => Action::Done(Err(e)),
                            Ok(()) => {
                                let (st, a) = self.announce(n.clone(), p);
                                self.stage = st;
                                a
                            },
                        },
                        None => {
                            let res = derive_replay_name(self.source.as_str(), &taken);
                            assert(replay_name_result(self.source@, views(taken@), res));
                            match res {
                                Err(e) => Action::Done(Err(e)),
                                Ok(n) => {
                                    let (st, a) = self.announce(n, p);
                                    self.stage = st;
                                    a
                                },
                            }
                        },
                    }
                },
                _ => Action::Done(Ok(())),
            },
            ReplayStage::Announced(mut g) => {
                let a = g.step(cfg, Event::Begin);
                self.stage = ReplayStage::Creating(g);
                a
            },
            ReplayStage::Creating(mut g) => {
                let a = g.step(cfg, ev);
                self.stage = ReplayStage::Creating(g);
                a
            },
            ReplayStage::Finished => Action::Done(Ok(())),
        }
    }
}

} // verus!
