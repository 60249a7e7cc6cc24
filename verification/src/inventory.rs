//! The remote agent inventory: tmux sessions, worktrees and branches.

use vstd::prelude::*;
use crate::config::Config;
use crate::kvmap::KvMap;
use crate::text::{
    chars_eq, lines, lines_of, owned, parse_i64, parse_i64_spec, split_char, split_on,
    starts_with, starts_with_str, strip_prefix_str, to_chars, trim, trim_str, views,
};
use crate::util::{extract_section, extract_section_spec};

verus! {

/// Lifecycle state of an agent: `Attached` / `Detached` follow the tmux
/// session's attached flag, `Idle` means the agent finished its turn, and
/// `Stopped` means the tmux session is gone.
#[derive(Debug, Clone, Copy, PartialEq, Eq, Structural)]
pub enum AgentState {
    Attached,
    Detached,
    Idle,
    Stopped,
}

/// An agent session as listed by tmux.
#[derive(Debug)]
pub struct Session {
    pub name: String,
    pub created: i64,
    /// tmux `session_activity` epoch: last time any pane output changed.
    pub activity: i64,
    pub state: AgentState,
    pub worktree: Option<String>,
}

/// The mathematical form of a `Session`.
pub struct SessionView {
    pub name: Seq<char>,
    pub created: i64,
    pub activity: i64,
    pub state: AgentState,
    pub worktree: Option<Seq<char>>,
}

impl View for Session {
    type V = SessionView;

    open spec fn view(&self) -> SessionView {
        SessionView {
            name: self.name@,
            created: self.created,
            activity: self.activity,
            state: self.state,
            worktree: match self.worktree {
                Some(w) => Some(w@),
                None => None,
            },
        }
    }
}

/// The sessions' views.
pub open spec fn session_views(v: Seq<Session>) -> Seq<SessionView> {
    v.map_values(|s: Session| s@)
}

/// The fields of a tmux listing line `name<TAB>created<TAB>activity<TAB>attached...`:
/// present when there are at least four fields and both epochs parse.
pub open spec fn tmux_fields(line: Seq<char>) -> Option<(Seq<char>, i64, i64, Seq<char>)> {
    let parts = split_on(line, '\t');
    if line.len() > 0 && parts.len() >= 4 && parse_i64_spec(parts[1]) is Some && parse_i64_spec(
        parts[2],
    ) is Some {
        Some((parts[0], parse_i64_spec(parts[1])->0, parse_i64_spec(parts[2])->0, parts[3]))
    } else {
        None
    }
}

/// The fields of one tmux listing line.
pub fn parse_tmux_line(line: &str) -> (r: Option<(String, i64, i64, String)>)
    ensures
        r matches Some(t) ==> tmux_fields(line@) == Some((t.0@, t.1, t.2, t.3@)),
        r is None ==> tmux_fields(line@) is None,
{
    let lv = to_chars(line);
    if lv.len() == 0 {
        return None;
    }
    let parts = split_char(line, '\t');
    if parts.len() < 4 {
        return None;
    }
    let created = match parse_i64(parts[1].as_str()) {
        Some(c) => c,
        None => return None,
    };
    let activity = match parse_i64(parts[2].as_str()) {
        Some(a) => a,
        None => return None,
    };
    Some((parts[0].clone(), created, activity, parts[3].clone()))
}

/// The session a tmux listing line describes, in the `Detached`/`Attached`
/// state its attached flag gives (`0` is detached).
pub open spec fn session_of_line(line: Seq<char>) -> Option<SessionView> {
    match tmux_fields(line) {
        Some(f) => Some(
            SessionView {
                name: f.0,
                created: f.1,
                activity: f.2,
                state: if f.3 == "0"@ { AgentState::Detached } else { AgentState::Attached },
                worktree: None,
            },
        ),
        None => None,
    }
}

/// The sessions of a sequence of listing lines, skipping malformed lines.
pub open spec fn sessions_of_lines(ls: Seq<Seq<char>>) -> Seq<SessionView>
    decreases ls.len(),
{
    if ls.len() == 0 {
        Seq::empty()
    } else {
        let prev = sessions_of_lines(ls.drop_last());
        match session_of_line(ls.last()) {
            Some(s) => prev.push(s),
            None => prev,
        }
    }
}

/// Parse a raw tmux `list-sessions` output into sessions in the `Attached`
/// or `Detached` state; malformed lines are skipped.
pub fn parse_sessions(raw: &str) -> (r: Vec<Session>)
    ensures
        session_views(r@) == sessions_of_lines(lines(raw@)),
{
    let ls = lines_of(raw);
    let mut out: Vec<Session> = Vec::new();
    let mut i: usize = 0;
    assert(views(ls@).take(0) =~= Seq::<Seq<char>>::empty());
    while i < ls.len()
        invariant
            i <= ls.len(),
            views(ls@) == lines(raw@),
            session_views(out@) == sessions_of_lines(views(ls@).take(i as int)),
        decreases ls.len() - i,
    {
        let ghost t = views(ls@).take(i + 1);
        assert(t.drop_last() =~= views(ls@).take(i as int));
        assert(t.last() == ls@[i as int]@);
        match parse_tmux_line(ls[i].as_str()) {
            Some((name, created, activity, attached)) => {
                let av = to_chars(attached.as_str());
                let zero = to_chars("0");
                let state = if chars_eq(av.as_slice(), zero.as_slice()) {
                    AgentState::Detached
                } else {
                    AgentState::Attached
                };
                let ghost before = out@;
                out.push(Session { name, created, activity, state, worktree: None });
                assert(session_views(out@) =~= session_views(before).push(
                    session_of_line(ls@[i as int]@)->0,
                ));
            },
            None => {},
        }
        i = i + 1;
    }
    assert(views(ls@).take(ls.len() as int) =~= views(ls@));
    out
}

/// A live session becomes `Idle` when the Stop-hook marker is at least as
/// recent as its tmux activity; `Stopped` is preserved.
pub open spec fn resolve_agent_state_spec(state: AgentState, activity: i64, state_mtime: Option<i64>) -> AgentState {
    if state == AgentState::Stopped {
        AgentState::Stopped
    } else {
        match state_mtime {
            Some(m) => if m >= activity {
                AgentState::Idle
            } else {
                state
            },
            None => state,
        }
    }
}

/// Upgrade a live session's state to `Idle` when the Stop-hook marker is at
/// least as recent as the tmux activity timestamp. `Stopped` is preserved.
pub fn resolve_agent_state(state: &AgentState, activity: i64, state_mtime: Option<i64>) -> (r: AgentState)
    ensures
        r == resolve_agent_state_spec(*state, activity, state_mtime),
{
    if *state == AgentState::Stopped {
        return AgentState::Stopped;
    }
    match state_mtime {
        Some(m) => if m >= activity {
            AgentState::Idle
        } else {
            *state
        },
        None => *state,
    }
}

/// The state of reading `git worktree list --porcelain`: the map built so
/// far and the path of the current block.
pub open spec fn worktree_step(
    st: (Map<Seq<char>, Seq<char>>, Option<Seq<char>>),
    line: Seq<char>,
    prefix: Seq<char>,
) -> (Map<Seq<char>, Seq<char>>, Option<Seq<char>>) {
    let wt = "worktree "@;
    let br = "branch refs/heads/"@;
    if line.len() == 0 {
        (st.0, None)
    } else if starts_with(line, wt) {
        (st.0, Some(line.skip(wt.len() as int)))
    } else if starts_with(line, br) && starts_with(line.skip(br.len() as int), prefix) && st.1 is Some {
        (st.0.insert(line.skip(br.len() as int), st.1->0), st.1)
    } else {
        st
    }
}

/// The reading state after a sequence of porcelain lines.
pub open spec fn worktree_fold(ls: Seq<Seq<char>>, prefix: Seq<char>) -> (Map<Seq<char>, Seq<char>>, Option<Seq<char>>)
    decreases ls.len(),
{
    if ls.len() == 0 {
        (Map::empty(), None)
    } else {
        worktree_step(worktree_fold(ls.drop_last(), prefix), ls.last(), prefix)
    }
}

/// The map of branch name to worktree path of a porcelain listing, for
/// branches that carry `prefix`.
pub open spec fn worktree_map_spec(porcelain: Seq<char>, prefix: Seq<char>) -> Map<Seq<char>, Seq<char>> {
    worktree_fold(lines(porcelain), prefix).0
}

/// Parse `git worktree list --porcelain` output into a map of branch name to
/// worktree path, keeping only branches with the configured session prefix.
/// Blocks are separated by blank lines; each starts with `worktree <path>`
/// and may hold `branch refs/heads/<name>`; other lines are ignored.
pub fn get_worktree_map(porcelain_output: &str, cfg: &Config) -> (r: KvMap)
    ensures
        r@ == worktree_map_spec(porcelain_output@, cfg.session_prefix@),
{
    let ls = lines_of(porcelain_output);
    let mut map = KvMap::new();
    let mut current_path: Option<String> = None;
    let mut i: usize = 0;
    let ghost prefix = cfg.session_prefix@;
    assert(views(ls@).take(0) =~= Seq::<Seq<char>>::empty());
    while i < ls.len()
        invariant
            i <= ls.len(),
            prefix == cfg.session_prefix@,
            views(ls@) == lines(porcelain_output@),
            worktree_fold(views(ls@).take(i as int), prefix) == (
                map@,
                match current_path {
                    Some(p) => Some(p@),
                    None => None::<Seq<char>>,
                },
            ),
        decreases ls.len() - i,
    {
        let ghost t = views(ls@).take(i + 1);
        assert(t.drop_last() =~= views(ls@).take(i as int));
        let line = &ls[i];
        assert(t.last() == line@);
        let lv = to_chars(line.as_str());
        if lv.len() == 0 {
            current_path = None;
        } else {
            match strip_prefix_str(line.as_str(), "worktree ") {
                Some(path) => {
                    current_path = Some(path);
                },
                None => {
                    match strip_prefix_str(line.as_str(), "branch refs/heads/") {
                        Some(branch) => {
                            if starts_with_str(branch.as_str(), cfg.session_prefix.as_str()) {
                                match &current_path {
                                    Some(p) => {
                                        map.insert(branch, p.clone());
                                    },
                                    None => {},
                                }
                            }
                        },
                        None => {},
                    }
                },
            }
        }
        i = i + 1;
    }
    assert(views(ls@).take(ls.len() as int) =~= views(ls@));
    map
}

/// Remote agent state gathered in a single SSH round-trip.
#[derive(Debug)]
pub struct AgentInventory {
    /// tmux session names with the session prefix
    pub sessions: Vec<String>,
    /// branch name -> worktree path (prefix-matching only)
    pub worktrees: KvMap,
    /// branch names with the session prefix
    pub branches: Vec<String>,
}

/// The SSH command that gathers all agent state in one round-trip: delimited
/// sections for tmux sessions, git worktrees and git branches.
pub open spec fn inventory_command_spec(base_path: Seq<char>, session_prefix: Seq<char>) -> Seq<char> {
    "echo __SESSIONS_START__ && tmux list-sessions -F '#{session_name}' 2>/dev/null || true && echo __SESSIONS_END__ && echo __WORKTREES_START__ && cd "@
        + base_path
        + " && git worktree list --porcelain 2>/dev/null || true && echo __WORKTREES_END__ && echo __BRANCHES_START__ && cd "@
        + base_path + " && git branch --list '"@ + session_prefix
        + "*' 2>/dev/null || true && echo __BRANCHES_END__"@
}

/// Build the SSH command that gathers all agent state in one round-trip.
pub fn inventory_command(cfg: &Config) -> (r: String)
    ensures
        r@ == inventory_command_spec(cfg.base_path@, cfg.session_prefix@),
{
    let mut r = owned(
        "echo __SESSIONS_START__ && tmux list-sessions -F '#{session_name}' 2>/dev/null || true && echo __SESSIONS_END__ && echo __WORKTREES_START__ && cd ",
    );
    r.append(cfg.base_path.as_str());
    r.append(
        " && git worktree list --porcelain 2>/dev/null || true && echo __WORKTREES_END__ && echo __BRANCHES_START__ && cd ",
    );
    r.append(cfg.base_path.as_str());
    r.append(" && git branch --list '");
    r.append(cfg.session_prefix.as_str());
    r.append("*' 2>/dev/null || true && echo __BRANCHES_END__");
    r
}

/// The trimmed, non-empty lines of a section that carry `prefix`.
pub open spec fn prefixed_lines(ls: Seq<Seq<char>>, prefix: Seq<char>) -> Seq<Seq<char>>
    decreases ls.len(),
{
    if ls.len() == 0 {
        Seq::empty()
    } else {
        let prev = prefixed_lines(ls.drop_last(), prefix);
        let t = trim(ls.last());
        if t.len() > 0 && starts_with(t, prefix) {
            prev.push(t)
        } else {
            prev
        }
    }
}

/// The trimmed, non-empty lines of `section` that carry `prefix`.
pub fn prefixed_lines_of(section: &str, prefix: &str) -> (r: Vec<String>)
    ensures
        views(r@) == prefixed_lines(lines(section@), prefix@),
{
    let ls = lines_of(section);
    let mut out: Vec<String> = Vec::new();
    let mut i: usize = 0;
    assert(views(ls@).take(0) =~= Seq::<Seq<char>>::empty());
    while i < ls.len()
        invariant
            i <= ls.len(),
            views(ls@) == lines(section@),
            views(out@) == prefixed_lines(views(ls@).take(i as int), prefix@),
        decreases ls.len() - i,
    {
        let ghost t = views(ls@).take(i + 1);
        assert(t.drop_last() =~= views(ls@).take(i as int));
        assert(t.last() == ls@[i as int]@);
        let tl = trim_str(ls[i].as_str());
        let tv = to_chars(tl.as_str());
        if tv.len() > 0 && starts_with_str(tl.as_str(), prefix) {
            let ghost before = out@;
            out.push(tl);
            assert(views(out@) =~= views(before).push(trim(ls@[i as int]@)));
        }
        i = i + 1;
    }
    assert(views(ls@).take(ls.len() as int) =~= views(ls@));
    out
}

/// The sessions section of an inventory listing.
pub open spec fn sessions_section(raw: Seq<char>) -> Seq<char> {
    extract_section_spec(raw, "__SESSIONS_START__\n"@, "\n__SESSIONS_END__"@)
}

/// The worktrees section of an inventory listing.
pub open spec fn worktrees_section(raw: Seq<char>) -> Seq<char> {
    extract_section_spec(raw, "__WORKTREES_START__\n"@, "\n__WORKTREES_END__"@)
}

/// The branches section of an inventory listing.
pub open spec fn branches_section(raw: Seq<char>) -> Seq<char> {
    extract_section_spec(raw, "__BRANCHES_START__\n"@, "\n__BRANCHES_END__"@)
}

/// `inv` is what the inventory output `raw` says: the prefixed session
/// names, the worktree map of prefixed branches, and the prefixed branch
/// names.
pub open spec fn parsed_inventory(raw: Seq<char>, prefix: Seq<char>, inv: AgentInventory) -> bool {
    &&& views(inv.sessions@) == prefixed_lines(lines(sessions_section(raw)), prefix)
    &&& inv.worktrees@ == worktree_map_spec(worktrees_section(raw), prefix)
    &&& views(inv.branches@) == prefixed_lines(lines(branches_section(raw)), prefix)
}

/// Parse the raw output of the inventory command: the prefixed session
/// names, the worktree map of prefixed branches, and the prefixed branch
/// names (leading spaces of `git branch` trimmed).
pub fn parse_inventory(raw: &str, cfg: &Config) -> (r: AgentInventory)
    ensures
        views(r.sessions@) == prefixed_lines(lines(sessions_section(raw@)), cfg.session_prefix@),
        r.worktrees@ == worktree_map_spec(worktrees_section(raw@), cfg.session_prefix@),
        views(r.branches@) == prefixed_lines(lines(branches_section(raw@)), cfg.session_prefix@),
{
    let sessions_raw = extract_section(raw, "__SESSIONS_START__\n", "\n__SESSIONS_END__");
    let sessions = prefixed_lines_of(sessions_raw.as_str(), cfg.session_prefix.as_str());
    let worktrees_raw = extract_section(raw, "__WORKTREES_START__\n", "\n__WORKTREES_END__");
    let worktrees = get_worktree_map(worktrees_raw.as_str(), cfg);
    let branches_raw = extract_section(raw, "__BRANCHES_START__\n", "\n__BRANCHES_END__");
    let branches = prefixed_lines_of(branches_raw.as_str(), cfg.session_prefix.as_str());
    AgentInventory { sessions, worktrees, branches }
}

/// Orphaned resources identified by gc.
#[derive(Debug)]
pub struct GcOrphans {
    /// tmux sessions with session prefix but no matching worktree
    pub sessions: Vec<String>,
    /// worktrees with session prefix but no matching tmux session
    pub worktrees: Vec<String>,
    /// branches with session prefix but no matching session or worktree
    pub branches: Vec<String>,
}

impl GcOrphans {
    /// Nothing is orphaned.
    pub fn is_empty(&self) -> (b: bool)
        ensures
            b == (self.sessions@.len() == 0 && self.worktrees@.len() == 0 && self.branches@.len()
                == 0),
    {
        self.sessions.len() == 0 && self.worktrees.len() == 0 && self.branches.len() == 0
    }

    /// The number of orphaned resources of all kinds.
    pub fn total(&self) -> (n: usize)
        requires
            self.sessions@.len() + self.worktrees@.len() + self.branches@.len() <= usize::MAX,
        ensures
            n == self.sessions@.len() + self.worktrees@.len() + self.branches@.len(),
    {
        self.sessions.len() + self.worktrees.len() + self.branches.len()
    }
}


/// Every line kept by `prefixed_lines` carries the prefix.
pub proof fn lemma_prefixed_lines_carry_prefix(ls: Seq<Seq<char>>, prefix: Seq<char>)
    ensures
        forall|i: int| 0 <= i < prefixed_lines(ls, prefix).len() ==> starts_with(#[trigger] prefixed_lines(ls, prefix)[i], prefix),
    decreases ls.len(),
{
    if ls.len() > 0 {
        lemma_prefixed_lines_carry_prefix(ls.drop_last(), prefix);
        let prev = prefixed_lines(ls.drop_last(), prefix);
        let t = trim(ls.last());
        assert forall|i: int| 0 <= i < prefixed_lines(ls, prefix).len() implies starts_with(
            #[trigger] prefixed_lines(ls, prefix)[i],
            prefix,
        ) by {
            if i < prev.len() {
                assert(prefixed_lines(ls, prefix)[i] == prev[i]);
            }
        }
    }
}

/// Every branch in the worktree map carries the prefix.
pub proof fn lemma_worktree_keys_carry_prefix(ls: Seq<Seq<char>>, prefix: Seq<char>)
    ensures
        forall|k: Seq<char>| #[trigger] worktree_fold(ls, prefix).0.contains_key(k) ==> starts_with(k, prefix),
    decreases ls.len(),
{
    if ls.len() > 0 {
        lemma_worktree_keys_carry_prefix(ls.drop_last(), prefix);
        let st = worktree_fold(ls.drop_last(), prefix);
        let line = ls.last();
        let br = "branch refs/heads/"@;
        assert forall|k: Seq<char>| #[trigger] worktree_fold(ls, prefix).0.contains_key(k) implies starts_with(k, prefix) by {
            if !st.0.contains_key(k) {
                assert(k == line.skip(br.len() as int));
            }
        }
    }
}

/// Every session, worktree and branch of an inventory read from the remote
/// carries the session prefix: the inventory, and so all that is cleaned or
/// destroyed from it, is scoped to the project's prefix.
pub proof fn lemma_inventory_scoped(raw: Seq<char>, prefix: Seq<char>, inv: AgentInventory)
    requires
        parsed_inventory(raw, prefix, inv),
    ensures
        forall|i: int| 0 <= i < inv.sessions@.len() ==> starts_with(#[trigger] inv.sessions@[i]@, prefix),
        forall|k: Seq<char>| #[trigger] inv.worktrees@.contains_key(k) ==> starts_with(k, prefix),
        forall|i: int| 0 <= i < inv.branches@.len() ==> starts_with(#[trigger] inv.branches@[i]@, prefix),
{
    lemma_prefixed_lines_carry_prefix(lines(sessions_section(raw)), prefix);
    lemma_prefixed_lines_carry_prefix(lines(branches_section(raw)), prefix);
    lemma_worktree_keys_carry_prefix(lines(worktrees_section(raw)), prefix);
    assert forall|i: int| 0 <= i < inv.sessions@.len() implies starts_with(#[trigger] inv.sessions@[i]@, prefix) by {
        assert(views(inv.sessions@)[i] == inv.sessions@[i]@);
    }
    assert forall|i: int| 0 <= i < inv.branches@.len() implies starts_with(#[trigger] inv.branches@[i]@, prefix) by {
        assert(views(inv.branches@)[i] == inv.branches@[i]@);
    }
}

} // verus!
