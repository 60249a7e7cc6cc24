//! `skulk list`: every agent with its state, uptime and worktree, from one
//! SSH round-trip.

use vstd::prelude::*;
use crate::agent_ref::{unqualified, AgentRef};
use crate::commands::status::{parse_remote_epoch, remote_epoch_spec, tmux_down};
use crate::config::Config;
use crate::display::{IdleState, Session as TableSession, SessionState};
use crate::error::is_tmux_no_server;
use crate::inventory::{get_worktree_map, worktree_map_spec, AgentState};
use crate::kvmap::KvMap;
use crate::text::{
    chars_eq, lines, lines_of, owned, parse_i64, parse_i64_spec, split_char, split_on, starts_with,
    starts_with_str, to_chars, views, words, words_of,
};
use crate::util::{extract_section, extract_section_spec};

verus! {

/// An agent row of `list`.
#[derive(Debug)]
pub struct ListSession {
    pub name: String,
    pub created: i64,
    pub state: AgentState,
    pub worktree: Option<String>,
}

/// The mathematical form of a `ListSession`.
pub struct ListSessionView {
    pub name: Seq<char>,
    pub created: i64,
    pub state: AgentState,
    pub worktree: Option<Seq<char>>,
}

impl View for ListSession {
    type V = ListSessionView;

    open spec fn view(&self) -> ListSessionView {
        ListSessionView {
            name: self.name@,
            created: self.created,
            state: self.state,
            worktree: match self.worktree {
                Some(w) => Some(w@),
                None => None,
            },
        }
    }
}

/// The rows' views.
pub open spec fn list_views(v: Seq<ListSession>) -> Seq<ListSessionView> {
    v.map_values(|s: ListSession| s@)
}

/// The SSH command behind `list`: remote clock, tmux sessions (name,
/// created, attached), worktrees and the Stop-hook marker of each session
/// (`<session> <content>` per line).
pub open spec fn list_command_spec(base_path: Seq<char>) -> Seq<char> {
    "echo __EPOCH__$(date +%s)__EPOCH__ && echo __TMUX_START__ && tmux list-sessions -F '#{session_name}\t#{session_created}\t#{session_attached}' 2>&1 && echo __TMUX_END__ && echo __WORKTREES_START__ && cd "@
        + base_path
        + " && git worktree list --porcelain 2>/dev/null || true && echo __WORKTREES_END__ && echo __STATE_START__ && for f in ~/.skulk/state/*; do [ -f \"$f\" ] && printf '%s %s\\n' \"$(basename \"$f\")\" \"$(cat \"$f\")\"; done 2>/dev/null; echo __STATE_END__"@
}

/// The SSH command behind `list`.
pub fn list_command(cfg: &Config) -> (r: String)
    ensures
        r@ == list_command_spec(cfg.base_path@),
{
    let mut s = owned(
        "echo __EPOCH__$(date +%s)__EPOCH__ && echo __TMUX_START__ && tmux list-sessions -F '#{session_name}\t#{session_created}\t#{session_attached}' 2>&1 && echo __TMUX_END__ && echo __WORKTREES_START__ && cd ",
    );
    s.append(cfg.base_path.as_str());
    s.append(
        " && git worktree list --porcelain 2>/dev/null || true && echo __WORKTREES_END__ && echo __STATE_START__ && for f in ~/.skulk/state/*; do [ -f \"$f\" ] && printf '%s %s\\n' \"$(basename \"$f\")\" \"$(cat \"$f\")\"; done 2>/dev/null; echo __STATE_END__",
    );
    s
}

/// One marker line applied to the map: its first two words are a session
/// name and the marker's content; lines with fewer words are skipped.
pub open spec fn state_step(m: Map<Seq<char>, Seq<char>>, line: Seq<char>) -> Map<Seq<char>, Seq<char>> {
    let w = words(line);
    if w.len() >= 2 {
        m.insert(w[0], w[1])
    } else {
        m
    }
}

/// The marker lines applied in order; a later line for a session wins.
pub open spec fn state_fold(ls: Seq<Seq<char>>) -> Map<Seq<char>, Seq<char>>
    decreases ls.len(),
{
    if ls.len() == 0 {
        Map::empty()
    } else {
        state_step(state_fold(ls.drop_last()), ls.last())
    }
}

/// Parse the marker section into session name -> marker content.
pub fn parse_state_map(raw: &str) -> (r: KvMap)
    ensures
        r@ == state_fold(lines(raw@)),
{
    let ls = lines_of(raw);
    let mut map = KvMap::new();
    let mut i: usize = 0;
    assert(views(ls@).take(0) =~= Seq::<Seq<char>>::empty());
    while i < ls.len()
        invariant
            i <= ls.len(),
            views(ls@) == lines(raw@),
            map@ == state_fold(views(ls@).take(i as int)),
        decreases ls.len() - i,
    {
        let ghost t = views(ls@).take(i + 1);
        assert(t.drop_last() =~= views(ls@).take(i as int));
        assert(t.last() == ls@[i as int]@);
        let w = words_of(ls[i].as_str());
        if w.len() >= 2 {
            assert(views(w@)[0] == w@[0]@ && views(w@)[1] == w@[1]@);
            map.insert(w[0].clone(), w[1].clone());
        }
        i = i + 1;
    }
    assert(views(ls@).take(ls.len() as int) =~= views(ls@));
    map
}

/// A live session becomes `Idle` when its marker reads `idle`; any other
/// marker, or none, leaves it; `Stopped` stays `Stopped`.
pub open spec fn marker_state_spec(state: AgentState, marker: Option<Seq<char>>) -> AgentState {
    if state == AgentState::Stopped {
        AgentState::Stopped
    } else {
        match marker {
            Some(m) => if m == "idle"@ {
                AgentState::Idle
            } else {
                state
            },
            None => state,
        }
    }
}

/// The Stop-hook marker decides only for live sessions: a live session,
/// attached or detached, whose marker reads exactly `idle` is idle; any other
/// marker, or none, leaves the state as tmux reported it; a stopped agent
/// stays stopped whatever its marker says.
pub proof fn lemma_marker_state_law(state: AgentState, marker: Option<Seq<char>>)
    ensures
        state == AgentState::Stopped ==> marker_state_spec(state, marker) == AgentState::Stopped,
        (state == AgentState::Attached || state == AgentState::Detached) && marker == Some("idle"@)
            ==> marker_state_spec(state, marker) == AgentState::Idle,
        state != AgentState::Stopped && marker != Some("idle"@) ==> marker_state_spec(state, marker) == state,
{
}

/// Apply a session's Stop-hook marker content to its state.
pub fn marker_state(state: AgentState, marker: Option<&str>) -> (r: AgentState)
    ensures
        r == marker_state_spec(state, match marker {
            Some(m) => Some(m@),
            None => None,
        }),
{
    if state == AgentState::Stopped {
        return AgentState::Stopped;
    }
    match marker {
        Some(m) => {
            let mv = to_chars(m);
            let idle = to_chars("idle");
            if chars_eq(mv.as_slice(), idle.as_slice()) {
                AgentState::Idle
            } else {
                state
            }
        },
        None => state,
    }
}

/// The row a `name<TAB>created<TAB>attached` line describes: `Detached`
/// when the attached flag is `0`, else `Attached`; malformed lines give none.
pub open spec fn list_row_of_line(line: Seq<char>) -> Option<ListSessionView> {
    let parts = split_on(line, '\t');
    if line.len() > 0 && parts.len() >= 3 && parse_i64_spec(parts[1]) is Some {
        Some(
            ListSessionView {
                name: parts[0],
                created: parse_i64_spec(parts[1])->0,
                state: if parts[2] == "0"@ { AgentState::Detached } else { AgentState::Attached },
                worktree: None,
            },
        )
    } else {
        None
    }
}

/// The live agent rows of a tmux listing: well-formed lines whose session
/// carries the prefix, with their worktree and marker state joined in.
pub open spec fn live_rows(ls: Seq<Seq<char>>, prefix: Seq<char>, wt: Map<Seq<char>, Seq<char>>, st: Map<Seq<char>, Seq<char>>) -> Seq<ListSessionView>
    decreases ls.len(),
{
    if ls.len() == 0 {
        Seq::empty()
    } else {
        let prev = live_rows(ls.drop_last(), prefix, wt, st);
        match list_row_of_line(ls.last()) {
            Some(s) => if starts_with(s.name, prefix) {
                prev.push(
                    ListSessionView {
                        name: s.name,
                        created: s.created,
                        state: marker_state_spec(
                            s.state,
                            if st.contains_key(s.name) { Some(st[s.name]) } else { None },
                        ),
                        worktree: if wt.contains_key(s.name) { Some(wt[s.name]) } else { None },
                    },
                )
            } else {
                prev
            },
            None => prev,
        }
    }
}

/// The tmux section of a list probe; empty when tmux reports no server.
pub open spec fn list_tmux_section(raw: Seq<char>) -> Seq<char> {
    let t = extract_section_spec(raw, "__TMUX_START__\n"@, "\n__TMUX_END__"@);
    if tmux_down(lines(t)) {
        Seq::empty()
    } else {
        t
    }
}

/// The worktree map of a list probe.
pub open spec fn list_worktrees(raw: Seq<char>, prefix: Seq<char>) -> Map<Seq<char>, Seq<char>> {
    worktree_map_spec(extract_section_spec(raw, "__WORKTREES_START__\n"@, "\n__WORKTREES_END__"@), prefix)
}

/// The marker map of a list probe.
pub open spec fn list_states(raw: Seq<char>) -> Map<Seq<char>, Seq<char>> {
    state_fold(lines(extract_section_spec(raw, "__STATE_START__\n"@, "\n__STATE_END__"@)))
}

/// The live rows of a list probe.
pub open spec fn list_live(raw: Seq<char>, prefix: Seq<char>) -> Seq<ListSessionView> {
    live_rows(lines(list_tmux_section(raw)), prefix, list_worktrees(raw, prefix), list_states(raw))
}

/// The row of one tmux listing line, when it is well-formed.
fn list_row(line: &str) -> (r: Option<ListSession>)
    ensures
        match r {
            Some(s) => list_row_of_line(line@) == Some(s@),
            None => list_row_of_line(line@) is None,
        },
{
    let lv = to_chars(line);
    if lv.len() == 0 {
        return None;
    }
    let parts = split_char(line, '\t');
    if parts.len() < 3 {
        return None;
    }
    assert(views(parts@)[1] == parts@[1]@ && views(parts@)[0] == parts@[0]@ && views(parts@)[2] == parts@[2]@);
    let created = match parse_i64(parts[1].as_str()) {
        Some(c) => c,
        None => return None,
    };
    let av = to_chars(parts[2].as_str());
    let zero = to_chars("0");
    let state = if chars_eq(av.as_slice(), zero.as_slice()) {
        AgentState::Detached
    } else {
        AgentState::Attached
    };
    Some(ListSession { name: parts[0].clone(), created, state, worktree: None })
}

/// Whether some row is named `name`.
fn has_row(rows: &Vec<ListSession>, name: &str) -> (b: bool)
    ensures
        b == exists|i: int| 0 <= i < rows@.len() && rows@[i].name@ == name@,
{
    let nv = to_chars(name);
    let mut i: usize = 0;
    while i < rows.len()
        invariant
            i <= rows.len(),
            nv@ == name@,
            forall|j: int| 0 <= j < i ==> rows@[j].name@ != name@,
        decreases rows.len() - i,
    {
        let rv = to_chars(rows[i].name.as_str());
        if chars_eq(rv.as_slice(), nv.as_slice()) {
            return true;
        }
        i = i + 1;
    }
    false
}

/// Parse a list probe's output into rows and the clock to measure uptimes
/// against (the remote's, else `local_now`). The live sessions with the
/// prefix come first, in listing order; after them every worktree with no
/// live session appears once as a `Stopped` row created at 0.
pub fn parse_list_output(raw: &str, cfg: &Config, local_now: i64) -> (r: (Vec<ListSession>, i64))
    ensures
        r.1 == match remote_epoch_spec(raw@) {
            Some(n) => n,
            None => local_now,
        },
        ({
            let live = list_live(raw@, cfg.session_prefix@);
            let wt = list_worktrees(raw@, cfg.session_prefix@);
            let rows = list_views(r.0@);
            &&& live.len() <= rows.len()
            &&& rows.take(live.len() as int) == live
            &&& forall|k: int|
                live.len() <= k < rows.len() ==> {
                    &&& (#[trigger] rows[k]).state == AgentState::Stopped
                    &&& rows[k].created == 0
                    &&& wt.contains_key(rows[k].name)
                    &&& rows[k].worktree == Some(wt[rows[k].name])
                    &&& forall|j: int| 0 <= j < live.len() ==> live[j].name != rows[k].name
                }
            &&& forall|k1: int, k2: int|
                live.len() <= k1 < k2 < rows.len() ==> (#[trigger] rows[k1]).name != (#[trigger] rows[k2]).name
            &&& forall|key: Seq<char>|
                #[trigger] wt.contains_key(key) ==> exists|k: int| 0 <= k < rows.len() && rows[k].name == key
        }),
{
    let now = match parse_remote_epoch(raw) {
        Some(n) => n,
        None => local_now,
    };
    let ghost prefix = cfg.session_prefix@;
    let tmux_raw = extract_section(raw, "__TMUX_START__\n", "\n__TMUX_END__");
    let tmux_lines = lines_of(tmux_raw.as_str());
    let mut down = false;
    let mut i: usize = 0;
    while i < tmux_lines.len()
        invariant
            i <= tmux_lines.len(),
            down == exists|j: int| 0 <= j < i && (crate::text::contains(crate::text::lowercase(tmux_lines@[j]@), "no server running"@) || crate::text::contains(crate::text::lowercase(tmux_lines@[j]@), "no sessions"@)),
        decreases tmux_lines.len() - i,
    {
        if is_tmux_no_server(tmux_lines[i].as_str()) {
            down = true;
        }
        i = i + 1;
    }
    proof {
        assert forall|j: int| 0 <= j < tmux_lines@.len() implies views(tmux_lines@)[j] == tmux_lines@[j]@ by {}
        if down {
            let j = choose|j: int| 0 <= j < tmux_lines@.len() && (crate::text::contains(crate::text::lowercase(tmux_lines@[j]@), "no server running"@) || crate::text::contains(crate::text::lowercase(tmux_lines@[j]@), "no sessions"@));
            assert(views(tmux_lines@)[j] == tmux_lines@[j]@);
        }
        if tmux_down(views(tmux_lines@)) {
            let j = choose|j: int| 0 <= j < views(tmux_lines@).len() && (crate::text::contains(crate::text::lowercase(views(tmux_lines@)[j]), "no server running"@) || crate::text::contains(crate::text::lowercase(views(tmux_lines@)[j]), "no sessions"@));
            assert(views(tmux_lines@)[j] == tmux_lines@[j]@);
        }
    }
    let tmux_output = if down { String::new() } else { tmux_raw };
    let wt_raw = extract_section(raw, "__WORKTREES_START__\n", "\n__WORKTREES_END__");
    let wmap = get_worktree_map(wt_raw.as_str(), cfg);
    let st_raw = extract_section(raw, "__STATE_START__\n", "\n__STATE_END__");
    let smap = parse_state_map(st_raw.as_str());
    let ghost wt = list_worktrees(raw@, prefix);
    let ghost st = list_states(raw@);
    assert(wmap@ == wt);
    assert(smap@ == st);

    let ls = lines_of(tmux_output.as_str());
    let mut rows: Vec<ListSession> = Vec::new();
    let mut i: usize = 0;
    assert(views(ls@).take(0) =~= Seq::<Seq<char>>::empty());
    while i < ls.len()
        invariant
            i <= ls.len(),
            views(ls@) == lines(list_tmux_section(raw@)),
            wmap@ == wt,
            smap@ == st,
            prefix == cfg.session_prefix@,
            list_views(rows@) == live_rows(views(ls@).take(i as int), prefix, wt, st),
        decreases ls.len() - i,
    {
        let ghost t = views(ls@).take(i + 1);
        assert(t.drop_last() =~= views(ls@).take(i as int));
        assert(t.last() == ls@[i as int]@);
        match list_row(ls[i].as_str()) {
            Some(row) => {
                if starts_with_str(row.name.as_str(), cfg.session_prefix.as_str()) {
                    let worktree = match wmap.get(row.name.as_str()) {
                        Some(p) => Some(p.clone()),
                        None => None,
                    };
                    let state = match smap.get(row.name.as_str()) {
                        Some(m) => marker_state(row.state, Some(m.as_str())),
                        None => marker_state(row.state, None),
                    };
                    let ghost before = rows@;
                    rows.push(ListSession { name: row.name, created: row.created, state, worktree });
                    assert(list_views(rows@) =~= list_views(before).push(list_views(rows@).last()));
                }
            },
            None => {},
        }
        i = i + 1;
    }
    assert(views(ls@).take(ls.len() as int) =~= views(ls@));
    let ghost live = list_views(rows@);
    let nlive = rows.len();
    let _ = wmap.len();
    let mut k: usize = 0;
    while k < wmap.len()
        invariant
            k <= wmap.pairs().len(),
            wmap@ == wt,
            nlive <= rows@.len(),
            list_views(rows@).take(nlive as int) == live,
            live.len() == nlive,
            crate::kvmap::keys_unique(wmap.pairs()),
            forall|q: int|
                nlive <= q < rows@.len() ==> {
                    &&& (#[trigger] list_views(rows@)[q]).state == AgentState::Stopped
                    &&& list_views(rows@)[q].created == 0
                    &&& wt.contains_key(list_views(rows@)[q].name)
                    &&& list_views(rows@)[q].worktree == Some(wt[list_views(rows@)[q].name])
                    &&& forall|j: int| 0 <= j < live.len() ==> live[j].name != list_views(rows@)[q].name
                    &&& exists|e: int| 0 <= e < k && wmap.pairs()[e].0 == list_views(rows@)[q].name
                },
            forall|q1: int, q2: int|
                nlive <= q1 < q2 < rows@.len() ==> (#[trigger] list_views(rows@)[q1]).name != (#[trigger] list_views(rows@)[q2]).name,
            forall|e: int|
                0 <= e < k ==> exists|q: int| 0 <= q < rows@.len() && list_views(rows@)[q].name == #[trigger] wmap.pairs()[e].0,
        decreases wmap.pairs().len() - k,
    {
        let (name, path) = wmap.entry(k);
        let present = has_row(&rows, name.as_str());
        let ghost before = rows@;
        if !present {
            proof {
                assert forall|j: int| 0 <= j < live.len() implies live[j].name != name@ by {
                    assert(list_views(before).take(nlive as int)[j] == list_views(before)[j]);
                    assert(list_views(before)[j].name == before[j].name@);
                }
                assert forall|q: int| nlive <= q < before.len() implies list_views(before)[q].name != name@ by {
                    assert(list_views(before)[q].name == before[q].name@);
                    let e = choose|e: int| 0 <= e < k && wmap.pairs()[e].0 == list_views(before)[q].name;
                    assert(wmap.pairs()[e].0 != wmap.pairs()[k as int].0);
                }
            }
            rows.push(ListSession { name: name.clone(), created: 0, state: AgentState::Stopped, worktree: Some(path.clone()) });
            proof {
                assert(list_views(rows@).take(nlive as int) =~= list_views(before).take(nlive as int));
                assert forall|q1: int, q2: int|
                    nlive <= q1 < q2 < rows@.len() implies (#[trigger] list_views(rows@)[q1]).name != (#[trigger] list_views(rows@)[q2]).name by {
                    assert(list_views(rows@)[q1] == list_views(before)[q1]);
                    if q2 < before.len() {
                        assert(list_views(rows@)[q2] == list_views(before)[q2]);
                    } else {
                        assert(list_views(rows@)[q2].name == name@);
                    }
                }
                assert forall|q: int| nlive <= q < rows@.len() implies {
                    &&& (#[trigger] list_views(rows@)[q]).state == AgentState::Stopped
                    &&& list_views(rows@)[q].created == 0
                    &&& wt.contains_key(list_views(rows@)[q].name)
                    &&& list_views(rows@)[q].worktree == Some(wt[list_views(rows@)[q].name])
                    &&& forall|j: int| 0 <= j < live.len() ==> live[j].name != list_views(rows@)[q].name
                    &&& exists|e: int| 0 <= e < k + 1 && wmap.pairs()[e].0 == list_views(rows@)[q].name
                } by {
                    if q < before.len() {
                        assert(list_views(rows@)[q] == list_views(before)[q]);
                        let e = choose|e: int| 0 <= e < k && wmap.pairs()[e].0 == list_views(before)[q].name;
                        assert(wmap.pairs()[e].0 == list_views(rows@)[q].name);
                    } else {
                        assert(wmap.pairs()[k as int].0 == list_views(rows@)[q].name);
                    }
                }
                assert forall|e: int| 0 <= e < k + 1 implies exists|q: int| 0 <= q < rows@.len() && list_views(rows@)[q].name == #[trigger] wmap.pairs()[e].0 by {
                    if e < k {
                        let q = choose|q: int| 0 <= q < before.len() && list_views(before)[q].name == wmap.pairs()[e].0;
                        assert(list_views(rows@)[q] == list_views(before)[q]);
                    } else {
                        assert(list_views(rows@)[before.len() as int].name == wmap.pairs()[e].0);
                    }
                }
            }
        } else {
            proof {
                let q = choose|q: int| 0 <= q < rows@.len() && rows@[q].name@ == name@;
                assert(list_views(rows@)[q].name == wmap.pairs()[k as int].0);
                assert forall|q: int| nlive <= q < rows@.len() implies exists|e: int| 0 <= e < k + 1 && wmap.pairs()[e].0 == (#[trigger] list_views(rows@)[q]).name by {
                    let e = choose|e: int| 0 <= e < k && wmap.pairs()[e].0 == list_views(rows@)[q].name;
                }
            }
        }
        k = k + 1;
    }
    proof {
        assert forall|key: Seq<char>| #[trigger] wt.contains_key(key) implies exists|q: int| 0 <= q < list_views(rows@).len() && list_views(rows@)[q].name == key by {
            wmap.lemma_dom(key);
            let e = choose|e: int| 0 <= e < wmap.pairs().len() && wmap.pairs()[e].0 == key;
            let q = choose|q: int| 0 <= q < rows@.len() && list_views(rows@)[q].name == wmap.pairs()[e].0;
        }
    }
    (rows, now)
}

/// One agent of the JSON listing: bare name, status word, branch, uptime
/// in seconds (none for a stopped agent) and the session's creation epoch.
#[derive(Debug)]
pub struct ListJson {
    pub name: String,
    pub status: String,
    pub branch: String,
    pub uptime_secs: Option<i64>,
    pub session_created_epoch: i64,
}

/// The status word of a state.
pub open spec fn list_state_word(s: AgentState) -> Seq<char> {
    match s {
        AgentState::Attached => "attached"@,
        AgentState::Detached => "detached"@,
        AgentState::Idle => "idle"@,
        AgentState::Stopped => "stopped"@,
    }
}

/// The JSON record of one row: the name without the prefix, the branch is
/// the session name, uptime counted from creation to `remote_now`.
pub open spec fn json_record_ok(j: ListJson, s: ListSessionView, remote_now: i64, prefix: Seq<char>) -> bool {
    &&& j.name@ == unqualified(s.name, prefix)
    &&& j.status@ == list_state_word(s.state)
    &&& j.branch@ == prefix + unqualified(s.name, prefix)
    &&& j.uptime_secs == (if s.state == AgentState::Stopped {
        None
    } else {
        Some(remote_now.wrapping_sub(s.created))
    })
    &&& j.session_created_epoch == s.created
}

/// The JSON records of the rows, in order.
pub fn json_sessions(sessions: &Vec<ListSession>, remote_now: i64, cfg: &Config) -> (r: Vec<ListJson>)
    ensures
        r@.len() == sessions@.len(),
        forall|i: int| 0 <= i < r@.len() ==> json_record_ok(#[trigger] r@[i], sessions@[i]@, remote_now, cfg.session_prefix@),
{
    let mut out: Vec<ListJson> = Vec::new();
    let mut i: usize = 0;
    while i < sessions.len()
        invariant
            i <= sessions.len(),
            out@.len() == i,
            forall|k: int| 0 <= k < i ==> json_record_ok(#[trigger] out@[k], sessions@[k]@, remote_now, cfg.session_prefix@),
        decreases sessions.len() - i,
    {
        let s = &sessions[i];
        let a = AgentRef::from_qualified(s.name.as_str(), cfg);
        let status = match s.state {
            AgentState::Attached => "attached",
            AgentState::Detached => "detached",
            AgentState::Idle => "idle",
            AgentState::Stopped => "stopped",
        };
        let uptime = if s.state == AgentState::Stopped {
            None
        } else {
            Some(remote_now.wrapping_sub(s.created))
        };
        out.push(ListJson {
            name: owned(a.name()),
            status: owned(status),
            branch: a.branch_name(),
            uptime_secs: uptime,
            session_created_epoch: s.created,
        });
        i = i + 1;
    }
    out
}

/// The table row of a list row: detached and idle agents show as running,
/// idle ones marked idle; `list` does not probe activity, so the row's
/// creation time stands in that field.
pub fn table_session(s: &ListSession) -> (r: TableSession)
    ensures
        r.name@ == s.name@,
        r.created == s.created,
        r.activity == s.created,
        r.state == match s.state {
            AgentState::Attached => SessionState::Attached,
            AgentState::Detached | AgentState::Idle => SessionState::Running,
            AgentState::Stopped => SessionState::Stopped,
        },
        r.idle == match s.state {
            AgentState::Idle => IdleState::Idle,
            AgentState::Stopped => IdleState::Stopped,
            _ => IdleState::Working,
        },
        match (r.worktree, s.worktree) {
            (Some(a), Some(b)) => a@ == b@,
            (None, None) => true,
            _ => false,
        },
{
    let (state, idle) = match s.state {
        AgentState::Attached => (SessionState::Attached, IdleState::Working),
        AgentState::Detached => (SessionState::Running, IdleState::Working),
        AgentState::Idle => (SessionState::Running, IdleState::Idle),
        AgentState::Stopped => (SessionState::Stopped, IdleState::Stopped),
    };
    let worktree = match &s.worktree {
        Some(w) => Some(w.clone()),
        None => None,
    };
    TableSession { name: s.name.clone(), created: s.created, activity: s.created, state, idle, worktree }
}

} // verus!
