//! `skulk status`: one agent's state, uptime, branch and diff summary, from
//! a single SSH round-trip.

use vstd::prelude::*;
use crate::agent_ref::AgentRef;
use crate::config::Config;
use crate::display::{format_uptime, green_code, yellow_code, bold_code, reset_code, uptime_spec};
use crate::error::{is_tmux_no_server, ErrorView, SkulkError};
use crate::inventory::{
    get_worktree_map, parse_sessions, resolve_agent_state, resolve_agent_state_spec,
    sessions_of_lines, session_views, worktree_map_spec, AgentState, SessionView,
};
use crate::text::{
    chars_eq, contains, find_line, find_line_exec, lines, lines_of, lowercase, nat_dec, owned,
    parse_i64, parse_i64_spec, parse_u32, parse_u32_spec, remove_all, remove_all_str, split_char,
    split_on, split_once_char, split_once_spec, to_chars, trim, trim_str, u64_to_dec, views,
    contains_str, all_digits, is_first_index, is_ws, lemma_contains_prefix, lemma_first_index_unique,
    lemma_lacks_char, lemma_split_on_none, lemma_split_on_sep, lemma_trim_plain,
};
use crate::util::{extract_section, extract_section_spec};

verus! {

/// One agent's status, ready for rendering.
#[derive(Debug)]
pub struct StatusView {
    pub display_name: String,
    pub state: AgentState,
    /// `None` when the session is stopped: no tmux creation time to measure from.
    pub uptime: Option<String>,
    pub branch: String,
    pub default_branch: String,
    pub commits_ahead: u32,
    pub files_changed: u32,
    pub insertions: u32,
    pub deletions: u32,
    pub worktree: Option<String>,
}

/// The view of an optional owned text.
pub open spec fn opt_string(o: Option<String>) -> Option<Seq<char>> {
    match o {
        Some(s) => Some(s@),
        None => None,
    }
}

/// The remote clock in a probe's output: the first line holding
/// `__EPOCH__`, with the markers removed and trimmed, read as an integer.
pub open spec fn remote_epoch_spec(output: Seq<char>) -> Option<i64> {
    match find_line(lines(output), "__EPOCH__"@) {
        Some(l) => parse_i64_spec(trim(remove_all(l, "__EPOCH__"@))),
        None => None,
    }
}

/// The remote clock reported as `__EPOCH__<n>__EPOCH__`, if it parses.
pub fn parse_remote_epoch(output: &str) -> (r: Option<i64>)
    ensures
        r == remote_epoch_spec(output@),
{
    let ls = lines_of(output);
    match find_line_exec(&ls, "__EPOCH__") {
        Some(l) => {
            proof {
                reveal_strlit("__EPOCH__");
            }
            let stripped = remove_all_str(l.as_str(), "__EPOCH__");
            parse_i64(trim_str(stripped.as_str()).as_str())
        },
        None => None,
    }
}

/// One comma-separated piece of a `git diff --stat` summary applied to the
/// counts (files, insertions, deletions): `<n> <what>` sets the count its
/// word names; anything else leaves them.
pub open spec fn diff_stat_step(acc: (u32, u32, u32), part: Seq<char>) -> (u32, u32, u32) {
    match split_once_spec(trim(part), ' ') {
        Some(p) => match parse_u32_spec(p.0) {
            Some(n) => if contains(p.1, "insertion"@) {
                (acc.0, n, acc.2)
            } else if contains(p.1, "deletion"@) {
                (acc.0, acc.1, n)
            } else if contains(p.1, "file"@) {
                (n, acc.1, acc.2)
            } else {
                acc
            },
            None => acc,
        },
        None => acc,
    }
}

/// The pieces applied in order, starting from zeros.
pub open spec fn diff_stat_fold(parts: Seq<Seq<char>>) -> (u32, u32, u32)
    decreases parts.len(),
{
    if parts.len() == 0 {
        (0, 0, 0)
    } else {
        diff_stat_step(diff_stat_fold(parts.drop_last()), parts.last())
    }
}

/// Files changed, insertions and deletions of a `git diff --stat` summary
/// line such as ` 5 files changed, 120 insertions(+), 34 deletions(-)`;
/// absent counts are zero.
pub fn parse_diff_stat(line: &str) -> (r: (u32, u32, u32))
    ensures
        r == diff_stat_fold(split_on(line@, ',')),
{
    let parts = split_char(line, ',');
    let mut acc: (u32, u32, u32) = (0, 0, 0);
    let mut i: usize = 0;
    assert(views(parts@).take(0) =~= Seq::<Seq<char>>::empty());
    while i < parts.len()
        invariant
            i <= parts.len(),
            views(parts@) == split_on(line@, ','),
            acc == diff_stat_fold(views(parts@).take(i as int)),
        decreases parts.len() - i,
    {
        let ghost t = views(parts@).take(i + 1);
        assert(t.drop_last() =~= views(parts@).take(i as int));
        assert(t.last() == parts@[i as int]@);
        let part = trim_str(parts[i].as_str());
        match split_once_char(part.as_str(), ' ') {
            Some((num, rest)) => match parse_u32(num.as_str()) {
                Some(n) => {
                    if contains_str(rest.as_str(), "insertion") {
                        acc = (acc.0, n, acc.2);
                    } else if contains_str(rest.as_str(), "deletion") {
                        acc = (acc.0, acc.1, n);
                    } else if contains_str(rest.as_str(), "file") {
                        acc = (n, acc.1, acc.2);
                    }
                },
                None => {},
            },
            None => {},
        }
        i = i + 1;
    }
    assert(views(parts@).take(parts.len() as int) =~= views(parts@));
    acc
}

/// Number text that `str::parse::<u32>` accepts is digits, perhaps after a
/// `+`: it has no space and no whitespace at either end.
proof fn lemma_number_text_plain(d: Seq<char>)
    requires
        parse_u32_spec(d) is Some,
    ensures
        d.len() > 0,
        !is_ws(d[0]),
        !is_ws(d.last()),
        !d.contains(' '),
{
    if d[0] == '+' {
        let body = d.drop_first();
        assert(all_digits(body));
        assert forall|k: int| 0 < k < d.len() implies crate::text::is_digit(#[trigger] d[k]) by {
            assert(d[k] == body[k - 1]);
        }
        assert(d.last() == d[d.len() - 1]);
    } else {
        assert(all_digits(d));
        assert(d.last() == d[d.len() - 1]);
    }
    if d.contains(' ') {
        let k = choose|k: int| 0 <= k < d.len() && d[k] == ' ';
        if k > 0 {
            assert(crate::text::is_digit(d[k]));
        }
    }
}

/// A summary piece ` <n> <word>` trims and splits into the number text and
/// the word.
proof fn lemma_diff_piece_split(d: Seq<char>, w: Seq<char>)
    requires
        parse_u32_spec(d) is Some,
        w.len() > 0,
        !is_ws(w.last()),
    ensures
        split_once_spec(trim(" "@ + d + " "@ + w), ' ') == Some((d, w)),
{
    reveal_strlit(" ");
    lemma_number_text_plain(d);
    let t = d + " "@ + w;
    assert((" "@ + d + " "@ + w).drop_first() =~= t);
    assert(crate::text::trim_start(" "@ + d + " "@ + w) == crate::text::trim_start(t));
    assert(t[0] == d[0]);
    assert(t.last() == w.last());
    lemma_trim_plain(t);
    assert(trim(" "@ + d + " "@ + w) == t) by {
        assert(crate::text::trim_start(t) == t);
    }
    assert(t[d.len() as int] == ' ');
    assert forall|j: int| 0 <= j < d.len() implies t[j] != ' ' by {
        assert(t[j] == d[j]);
        if d[j] == ' ' {
            assert(d.contains(' '));
        }
    }
    assert(is_first_index(t, ' ', d.len() as int));
    lemma_first_index_unique(t, ' ', d.len() as int);
    assert(t.take(d.len() as int) =~= d);
    assert(t.skip(d.len() as int + 1) =~= w);
}

/// The count word of a `git diff --stat` summary piece.
pub open spec fn stat_word(what: int, plural: bool) -> Seq<char> {
    if what == 0 {
        if plural { "files changed"@ } else { "file changed"@ }
    } else if what == 1 {
        if plural { "insertions(+)"@ } else { "insertion(+)"@ }
    } else {
        if plural { "deletions(-)"@ } else { "deletion(-)"@ }
    }
}

/// Reading one summary piece ` <n> <word>` sets the count its word names
/// to `n` and keeps the other two, singular or plural alike: files for
/// `file(s) changed`, insertions for `insertion(s)(+)`, deletions for
/// `deletion(s)(-)`.
pub proof fn lemma_diff_stat_piece(acc: (u32, u32, u32), d: Seq<char>, n: u32, what: int, plural: bool)
    requires
        parse_u32_spec(d) == Some(n),
        0 <= what <= 2,
    ensures
        diff_stat_step(acc, " "@ + d + " "@ + stat_word(what, plural)) == if what == 0 {
            (n, acc.1, acc.2)
        } else if what == 1 {
            (acc.0, n, acc.2)
        } else {
            (acc.0, acc.1, n)
        },
{
    reveal_strlit("files changed");
    reveal_strlit("file changed");
    reveal_strlit("insertions(+)");
    reveal_strlit("insertion(+)");
    reveal_strlit("deletions(-)");
    reveal_strlit("deletion(-)");
    reveal_strlit("insertion");
    reveal_strlit("deletion");
    reveal_strlit("file");
    reveal_strlit("s changed");
    reveal_strlit(" changed");
    reveal_strlit("s(+)");
    reveal_strlit("(+)");
    reveal_strlit("s(-)");
    reveal_strlit("(-)");
    let w = stat_word(what, plural);
    assert(w.last() == w[w.len() - 1]);
    lemma_diff_piece_split(d, w);
    if what == 0 {
        // No `o` in the word, which both other keywords have.
        assert(!w.contains('o')) by {
            if w.contains('o') {
                let k = choose|k: int| 0 <= k < w.len() && w[k] == 'o';
                assert(w[k] == 'o');
            }
        }
        assert("insertion"@[7] == 'o');
        assert("deletion"@[6] == 'o');
        lemma_lacks_char(w, "insertion"@, 7);
        lemma_lacks_char(w, "deletion"@, 6);
        if plural {
            assert(w =~= "file"@ + "s changed"@);
            lemma_contains_prefix("file"@, "s changed"@);
        } else {
            assert(w =~= "file"@ + " changed"@);
            lemma_contains_prefix("file"@, " changed"@);
        }
    } else if what == 1 {
        if plural {
            assert(w =~= "insertion"@ + "s(+)"@);
            lemma_contains_prefix("insertion"@, "s(+)"@);
        } else {
            assert(w =~= "insertion"@ + "(+)"@);
            lemma_contains_prefix("insertion"@, "(+)"@);
        }
    } else {
        // No `r` in the word, which `insertion` has.
        assert(!w.contains('r')) by {
            if w.contains('r') {
                let k = choose|k: int| 0 <= k < w.len() && w[k] == 'r';
                assert(w[k] == 'r');
            }
        }
        assert("insertion"@[4] == 'r');
        lemma_lacks_char(w, "insertion"@, 4);
        if plural {
            assert(w =~= "deletion"@ + "s(-)"@);
            lemma_contains_prefix("deletion"@, "s(-)"@);
        } else {
            assert(w =~= "deletion"@ + "(-)"@);
            lemma_contains_prefix("deletion"@, "(-)"@);
        }
    }
}

/// A full summary line ` <f> file(s) changed, <i> insertion(s)(+), <d>
/// deletion(s)(-)` reads as files `f`, insertions `i`, deletions `d`,
/// whatever the number of each word.
pub proof fn lemma_diff_stat_summary(
    f: Seq<char>,
    nf: u32,
    pf: bool,
    i: Seq<char>,
    ni: u32,
    pi: bool,
    d: Seq<char>,
    nd: u32,
    pd: bool,
)
    requires
        parse_u32_spec(f) == Some(nf),
        parse_u32_spec(i) == Some(ni),
        parse_u32_spec(d) == Some(nd),
    ensures
        diff_stat_fold(split_on(
            " "@ + f + " "@ + stat_word(0, pf) + ","@ + " "@ + i + " "@ + stat_word(1, pi) + ","@ + " "@ + d + " "@
                + stat_word(2, pd),
            ',',
        )) == (nf, ni, nd),
{
    reveal_strlit(",");
    reveal_strlit(" ");
    reveal_strlit("files changed");
    reveal_strlit("file changed");
    reveal_strlit("insertions(+)");
    reveal_strlit("insertion(+)");
    reveal_strlit("deletions(-)");
    reveal_strlit("deletion(-)");
    let p1 = " "@ + f + " "@ + stat_word(0, pf);
    let p2 = " "@ + i + " "@ + stat_word(1, pi);
    let p3 = " "@ + d + " "@ + stat_word(2, pd);
    lemma_number_text_plain(f);
    lemma_number_text_plain(i);
    lemma_number_text_plain(d);
    assert forall|p: Seq<char>, x: Seq<char>, what: int, pl: bool|
        parse_u32_spec(x) is Some && 0 <= what <= 2 && p == " "@ + x + " "@ + stat_word(what, pl) implies !p.contains(',') by {
        lemma_number_text_plain(x);
        if p.contains(',') {
            let k = choose|k: int| 0 <= k < p.len() && p[k] == ',';
            if 1 <= k < 1 + x.len() {
                assert(p[k] == x[k - 1]);
                if x[k - 1] == ',' {
                    if x[0] == '+' {
                        if k - 1 > 0 {
                            assert(x.drop_first()[k - 2] == x[k - 1]);
                            assert(all_digits(x.drop_first()));
                        }
                    } else {
                        assert(all_digits(x));
                        assert(crate::text::is_digit(x[k - 1]));
                    }
                }
            } else if k >= 2 + x.len() {
                assert(p[k] == stat_word(what, pl)[k - 2 - x.len()]);
            }
        }
    }
    lemma_split_on_none(p1, ',');
    lemma_split_on_none(p2, ',');
    lemma_split_on_none(p3, ',');
    lemma_split_on_sep(p1, p2 + seq![','] + p3, ',');
    lemma_split_on_sep(p2, p3, ',');
    let line = " "@ + f + " "@ + stat_word(0, pf) + ","@ + " "@ + i + " "@ + stat_word(1, pi) + ","@ + " "@ + d + " "@
        + stat_word(2, pd);
    assert(line =~= p1 + seq![','] + (p2 + seq![','] + p3));
    let parts = split_on(line, ',');
    assert(parts =~= seq![p1, p2, p3]);
    lemma_diff_stat_piece((0, 0, 0), f, nf, 0, pf);
    lemma_diff_stat_piece((nf, 0, 0), i, ni, 1, pi);
    lemma_diff_stat_piece((nf, ni, 0), d, nd, 2, pd);
    let s1 = seq![p1];
    let s2 = seq![p1, p2];
    let s3 = seq![p1, p2, p3];
    assert(s1.drop_last() =~= Seq::<Seq<char>>::empty());
    assert(s2.drop_last() =~= s1);
    assert(s3.drop_last() =~= s2);
    assert(diff_stat_fold(Seq::<Seq<char>>::empty()) == (0u32, 0u32, 0u32));
    assert(s1.last() == p1);
    assert(s2.last() == p2);
    assert(s3.last() == p3);
    assert(diff_stat_fold(s1) == diff_stat_step((0u32, 0u32, 0u32), p1));
    assert(diff_stat_fold(s1) == (nf, 0u32, 0u32));
    assert(diff_stat_fold(s2) == (nf, ni, 0u32));
    assert(diff_stat_fold(s3) == (nf, ni, nd));
}

/// The tmux listing format: name, created, activity, attached.
pub open spec fn tmux_format_spec() -> Seq<char> {
    "#{session_name}\t#{session_created}\t#{session_activity}\t#{session_attached}"@
}

/// The status probe: remote clock, tmux sessions, worktrees, whether the
/// branch exists, the Stop-hook marker's mtime, commits ahead and the diff
/// summary, each between markers.
pub open spec fn status_command_spec(base: Seq<char>, default: Seq<char>, session: Seq<char>) -> Seq<char> {
    "echo __EPOCH__$(date +%s)__EPOCH__ && echo __TMUX_START__ && tmux list-sessions -F '"@
        + tmux_format_spec() + "' 2>&1 || true && echo __TMUX_END__ && echo __WORKTREES_START__ && cd "@
        + base + " && git worktree list --porcelain 2>/dev/null || true && echo __WORKTREES_END__ && echo __BRANCH_EXISTS_START__ && cd "@
        + base + " && (git show-ref --verify --quiet refs/heads/"@ + session
        + " && echo yes || echo no) && echo __BRANCH_EXISTS_END__ && echo __STATE_START__ && { [ -f ~/.skulk/state/"@
        + session + " ] && stat -c %Y ~/.skulk/state/"@ + session
        + "; } 2>/dev/null; echo __STATE_END__ && echo __REVCOUNT_START__ && cd "@ + base
        + " && git rev-list --count "@ + default + ".."@ + session
        + " 2>/dev/null || true && echo __REVCOUNT_END__ && echo __DIFFSTAT_START__ && cd "@ + base
        + " && (git diff --stat "@ + default + "..."@ + session
        + " 2>/dev/null | tail -1) || true && echo __DIFFSTAT_END__"@
}

/// The single SSH command that gathers everything `status` shows.
pub fn status_command(name: &str, cfg: &Config) -> (r: String)
    ensures
        r@ == status_command_spec(cfg.base_path@, cfg.default_branch@, cfg.session_prefix@ + name@),
{
    let session = AgentRef::new(name, cfg).session_name();
    let base = cfg.base_path.as_str();
    let default = cfg.default_branch.as_str();
    let mut s = owned("echo __EPOCH__$(date +%s)__EPOCH__ && echo __TMUX_START__ && tmux list-sessions -F '");
    s.append("#{session_name}\t#{session_created}\t#{session_activity}\t#{session_attached}");
    s.append("' 2>&1 || true && echo __TMUX_END__ && echo __WORKTREES_START__ && cd ");
    s.append(base);
    s.append(" && git worktree list --porcelain 2>/dev/null || true && echo __WORKTREES_END__ && echo __BRANCH_EXISTS_START__ && cd ");
    s.append(base);
    s.append(" && (git show-ref --verify --quiet refs/heads/");
    s.append(session.as_str());
    s.append(" && echo yes || echo no) && echo __BRANCH_EXISTS_END__ && echo __STATE_START__ && { [ -f ~/.skulk/state/");
    s.append(session.as_str());
    s.append(" ] && stat -c %Y ~/.skulk/state/");
    s.append(session.as_str());
    s.append("; } 2>/dev/null; echo __STATE_END__ && echo __REVCOUNT_START__ && cd ");
    s.append(base);
    s.append(" && git rev-list --count ");
    s.append(default);
    s.append("..");
    s.append(session.as_str());
    s.append(" 2>/dev/null || true && echo __REVCOUNT_END__ && echo __DIFFSTAT_START__ && cd ");
    s.append(base);
    s.append(" && (git diff --stat ");
    s.append(default);
    s.append("...");
    s.append(session.as_str());
    s.append(" 2>/dev/null | tail -1) || true && echo __DIFFSTAT_END__");
    s
}

/// Whether tmux said there is no server (or no session) on some line.
pub open spec fn tmux_down(ls: Seq<Seq<char>>) -> bool {
    exists|i: int|
        0 <= i < ls.len() && (contains(lowercase(ls[i]), "no server running"@) || contains(
            lowercase(ls[i]),
            "no sessions"@,
        ))
}

/// The tmux section of a status probe; empty when tmux reports no server.
pub open spec fn status_tmux_section(raw: Seq<char>) -> Seq<char> {
    let t = extract_section_spec(raw, "__TMUX_START__\n"@, "\n__TMUX_END__"@);
    if tmux_down(lines(t)) {
        Seq::empty()
    } else {
        t
    }
}

/// The first session of `ss` named `name`.
pub open spec fn find_session(ss: Seq<SessionView>, name: Seq<char>) -> Option<SessionView>
    decreases ss.len(),
{
    if ss.len() == 0 {
        None
    } else if ss[0].name == name {
        Some(ss[0])
    } else {
        find_session(ss.drop_first(), name)
    }
}

/// The probed session of the agent, if tmux lists it.
pub open spec fn status_session(raw: Seq<char>, session: Seq<char>) -> Option<SessionView> {
    find_session(sessions_of_lines(lines(status_tmux_section(raw))), session)
}

/// The probed worktree path of the agent, if any.
pub open spec fn status_worktree(raw: Seq<char>, prefix: Seq<char>, session: Seq<char>) -> Option<Seq<char>> {
    let m = worktree_map_spec(
        extract_section_spec(raw, "__WORKTREES_START__\n"@, "\n__WORKTREES_END__"@),
        prefix,
    );
    if m.contains_key(session) {
        Some(m[session])
    } else {
        None
    }
}

/// Whether the probe says the branch exists: some line of its section is
/// `yes` once trimmed.
pub open spec fn status_branch_exists(raw: Seq<char>) -> bool {
    let ls = lines(extract_section_spec(raw, "__BRANCH_EXISTS_START__\n"@, "\n__BRANCH_EXISTS_END__"@));
    exists|i: int| 0 <= i < ls.len() && trim(ls[i]) == "yes"@
}

/// The Stop-hook marker's mtime: the section's first line, trimmed, read as
/// an integer.
pub open spec fn status_state_mtime(raw: Seq<char>) -> Option<i64> {
    let ls = lines(extract_section_spec(raw, "__STATE_START__\n"@, "\n__STATE_END__"@));
    if ls.len() > 0 {
        parse_i64_spec(trim(ls[0]))
    } else {
        None
    }
}

/// Commits ahead of the default branch: the section's first line, trimmed,
/// read as a count; zero when absent or unreadable.
pub open spec fn status_commits(raw: Seq<char>) -> u32 {
    let ls = lines(extract_section_spec(raw, "__REVCOUNT_START__\n"@, "\n__REVCOUNT_END__"@));
    if ls.len() > 0 {
        match parse_u32_spec(trim(ls[0])) {
            Some(n) => n,
            None => 0,
        }
    } else {
        0
    }
}

/// The diff summary line: the section's last line, trimmed, or empty.
pub open spec fn status_diffstat_line(raw: Seq<char>) -> Seq<char> {
    let ls = lines(extract_section_spec(raw, "__DIFFSTAT_START__\n"@, "\n__DIFFSTAT_END__"@));
    if ls.len() > 0 {
        trim(ls.last())
    } else {
        Seq::empty()
    }
}

/// The clock the uptime is measured against: the remote's when it reported
/// one, else the local clock given.
pub open spec fn status_now(raw: Seq<char>, local_now: i64) -> i64 {
    match remote_epoch_spec(raw) {
        Some(n) => n,
        None => local_now,
    }
}

/// The first line of `ls` that is `yes` once trimmed exists.
fn any_yes(ls: &Vec<String>) -> (b: bool)
    ensures
        b == exists|i: int| 0 <= i < ls@.len() && trim(ls@[i]@) == "yes"@,
{
    let yes = to_chars("yes");
    let mut i: usize = 0;
    while i < ls.len()
        invariant
            i <= ls.len(),
            yes@ == "yes"@,
            forall|j: int| 0 <= j < i ==> trim(ls@[j]@) != "yes"@,
        decreases ls.len() - i,
    {
        let t = trim_str(ls[i].as_str());
        let tv = to_chars(t.as_str());
        if chars_eq(tv.as_slice(), yes.as_slice()) {
            return true;
        }
        i = i + 1;
    }
    false
}

/// Whether some line reports tmux has no server.
fn any_tmux_down(ls: &Vec<String>) -> (b: bool)
    ensures
        b == tmux_down(views(ls@)),
{
    let mut i: usize = 0;
    while i < ls.len()
        invariant
            i <= ls.len(),
            forall|j: int|
                0 <= j < i ==> !(contains(lowercase(ls@[j]@), "no server running"@) || contains(
                    lowercase(ls@[j]@),
                    "no sessions"@,
                )),
        decreases ls.len() - i,
    {
        if is_tmux_no_server(ls[i].as_str()) {
            assert(views(ls@)[i as int] == ls@[i as int]@);
            return true;
        }
        i = i + 1;
    }
    proof {
        if tmux_down(views(ls@)) {
            let k = choose|k: int|
                0 <= k < views(ls@).len() && (contains(lowercase(views(ls@)[k]), "no server running"@)
                    || contains(lowercase(views(ls@)[k]), "no sessions"@));
            assert(views(ls@)[k] == ls@[k]@);
        }
    }
    false
}

/// The index of the first session named `name`, agreeing with `find_session`.
fn find_session_index(sessions: &Vec<crate::inventory::Session>, name: &str) -> (r: Option<usize>)
    ensures
        match r {
            Some(k) => k < sessions@.len() && find_session(session_views(sessions@), name@) == Some(
                sessions@[k as int]@,
            ),
            None => find_session(session_views(sessions@), name@) is None,
        },
{
    let ghost svs = session_views(sessions@);
    let sv = to_chars(name);
    let mut i: usize = 0;
    assert(svs.skip(0) =~= svs);
    while i < sessions.len()
        invariant
            i <= sessions.len(),
            svs == session_views(sessions@),
            sv@ == name@,
            find_session(svs, name@) == find_session(svs.skip(i as int), name@),
        decreases sessions.len() - i,
    {
        let ghost rest = svs.skip(i as int);
        assert(rest[0] == sessions@[i as int]@);
        assert(rest.drop_first() =~= svs.skip(i + 1));
        let nv = to_chars(sessions[i].name.as_str());
        if chars_eq(nv.as_slice(), sv.as_slice()) {
            return Some(i);
        }
        i = i + 1;
    }
    assert(svs.skip(sessions.len() as int) =~= Seq::<SessionView>::empty());
    None
}

/// Parse a status probe's output. `NotFound` when the agent has no session,
/// no worktree and no branch; else the agent's state (its tmux state made
/// `Idle` by a fresh Stop-hook marker, or `Stopped` without a session), its
/// uptime against the remote clock (`local_now` when the remote gave none),
/// commits ahead, diff counts and worktree.
pub fn parse_status_output(raw: &str, name: &str, cfg: &Config, local_now: i64) -> (r: Result<StatusView, SkulkError>)
    ensures
        ({
            let session = cfg.session_prefix@ + name@;
            let sess = status_session(raw@, session);
            let wt = status_worktree(raw@, cfg.session_prefix@, session);
            let found = sess is Some || wt is Some || status_branch_exists(raw@);
            &&& !found ==> (r matches Err(e) && e@ == ErrorView::NotFound(
                "Agent '"@ + name@ + "' not found. Check running agents with `skulk list`."@,
            ))
            &&& found ==> (r matches Ok(v) && {
                &&& v.display_name@ == name@
                &&& v.branch@ == session
                &&& v.default_branch@ == cfg.default_branch@
                &&& v.commits_ahead == status_commits(raw@)
                &&& (v.files_changed, v.insertions, v.deletions) == diff_stat_fold(
                    split_on(status_diffstat_line(raw@), ','),
                )
                &&& opt_string(v.worktree) == wt
                &&& match sess {
                    Some(s) => {
                        &&& v.state == resolve_agent_state_spec(s.state, s.activity, status_state_mtime(raw@))
                        &&& opt_string(v.uptime) == Some(
                            uptime_spec(status_now(raw@, local_now).wrapping_sub(s.created) as int),
                        )
                    },
                    None => v.state == AgentState::Stopped && v.uptime is None,
                }
            })
        }),
{
    let agent = AgentRef::new(name, cfg);
    let session = agent.session_name();
    let branch = agent.branch_name();
    let now = match parse_remote_epoch(raw) {
        Some(n) => n,
        None => local_now,
    };

    let tmux_raw = extract_section(raw, "__TMUX_START__\n", "\n__TMUX_END__");
    let tmux_lines = lines_of(tmux_raw.as_str());
    let tmux_output = if any_tmux_down(&tmux_lines) {
        String::new()
    } else {
        tmux_raw
    };
    let sessions = parse_sessions(tmux_output.as_str());
    let found = find_session_index(&sessions, session.as_str());
    let ghost svs = session_views(sessions@);

    let wt_raw = extract_section(raw, "__WORKTREES_START__\n", "\n__WORKTREES_END__");
    let wmap = get_worktree_map(wt_raw.as_str(), cfg);
    let worktree = match wmap.get(session.as_str()) {
        Some(p) => Some(p.clone()),
        None => None,
    };

    let be_raw = extract_section(raw, "__BRANCH_EXISTS_START__\n", "\n__BRANCH_EXISTS_END__");
    let be_lines = lines_of(be_raw.as_str());
    let branch_exists = any_yes(&be_lines);
    proof {
        let bl = lines(extract_section_spec(raw@, "__BRANCH_EXISTS_START__\n"@, "\n__BRANCH_EXISTS_END__"@));
        assert(views(be_lines@) == bl);
        if branch_exists {
            let k = choose|k: int| 0 <= k < be_lines@.len() && trim(be_lines@[k]@) == "yes"@;
            assert(bl[k] == be_lines@[k]@);
        }
        if status_branch_exists(raw@) {
            let k = choose|k: int| 0 <= k < bl.len() && trim(bl[k]) == "yes"@;
            assert(bl[k] == be_lines@[k]@);
        }
    }

    if found.is_none() && worktree.is_none() && !branch_exists {
        let mut m = owned("Agent '");
        m.append(name);
        m.append("' not found. Check running agents with `skulk list`.");
        return Err(SkulkError::NotFound(m));
    }

    let state_raw = extract_section(raw, "__STATE_START__\n", "\n__STATE_END__");
    let state_lines = lines_of(state_raw.as_str());
    let state_mtime = if state_lines.len() > 0 {
        parse_i64(trim_str(state_lines[0].as_str()).as_str())
    } else {
        None
    };

    let rc_raw = extract_section(raw, "__REVCOUNT_START__\n", "\n__REVCOUNT_END__");
    let rc_lines = lines_of(rc_raw.as_str());
    let commits_ahead = if rc_lines.len() > 0 {
        match parse_u32(trim_str(rc_lines[0].as_str()).as_str()) {
            Some(n) => n,
            None => 0,
        }
    } else {
        0
    };

    let ds_raw = extract_section(raw, "__DIFFSTAT_START__\n", "\n__DIFFSTAT_END__");
    let ds_lines = lines_of(ds_raw.as_str());
    let diffstat_line = if ds_lines.len() > 0 {
        trim_str(ds_lines[ds_lines.len() - 1].as_str())
    } else {
        String::new()
    };
    let (files_changed, insertions, deletions) = parse_diff_stat(diffstat_line.as_str());

    proof {
        let session_v = cfg.session_prefix@ + name@;
        assert(session@ == session_v);
        assert(tmux_output@ == status_tmux_section(raw@));
        assert(svs == sessions_of_lines(lines(status_tmux_section(raw@))));
        assert(opt_string(worktree) == status_worktree(raw@, cfg.session_prefix@, session_v));
        assert(branch_exists == status_branch_exists(raw@));
        assert(state_mtime == status_state_mtime(raw@));
        assert(commits_ahead == status_commits(raw@));
        assert(diffstat_line@ == status_diffstat_line(raw@));
        assert(now == status_now(raw@, local_now));
    }
    let (state, uptime) = match found {
        Some(k) => {
            let s = &sessions[k];
            let st = resolve_agent_state(&s.state, s.activity, state_mtime);
            (st, Some(format_uptime(now.wrapping_sub(s.created), 0)))
        },
        None => (AgentState::Stopped, None),
    };
    Ok(StatusView {
        display_name: owned(agent.name()),
        state,
        uptime,
        branch,
        default_branch: cfg.default_branch.clone(),
        commits_ahead,
        files_changed,
        insertions,
        deletions,
        worktree,
    })
}

/// The status word of an agent state.
pub open spec fn state_word(s: AgentState) -> Seq<char> {
    match s {
        AgentState::Attached => "attached"@,
        AgentState::Detached => "detached"@,
        AgentState::Idle => "idle"@,
        AgentState::Stopped => "stopped"@,
    }
}

/// The status word, coloured when `color`: idle in bold green (it waits
/// for you), attached and detached in green, stopped in yellow.
pub open spec fn state_display(s: AgentState, color: bool) -> Seq<char> {
    if !color {
        state_word(s)
    } else {
        match s {
            AgentState::Idle => green_code() + bold_code() + state_word(s) + reset_code(),
            AgentState::Attached | AgentState::Detached => green_code() + state_word(s) + reset_code(),
            AgentState::Stopped => yellow_code() + state_word(s) + reset_code(),
        }
    }
}

/// The files line: `0 changed`, or `<f> changed (+<i> -<d>)`.
pub open spec fn files_text(files: u32, ins: u32, del: u32) -> Seq<char> {
    if files == 0 {
        "0 changed"@
    } else {
        nat_dec(files as nat) + " changed (+"@ + nat_dec(ins as nat) + " -"@ + nat_dec(del as nat) + ")"@
    }
}

/// An optional text, or `-` when absent.
pub open spec fn or_dash(o: Option<Seq<char>>) -> Seq<char> {
    match o {
        Some(s) => s,
        None => "-"@,
    }
}

/// The rendered status block.
pub open spec fn status_text(v: &StatusView, color: bool) -> Seq<char> {
    "Agent:    "@ + v.display_name@ + "\nStatus:   "@ + state_display(v.state, color) + "\nUptime:   "@
        + or_dash(opt_string(v.uptime)) + "\nBranch:   "@ + v.branch@ + "\nCommits:  "@ + nat_dec(
        v.commits_ahead as nat,
    ) + " ahead of "@ + v.default_branch@ + "\nFiles:    "@ + files_text(
        v.files_changed,
        v.insertions,
        v.deletions,
    ) + "\nWorktree: "@ + or_dash(opt_string(v.worktree))
}

/// Render a status block, with colour when `color`.
pub fn format_status_with_color(view: &StatusView, color: bool) -> (r: String)
    ensures
        r@ == status_text(view, color),
{
    let word = match view.state {
        AgentState::Attached => "attached",
        AgentState::Detached => "detached",
        AgentState::Idle => "idle",
        AgentState::Stopped => "stopped",
    };
    let status = if !color {
        owned(word)
    } else {
        match view.state {
            AgentState::Idle => {
                let mut x = owned("\x1b[32m");
                x.append("\x1b[1m");
                x.append(word);
                x.append("\x1b[0m");
                x
            },
            AgentState::Stopped => {
                let mut x = owned("\x1b[33m");
                x.append(word);
                x.append("\x1b[0m");
                x
            },
            _ => {
                let mut x = owned("\x1b[32m");
                x.append(word);
                x.append("\x1b[0m");
                x
            },
        }
    };
    let files = if view.files_changed == 0 {
        owned("0 changed")
    } else {
        let mut x = u64_to_dec(view.files_changed as u64);
        x.append(" changed (+");
        x.append(u64_to_dec(view.insertions as u64).as_str());
        x.append(" -");
        x.append(u64_to_dec(view.deletions as u64).as_str());
        x.append(")");
        x
    };
    let mut s = owned("Agent:    ");
    s.append(view.display_name.as_str());
    s.append("\nStatus:   ");
    s.append(status.as_str());
    s.append("\nUptime:   ");
    match &view.uptime {
        Some(u) => s.append(u.as_str()),
        None => s.append("-"),
    }
    s.append("\nBranch:   ");
    s.append(view.branch.as_str());
    s.append("\nCommits:  ");
    s.append(u64_to_dec(view.commits_ahead as u64).as_str());
    s.append(" ahead of ");
    s.append(view.default_branch.as_str());
    s.append("\nFiles:    ");
    s.append(files.as_str());
    s.append("\nWorktree: ");
    match &view.worktree {
        Some(w) => s.append(w.as_str()),
        None => s.append("-"),
    }
    s
}

/// The warning printed when the remote clock could not be read.
pub fn clock_fallback_warning() -> (r: &'static str)
    ensures
        r@ == "Warning: could not parse remote clock; using local time."@,
{
    "Warning: could not parse remote clock; using local time."
}

} // verus!
