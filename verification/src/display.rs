//! Terminal rendering: colour helpers, the agent table and the gc summary.

use vstd::prelude::*;
use crate::agent_ref::unqualified;
use crate::config::Config;
use crate::inventory::{parse_tmux_line, tmux_fields, GcOrphans};
use crate::text::{
    chars_eq, lines, lines_of, to_chars, i64_to_dec, int_dec, join, join_exec, owned, pad_right, pad_right_exec, strip_prefix_str,
    u64_to_dec, nat_dec, views,
};

verus! {

/// Terminal escape: green foreground.
pub open spec fn green_code() -> Seq<char> {
    "\x1b[32m"@
}

/// Terminal escape: yellow foreground.
pub open spec fn yellow_code() -> Seq<char> {
    "\x1b[33m"@
}

/// Terminal escape: bold.
pub open spec fn bold_code() -> Seq<char> {
    "\x1b[1m"@
}

/// Terminal escape: dim.
pub open spec fn dim_code() -> Seq<char> {
    "\x1b[2m"@
}

/// Terminal escape: reset attributes.
pub open spec fn reset_code() -> Seq<char> {
    "\x1b[0m"@
}

/// The success marker's text.
pub open spec fn mark_ok(color: bool) -> Seq<char> {
    if color { "\x1b[32m\u{2713}\x1b[0m"@ } else { "[ok]"@ }
}

/// The failure marker's text.
pub open spec fn mark_fail(color: bool) -> Seq<char> {
    if color { "\x1b[31m\u{2717}\x1b[0m"@ } else { "[FAIL]"@ }
}

/// A success marker.
pub fn checkmark(color: bool) -> (r: &'static str)
    ensures
        r@ == mark_ok(color),
{
    if color {
        "\x1b[32m\u{2713}\x1b[0m"
    } else {
        "[ok]"
    }
}

/// A failure marker.
pub fn crossmark(color: bool) -> (r: &'static str)
    ensures
        r@ == mark_fail(color),
{
    if color {
        "\x1b[31m\u{2717}\x1b[0m"
    } else {
        "[FAIL]"
    }
}

/// A warning marker.
pub fn warnmark(color: bool) -> (r: &'static str)
    ensures
        r@ == (if color { "\x1b[33m!\x1b[0m"@ } else { "[warn]"@ }),
{
    if color {
        "\x1b[33m!\x1b[0m"
    } else {
        "[warn]"
    }
}

/// `text` wrapped in `code` and a reset when `color`, else unchanged.
pub open spec fn styled(code: Seq<char>, text: Seq<char>, color: bool) -> Seq<char> {
    if color {
        code + text + reset_code()
    } else {
        text
    }
}

/// `text` in bold when `color`.
pub fn bold(text: &str, color: bool) -> (r: String)
    ensures
        r@ == styled(bold_code(), text@, color),
{
    if color {
        let mut r = owned("\x1b[1m");
        r.append(text);
        r.append("\x1b[0m");
        r
    } else {
        owned(text)
    }
}

/// `text` dimmed when `color`.
pub fn dim(text: &str, color: bool) -> (r: String)
    ensures
        r@ == styled(dim_code(), text@, color),
{
    if color {
        let mut r = owned("\x1b[2m");
        r.append(text);
        r.append("\x1b[0m");
        r
    } else {
        owned(text)
    }
}

/// `text` in green when `color`.
pub fn green(text: &str, color: bool) -> (r: String)
    ensures
        r@ == styled(green_code(), text@, color),
{
    if color {
        let mut r = owned("\x1b[32m");
        r.append(text);
        r.append("\x1b[0m");
        r
    } else {
        owned(text)
    }
}

/// The tmux-level state of an agent session.
#[derive(Debug, Clone, Copy, PartialEq, Eq, Structural)]
pub enum SessionState {
    Attached,
    Running,
    Stopped,
}

/// Whether the agent is processing a turn.
#[derive(Debug, Clone, Copy, PartialEq, Eq, Structural)]
pub enum IdleState {
    /// Agent is actively processing (no stop marker, or activity newer than marker).
    Working,
    /// Agent has finished its last turn and is awaiting input.
    Idle,
    /// tmux session is gone; agent is not running.
    Stopped,
}

/// One agent row of the table.
#[derive(Debug)]
pub struct Session {
    pub name: String,
    pub created: i64,
    /// tmux `session_activity` epoch: last time any pane output changed.
    pub activity: i64,
    pub state: SessionState,
    pub idle: IdleState,
    pub worktree: Option<String>,
}

/// The mathematical form of a table `Session`.
pub struct SessionView {
    pub name: Seq<char>,
    pub created: i64,
    pub activity: i64,
    pub state: SessionState,
    pub idle: IdleState,
    pub worktree: Option<Seq<char>>,
}

impl View for Session {
    type V = SessionView;

    open spec fn view(&self) -> SessionView {
        SessionView {
            name: self.name@,
            created: self.created,
            activity: self.activity,
            state: self.state,
            idle: self.idle,
            worktree: match self.worktree {
                Some(w) => Some(w@),
                None => None,
            },
        }
    }
}

/// The sessions' views.
pub open spec fn session_views(v: Seq<Session>) -> Seq<SessionView> {
    v.map_values(|s: Session| s@)
}

/// The table session a tmux listing line describes: `Running` when its
/// attached flag is `0`, else `Attached`; not yet known to be idle.
pub open spec fn session_of_line(line: Seq<char>) -> Option<SessionView> {
    match tmux_fields(line) {
        Some(f) => Some(
            SessionView {
                name: f.0,
                created: f.1,
                activity: f.2,
                state: if f.3 == "0"@ { SessionState::Running } else { SessionState::Attached },
                idle: IdleState::Working,
                worktree: None,
            },
        ),
        None => None,
    }
}

/// The sessions of a sequence of listing lines, skipping malformed lines.
pub open spec fn sessions_of_lines(ls: Seq<Seq<char>>) -> Seq<SessionView>
    decreases ls.len(),
{
    if ls.len() == 0 {
        Seq::empty()
    } else {
        let prev = sessions_of_lines(ls.drop_last());
        match session_of_line(ls.last()) {
            Some(s) => prev.push(s),
            None => prev,
        }
    }
}

/// Parse a raw tmux `list-sessions` output (`name, created, activity,
/// attached` separated by tabs) into table sessions; malformed lines are
/// skipped.
pub fn parse_sessions(raw: &str) -> (r: Vec<Session>)
    ensures
        session_views(r@) == sessions_of_lines(lines(raw@)),
{
    let ls = lines_of(raw);
    let mut out: Vec<Session> = Vec::new();
    let mut i: usize = 0;
    assert(views(ls@).take(0) =~= Seq::<Seq<char>>::empty());
    while i < ls.len()
        invariant
            i <= ls.len(),
            views(ls@) == lines(raw@),
            session_views(out@) == sessions_of_lines(views(ls@).take(i as int)),
        decreases ls.len() - i,
    {
        let ghost t = views(ls@).take(i + 1);
        assert(t.drop_last() =~= views(ls@).take(i as int));
        assert(t.last() == ls@[i as int]@);
        match parse_tmux_line(ls[i].as_str()) {
            Some((name, created, activity, attached)) => {
                let av = to_chars(attached.as_str());
                let zero = to_chars("0");
                let state = if chars_eq(av.as_slice(), zero.as_slice()) {
                    SessionState::Running
                } else {
                    SessionState::Attached
                };
                let ghost before = out@;
                out.push(
                    Session { name, created, activity, state, idle: IdleState::Working, worktree: None },
                );
                assert(session_views(out@) =~= session_views(before).push(
                    session_of_line(ls@[i as int]@)->0,
                ));
            },
            None => {},
        }
        i = i + 1;
    }
    assert(views(ls@).take(ls.len() as int) =~= views(ls@));
    out
}

/// Idle state: `Stopped` without a tmux session, else `Idle` when the
/// state-file mtime is at least the tmux activity, else `Working`.
pub open spec fn derive_idle_state_spec(state: SessionState, activity: i64, state_mtime: Option<i64>) -> IdleState {
    if state == SessionState::Stopped {
        IdleState::Stopped
    } else {
        match state_mtime {
            Some(m) => if m >= activity {
                IdleState::Idle
            } else {
                IdleState::Working
            },
            None => IdleState::Working,
        }
    }
}

/// Idle state from the session state, its activity and the Stop-hook mtime.
pub fn derive_idle_state(state: &SessionState, activity: i64, state_mtime: Option<i64>) -> (r: IdleState)
    ensures
        r == derive_idle_state_spec(*state, activity, state_mtime),
{
    if *state == SessionState::Stopped {
        return IdleState::Stopped;
    }
    match state_mtime {
        Some(m) => if m >= activity {
            IdleState::Idle
        } else {
            IdleState::Working
        },
        None => IdleState::Working,
    }
}

/// The uptime text for `secs` seconds.
pub open spec fn uptime_spec(secs: int) -> Seq<char> {
    if secs < 0 {
        "just now"@
    } else {
        let days = secs / 86400;
        let hours = (secs % 86400) / 3600;
        let mins = (secs % 3600) / 60;
        if days > 0 {
            int_dec(days) + "d "@ + int_dec(hours) + "h"@
        } else if hours > 0 {
            int_dec(hours) + "h "@ + int_dec(mins) + "m"@
        } else {
            int_dec(mins) + "m"@
        }
    }
}

/// An uptime of `days` days, `hours` hours, `mins` minutes and `secs`
/// seconds reads `<days>d <hours>h` when there is a day, else
/// `<hours>h <mins>m` when there is an hour, else `<mins>m`; seconds are
/// dropped; a negative uptime reads `just now`.
pub proof fn lemma_uptime_reads_units(days: int, hours: int, mins: int, secs: int, behind: int)
    requires
        days >= 0,
        0 <= hours < 24,
        0 <= mins < 60,
        0 <= secs < 60,
        behind < 0,
    ensures
        uptime_spec(days * 86400 + hours * 3600 + mins * 60 + secs) == if days > 0 {
            int_dec(days) + "d "@ + int_dec(hours) + "h"@
        } else if hours > 0 {
            int_dec(hours) + "h "@ + int_dec(mins) + "m"@
        } else {
            int_dec(mins) + "m"@
        },
        uptime_spec(behind) == "just now"@,
{
    let t = days * 86400 + hours * 3600 + mins * 60 + secs;
    let in_day = hours * 3600 + mins * 60 + secs;
    let in_hour = mins * 60 + secs;
    assert(0 <= in_hour < 3600);
    assert(0 <= in_day < 86400) by (nonlinear_arith)
        requires
            0 <= hours < 24,
            0 <= in_hour < 3600,
            in_day == hours * 3600 + in_hour,
    ;
    assert(t == days * 86400 + in_day);
    vstd::arithmetic::div_mod::lemma_fundamental_div_mod_converse(t, 86400, days, in_day);
    vstd::arithmetic::div_mod::lemma_fundamental_div_mod_converse(in_day, 3600, hours, in_hour);
    assert(t == (days * 24 + hours) * 3600 + in_hour) by (nonlinear_arith)
        requires
            t == days * 86400 + hours * 3600 + in_hour,
    ;
    vstd::arithmetic::div_mod::lemma_fundamental_div_mod_converse(t, 3600, days * 24 + hours, in_hour);
    vstd::arithmetic::div_mod::lemma_fundamental_div_mod_converse(in_hour, 60, mins, secs);
    assert(t >= 0) by (nonlinear_arith)
        requires
            days >= 0,
            in_day >= 0,
            t == days * 86400 + in_day,
    ;
}

/// Human uptime between `created_epoch` and `remote_now`: `Nd Nh`, `Nh Nm`,
/// `Nm`, or `just now` when the clock runs behind.
pub fn format_uptime(remote_now: i64, created_epoch: i64) -> (r: String)
    requires
        i64::MIN <= remote_now - created_epoch <= i64::MAX,
    ensures
        r@ == uptime_spec(remote_now - created_epoch),
{
    let secs = remote_now - created_epoch;
    if secs < 0 {
        return owned("just now");
    }
    let days = secs / 86400;
    let hours = (secs % 86400) / 3600;
    let mins = (secs % 3600) / 60;
    if days > 0 {
        let mut r = i64_to_dec(days);
        r.append("d ");
        r.append(i64_to_dec(hours).as_str());
        r.append("h");
        r
    } else if hours > 0 {
        let mut r = i64_to_dec(hours);
        r.append("h ");
        r.append(i64_to_dec(mins).as_str());
        r.append("m");
        r
    } else {
        let mut r = i64_to_dec(mins);
        r.append("m");
        r
    }
}

/// The STATUS word of a session.
pub open spec fn status_word(s: SessionState) -> Seq<char> {
    match s {
        SessionState::Attached => "attached"@,
        SessionState::Running => "running"@,
        SessionState::Stopped => "stopped"@,
    }
}

/// The IDLE word of a session.
pub open spec fn idle_word(s: IdleState) -> Seq<char> {
    match s {
        IdleState::Working => "working"@,
        IdleState::Idle => "idle"@,
        IdleState::Stopped => "stopped"@,
    }
}

/// The header line of the agent table.
pub open spec fn table_header(color: bool) -> Seq<char> {
    let plain = pad_right("NAME"@, 20) + " "@ + pad_right("STATUS"@, 10) + " "@ + pad_right(
        "IDLE"@,
        9,
    ) + " "@ + pad_right("UPTIME"@, 12) + " "@ + "WORKTREE"@;
    if color {
        bold_code() + plain + reset_code()
    } else {
        plain
    }
}

/// The table row of one session.
pub open spec fn table_row(s: Session, remote_now: i64, color: bool, prefix: Seq<char>) -> Seq<char> {
    let stopped = s.state == SessionState::Stopped;
    let status_padded = pad_right(status_word(s.state), 10);
    let status_display = if color {
        (if stopped { yellow_code() } else { green_code() }) + status_padded + reset_code()
    } else {
        status_padded
    };
    let idle_padded = pad_right(idle_word(s.idle), 9);
    let idle_display = if color {
        if s.idle == IdleState::Idle {
            green_code() + bold_code() + idle_padded + reset_code()
        } else {
            dim_code() + idle_padded + reset_code()
        }
    } else {
        idle_padded
    };
    let uptime = if stopped { "-"@ } else { uptime_spec(remote_now - s.created) };
    let wt = match s.worktree {
        Some(w) => w@,
        None => "-"@,
    };
    pad_right(unqualified(s.name@, prefix), 20) + " "@ + status_display + " "@ + idle_display
        + " "@ + pad_right(uptime, 12) + " "@ + wt
}

/// The rendered agent table.
pub open spec fn sessions_table(sessions: Seq<Session>, remote_now: i64, color: bool, prefix: Seq<char>) -> Seq<char> {
    if sessions.len() == 0 {
        "No agents running.\nUse `skulk new <name>` to create one."@
    } else {
        join(
            seq![table_header(color)] + sessions.map_values(
                |s: Session| table_row(s, remote_now, color, prefix),
            ),
            "\n"@,
        )
    }
}

/// The uptimes of running sessions are representable.
pub open spec fn uptimes_fit(sessions: Seq<Session>, remote_now: i64) -> bool {
    forall|i: int|
        0 <= i < sessions.len() ==> i64::MIN <= remote_now - (#[trigger] sessions[i]).created
            <= i64::MAX
}

fn table_row_exec(s: &Session, remote_now: i64, color: bool, cfg: &Config) -> (r: String)
    requires
        i64::MIN <= remote_now - s.created <= i64::MAX,
    ensures
        r@ == table_row(*s, remote_now, color, cfg.session_prefix@),
{
    let display_name = match strip_prefix_str(s.name.as_str(), cfg.session_prefix.as_str()) {
        Some(rest) => rest,
        None => s.name.clone(),
    };
    let stopped = s.state == SessionState::Stopped;
    let status_raw = match s.state {
        SessionState::Attached => "attached",
        SessionState::Running => "running",
        SessionState::Stopped => "stopped",
    };
    let status_padded = pad_right_exec(status_raw, 10);
    let status_display = if color {
        let mut d = if stopped { owned("\x1b[33m") } else { owned("\x1b[32m") };
        d.append(status_padded.as_str());
        d.append("\x1b[0m");
        d
    } else {
        status_padded
    };
    let idle_raw = match s.idle {
        IdleState::Working => "working",
        IdleState::Idle => "idle",
        IdleState::Stopped => "stopped",
    };
    let idle_padded = pad_right_exec(idle_raw, 9);
    let idle_display = if color {
        match s.idle {
            IdleState::Idle => {
                let mut d = owned("\x1b[32m");
                d.append("\x1b[1m");
                d.append(idle_padded.as_str());
                d.append("\x1b[0m");
                d
            },
            _ => {
                let mut d = owned("\x1b[2m");
                d.append(idle_padded.as_str());
                d.append("\x1b[0m");
                d
            },
        }
    } else {
        idle_padded
    };
    let uptime = if stopped {
        owned("-")
    } else {
        format_uptime(remote_now, s.created)
    };
    let wt = match &s.worktree {
        Some(w) => w.clone(),
        None => owned("-"),
    };
    let mut line = pad_right_exec(display_name.as_str(), 20);
    line.append(" ");
    line.append(status_display.as_str());
    line.append(" ");
    line.append(idle_display.as_str());
    line.append(" ");
    line.append(pad_right_exec(uptime.as_str(), 12).as_str());
    line.append(" ");
    line.append(wt.as_str());
    line
}

/// Render the agent table: a header, then one row per session with the
/// session prefix stripped from the name, status, idle state, uptime (`-`
/// when stopped) and worktree (`-` when unknown); or the empty-state text.
pub fn format_sessions_table_with_color(sessions: &[Session], remote_now: i64, color: bool, cfg: &Config) -> (r: String)
    requires
        uptimes_fit(sessions@, remote_now),
    ensures
        r@ == sessions_table(sessions@, remote_now, color, cfg.session_prefix@),
{
    if sessions.len() == 0 {
        return owned("No agents running.\nUse `skulk new <name>` to create one.");
    }
    let mut lines: Vec<String> = Vec::new();
    let mut header = if color { owned("\x1b[1m") } else { String::new() };
    header.append(pad_right_exec("NAME", 20).as_str());
    header.append(" ");
    header.append(pad_right_exec("STATUS", 10).as_str());
    header.append(" ");
    header.append(pad_right_exec("IDLE", 9).as_str());
    header.append(" ");
    header.append(pad_right_exec("UPTIME", 12).as_str());
    header.append(" ");
    header.append("WORKTREE");
    if color {
        header.append("\x1b[0m");
    }
    assert(header@ =~= table_header(color));
    lines.push(header);
    let ghost rows = sessions@.map_values(
        |s: Session| table_row(s, remote_now, color, cfg.session_prefix@),
    );
    assert(views(lines@) =~= seq![table_header(color)] + rows.take(0));
    let mut i: usize = 0;
    while i < sessions.len()
        invariant
            i <= sessions.len(),
            uptimes_fit(sessions@, remote_now),
            rows == sessions@.map_values(
                |s: Session| table_row(s, remote_now, color, cfg.session_prefix@),
            ),
            views(lines@) == seq![table_header(color)] + rows.take(i as int),
        decreases sessions.len() - i,
    {
        assert(i64::MIN <= remote_now - sessions@[i as int].created <= i64::MAX);
        let row = table_row_exec(&sessions[i], remote_now, color, cfg);
        let ghost before = lines@;
        lines.push(row);
        assert(views(lines@) =~= views(before).push(row@));
        assert(rows.take(i + 1) =~= rows.take(i as int).push(rows[i as int]));
        assert(views(lines@) =~= seq![table_header(color)] + rows.take(i + 1));
        i = i + 1;
    }
    assert(rows.take(sessions.len() as int) =~= rows);
    join_exec(&lines, "\n")
}

/// The gc summary text.
pub open spec fn gc_summary_spec(sessions: Seq<Seq<char>>, worktrees: Seq<Seq<char>>, branches: Seq<Seq<char>>, dry_run: bool) -> Seq<char> {
    if sessions.len() == 0 && worktrees.len() == 0 && branches.len() == 0 {
        "No orphaned resources found. Everything is clean."@
    } else {
        let action = if dry_run { "Would clean"@ } else { "Cleaned"@ };
        let item = |x: Seq<char>| "  - "@ + x;
        let block = |items: Seq<Seq<char>>, what: Seq<char>|
            if items.len() == 0 {
                Seq::<Seq<char>>::empty()
            } else {
                seq![action + " "@ + nat_dec(items.len()) + what] + items.map_values(item)
            };
        join(
            block(sessions, " orphaned tmux session(s):"@) + block(worktrees, " orphaned worktree(s):"@)
                + block(branches, " orphaned branch(es):"@) + seq![
                Seq::empty(),
                "Total: "@ + nat_dec(sessions.len() + worktrees.len() + branches.len())
                    + " orphaned resource(s)."@,
            ],
            "\n"@,
        )
    }
}

/// Appends the block for one kind of orphan: a count line, then one
/// `  - <name>` line per item; nothing when there are none.
fn push_block(lines: &mut Vec<String>, items: &Vec<String>, action: &str, what: &str)
    ensures
        views(final(lines)@) == views(old(lines)@) + (if items@.len() == 0 {
            Seq::<Seq<char>>::empty()
        } else {
            seq![action@ + " "@ + nat_dec(items@.len()) + what@] + views(items@).map_values(
                |x: Seq<char>| "  - "@ + x,
            )
        }),
{
    if items.len() == 0 {
        assert(views(lines@) =~= views(lines@) + Seq::<Seq<char>>::empty());
        return;
    }
    let ghost start = views(lines@);
    let mut head = owned(action);
    head.append(" ");
    head.append(u64_to_dec(items.len() as u64).as_str());
    head.append(what);
    lines.push(head);
    let ghost head_v = action@ + " "@ + nat_dec(items@.len()) + what@;
    let ghost tail = views(items@).map_values(|x: Seq<char>| "  - "@ + x);
    assert(views(lines@) =~= start + seq![head_v] + tail.take(0));
    let mut i: usize = 0;
    while i < items.len()
        invariant
            i <= items.len(),
            tail == views(items@).map_values(|x: Seq<char>| "  - "@ + x),
            views(lines@) == start + seq![head_v] + tail.take(i as int),
        decreases items.len() - i,
    {
        let mut line = owned("  - ");
        line.append(items[i].as_str());
        let ghost before = views(lines@);
        lines.push(line);
        assert(views(lines@) =~= before.push(line@));
        assert(tail.take(i + 1) =~= tail.take(i as int).push(tail[i as int]));
        assert(views(lines@) =~= start + seq![head_v] + tail.take(i + 1));
        i = i + 1;
    }
    assert(tail.take(items.len() as int) =~= tail);
    assert(views(lines@) =~= start + (seq![head_v] + tail));
}

/// Format a gc summary: per kind of orphan a count line and the names, then
/// a blank line and the total; or the all-clean text when nothing is orphaned.
pub fn format_gc_summary(orphans: &GcOrphans, dry_run: bool) -> (r: String)
    requires
        orphans.sessions@.len() + orphans.worktrees@.len() + orphans.branches@.len() <= usize::MAX,
    ensures
        r@ == gc_summary_spec(
            views(orphans.sessions@),
            views(orphans.worktrees@),
            views(orphans.branches@),
            dry_run,
        ),
{
    if orphans.is_empty() {
        return owned("No orphaned resources found. Everything is clean.");
    }
    let action = if dry_run { "Would clean" } else { "Cleaned" };
    let mut lines: Vec<String> = Vec::new();
    push_block(&mut lines, &orphans.sessions, action, " orphaned tmux session(s):");
    push_block(&mut lines, &orphans.worktrees, action, " orphaned worktree(s):");
    push_block(&mut lines, &orphans.branches, action, " orphaned branch(es):");
    lines.push(String::new());
    let mut total = owned("Total: ");
    total.append(u64_to_dec(orphans.total() as u64).as_str());
    total.append(" orphaned resource(s).");
    lines.push(total);
    let r = join_exec(&lines, "\n");
    assert(views(lines@) =~= {
        let action_v = if dry_run { "Would clean"@ } else { "Cleaned"@ };
        let item = |x: Seq<char>| "  - "@ + x;
        let block = |items: Seq<Seq<char>>, what: Seq<char>|
            if items.len() == 0 {
                Seq::<Seq<char>>::empty()
            } else {
                seq![action_v + " "@ + nat_dec(items.len()) + what] + items.map_values(item)
            };
        block(views(orphans.sessions@), " orphaned tmux session(s):"@) + block(
            views(orphans.worktrees@),
            " orphaned worktree(s):"@,
        ) + block(views(orphans.branches@), " orphaned branch(es):"@) + seq![
            Seq::empty(),
            "Total: "@ + nat_dec(
                views(orphans.sessions@).len() + views(orphans.worktrees@).len() + views(
                    orphans.branches@,
                ).len(),
            ) + " orphaned resource(s)."@,
        ]
    });
    r
}

} // verus!
