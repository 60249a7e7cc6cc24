//! `skulk gc`: find and clean up orphaned agent resources.

use vstd::prelude::*;
use crate::agent_ref::{unqualified, worktree_path_spec, AgentRef};
use crate::commands::destroy::{
    agent_destroy_branch_command, agent_destroy_session_command, agent_destroy_state_file_command,
    agent_destroy_worktree_command, destroy_branch_spec, destroy_session_spec, destroy_state_file_spec,
    destroy_worktree_spec,
};
use crate::commands::flow::{
    batch_next, batch_wf, job_views, job_wf, jobs_wf, one_command_job, says, single_job, Action, Batch, BatchPhase,
    Event, Job, JobView,
};
use crate::config::Config;
use crate::display::{format_gc_summary, gc_summary_spec};
use crate::error::{ErrorView, SkulkError};
use crate::inventory::{
    inventory_command, inventory_command_spec, parse_inventory, parsed_inventory, AgentInventory,
    GcOrphans,
};
use crate::kvmap::KvMap;
use crate::order::{sorted_unique, strictly_sorted};
use crate::text::{
    lines, lines_of, owned, starts_with, starts_with_str, to_chars, trim, trim_str, vec_contains,
    views,
};
use crate::util::{plain_name_spec, validate_name, validate_name_spec, validate_plain_name};

verus! {

/// The SSH command that lists the Stop-hook state files, one per line; a
/// missing `~/.skulk/state/` gives an empty listing, not an error.
pub fn list_state_files_command() -> (r: String)
    ensures
        r@ == "ls ~/.skulk/state/ 2>/dev/null || true"@,
{
    owned("ls ~/.skulk/state/ 2>/dev/null || true")
}

/// The texts of `v` that occur in neither `xs` nor `ys`.
pub open spec fn unmatched(v: Set<Seq<char>>, xs: Set<Seq<char>>, ys: Set<Seq<char>>) -> Set<Seq<char>> {
    Set::new(|x: Seq<char>| v.contains(x) && !xs.contains(x) && !ys.contains(x))
}

/// The elements of `v` found in neither `xs` nor `ys`, in order.
fn keep_unmatched(v: &Vec<String>, xs: &Vec<String>, ys: &Vec<String>) -> (r: Vec<String>)
    ensures
        views(r@).to_set() == unmatched(views(v@).to_set(), views(xs@).to_set(), views(ys@).to_set()),
{
    let ghost target = unmatched(views(v@).to_set(), views(xs@).to_set(), views(ys@).to_set());
    let mut out: Vec<String> = Vec::new();
    let mut i: usize = 0;
    while i < v.len()
        invariant
            i <= v.len(),
            target == unmatched(views(v@).to_set(), views(xs@).to_set(), views(ys@).to_set()),
            forall|k: int| 0 <= k < out@.len() ==> #[trigger] target.contains(out@[k]@),
            forall|j: int| 0 <= j < i && target.contains(#[trigger] v@[j]@) ==> views(out@).contains(v@[j]@),
        decreases v.len() - i,
    {
        let in_x = vec_contains(xs, v[i].as_str());
        let in_y = vec_contains(ys, v[i].as_str());
        proof {
            assert(views(v@)[i as int] == v@[i as int]@);
            assert(views(v@).to_set().contains(v@[i as int]@));
        }
        if !in_x && !in_y {
            let ghost before = out@;
            out.push(v[i].clone());
            proof {
                assert forall|x: Seq<char>| views(before).contains(x) implies views(out@).contains(x) by {
                    let k = choose|k: int| 0 <= k < views(before).len() && views(before)[k] == x;
                    assert(views(out@)[k] == x);
                }
                assert(views(out@)[before.len() as int] == v@[i as int]@);
            }
        }
        i = i + 1;
    }
    proof {
        assert forall|x: Seq<char>| views(out@).to_set().contains(x) implies target.contains(x) by {
            let k = choose|k: int| 0 <= k < views(out@).len() && views(out@)[k] == x;
            assert(target.contains(out@[k]@));
        }
        assert forall|x: Seq<char>| target.contains(x) implies views(out@).to_set().contains(x) by {
            let j = choose|j: int| 0 <= j < views(v@).len() && views(v@)[j] == x;
            assert(v@[j]@ == x);
        }
        assert(views(out@).to_set() =~= target);
    }
    out
}

/// The keys of a map, as a set.
proof fn lemma_keys_set(m: &KvMap, keys: Seq<String>)
    requires
        keys.len() == m.pairs().len(),
        forall|j: int| 0 <= j < keys.len() ==> keys[j]@ == m.pairs()[j].0,
    ensures
        views(keys).to_set() == m@.dom(),
{
    assert forall|x: Seq<char>| views(keys).to_set().contains(x) implies m@.dom().contains(x) by {
        let j = choose|j: int| 0 <= j < views(keys).len() && views(keys)[j] == x;
        m.lemma_dom(x);
        assert(m.pairs()[j].0 == x);
    }
    assert forall|x: Seq<char>| m@.dom().contains(x) implies views(keys).to_set().contains(x) by {
        m.lemma_dom(x);
        let j = choose|j: int| 0 <= j < m.pairs().len() && m.pairs()[j].0 == x;
        assert(views(keys)[j] == x);
    }
    assert(views(keys).to_set() =~= m@.dom());
}

/// Orphaned sessions: a session with neither a worktree nor a branch.
pub open spec fn orphan_sessions(s: Set<Seq<char>>, w: Set<Seq<char>>, b: Set<Seq<char>>) -> Set<Seq<char>> {
    unmatched(s, w, b)
}

/// Orphaned worktrees: a worktree with neither a session nor a branch. A
/// worktree whose branch still exists belongs to an archived agent and is
/// kept.
pub open spec fn orphan_worktrees(s: Set<Seq<char>>, w: Set<Seq<char>>, b: Set<Seq<char>>) -> Set<Seq<char>> {
    unmatched(w, s, b)
}

/// Orphaned branches: a branch with neither a session nor a worktree.
pub open spec fn orphan_branches(s: Set<Seq<char>>, w: Set<Seq<char>>, b: Set<Seq<char>>) -> Set<Seq<char>> {
    unmatched(b, s, w)
}

/// The orphans of an inventory, each kind sorted and without repeats.
pub fn gc_find_orphans(inv: &AgentInventory) -> (r: GcOrphans)
    ensures
        strictly_sorted(views(r.sessions@)),
        strictly_sorted(views(r.worktrees@)),
        strictly_sorted(views(r.branches@)),
        views(r.sessions@).to_set() == orphan_sessions(
            views(inv.sessions@).to_set(),
            inv.worktrees@.dom(),
            views(inv.branches@).to_set(),
        ),
        views(r.worktrees@).to_set() == orphan_worktrees(
            views(inv.sessions@).to_set(),
            inv.worktrees@.dom(),
            views(inv.branches@).to_set(),
        ),
        views(r.branches@).to_set() == orphan_branches(
            views(inv.sessions@).to_set(),
            inv.worktrees@.dom(),
            views(inv.branches@).to_set(),
        ),
{
    let keys = inv.worktrees.keys();
    proof {
        lemma_keys_set(&inv.worktrees, keys@);
    }
    let s = keep_unmatched(&inv.sessions, &keys, &inv.branches);
    let w = keep_unmatched(&keys, &inv.sessions, &inv.branches);
    let b = keep_unmatched(&inv.branches, &inv.sessions, &keys);
    GcOrphans { sessions: sorted_unique(&s), worktrees: sorted_unique(&w), branches: sorted_unique(&b) }
}

/// No agent holding at least two of its three resources (session, worktree,
/// branch) loses any of them to gc; in particular an archived agent, with
/// worktree and branch but no session, is kept for `restart`.
pub proof fn lemma_gc_keeps_agents_with_two_resources(
    s: Set<Seq<char>>,
    w: Set<Seq<char>>,
    b: Set<Seq<char>>,
    x: Seq<char>,
)
    requires
        (s.contains(x) && w.contains(x)) || (s.contains(x) && b.contains(x)) || (w.contains(x)
            && b.contains(x)),
    ensures
        !orphan_sessions(s, w, b).contains(x),
        !orphan_worktrees(s, w, b).contains(x),
        !orphan_branches(s, w, b).contains(x),
{
}

/// The three kinds of orphans never share a name, and each kind only holds
/// resources that exist.
pub proof fn lemma_gc_orphan_kinds_disjoint(s: Set<Seq<char>>, w: Set<Seq<char>>, b: Set<Seq<char>>, x: Seq<char>)
    ensures
        orphan_sessions(s, w, b).contains(x) ==> s.contains(x) && !orphan_worktrees(s, w, b).contains(x)
            && !orphan_branches(s, w, b).contains(x),
        orphan_worktrees(s, w, b).contains(x) ==> w.contains(x) && !orphan_branches(s, w, b).contains(x),
        orphan_branches(s, w, b).contains(x) ==> b.contains(x),
{
}

/// The state-file names of a listing that are stale: trimmed, non-empty,
/// carrying the prefix, with a plain (`[a-z0-9-]`) agent name after it,
/// and not the session of a surviving agent.
pub open spec fn stale_entries(ls: Seq<Seq<char>>, prefix: Seq<char>, surviving: Set<Seq<char>>) -> Seq<Seq<char>>
    decreases ls.len(),
{
    if ls.len() == 0 {
        Seq::empty()
    } else {
        let prev = stale_entries(ls.drop_last(), prefix, surviving);
        let t = trim(ls.last());
        if t.len() > 0 && starts_with(t, prefix) && plain_name_spec(t.skip(prefix.len() as int)) is Ok
            && !surviving.contains(t) {
            prev.push(t)
        } else {
            prev
        }
    }
}

/// The sessions that survive gc: those in the inventory that were not
/// killed as orphans.
pub open spec fn surviving_sessions(inv_sessions: Seq<Seq<char>>, orphan_sessions: Seq<Seq<char>>) -> Set<Seq<char>> {
    inv_sessions.to_set().difference(orphan_sessions.to_set())
}

/// The state files in a `ls ~/.skulk/state/` listing that belong to no
/// surviving session, in listing order.
pub fn stale_state_files(state_raw: &str, inv: &AgentInventory, orphans: &GcOrphans, cfg: &Config) -> (r: Vec<String>)
    ensures
        views(r@) == stale_entries(
            lines(state_raw@),
            cfg.session_prefix@,
            surviving_sessions(views(inv.sessions@), views(orphans.sessions@)),
        ),
{
    let ghost surv = surviving_sessions(views(inv.sessions@), views(orphans.sessions@));
    let ghost pre = cfg.session_prefix@;
    let ls = lines_of(state_raw);
    let pv = to_chars(cfg.session_prefix.as_str());
    let mut out: Vec<String> = Vec::new();
    let mut i: usize = 0;
    assert(views(ls@).take(0) =~= Seq::<Seq<char>>::empty());
    while i < ls.len()
        invariant
            i <= ls.len(),
            views(ls@) == lines(state_raw@),
            pv@ == pre,
            pre == cfg.session_prefix@,
            surv == surviving_sessions(views(inv.sessions@), views(orphans.sessions@)),
            views(out@) == stale_entries(views(ls@).take(i as int), pre, surv),
        decreases ls.len() - i,
    {
        let ghost t = views(ls@).take(i + 1);
        assert(t.drop_last() =~= views(ls@).take(i as int));
        assert(t.last() == ls@[i as int]@);
        let tl = trim_str(ls[i].as_str());
        let tv = to_chars(tl.as_str());
        if tv.len() > 0 && starts_with_str(tl.as_str(), cfg.session_prefix.as_str()) {
            let suffix = crate::text::from_chars_range(tv.as_slice(), pv.len(), tv.len());
            assert(suffix@ =~= tl@.skip(pre.len() as int));
            let valid = validate_plain_name(suffix.as_str()).is_ok();
            let live = vec_contains(&inv.sessions, tl.as_str());
            let killed = vec_contains(&orphans.sessions, tl.as_str());
            proof {
                assert(views(inv.sessions@).to_set().contains(tl@) == views(inv.sessions@).contains(tl@));
                assert(views(orphans.sessions@).to_set().contains(tl@) == views(orphans.sessions@).contains(tl@));
                assert(surv.contains(tl@) == (live && !killed));
            }
            if valid && !(live && !killed) {
                let ghost before = out@;
                out.push(tl);
                assert(views(out@) =~= views(before).push(trim(ls@[i as int]@)));
            }
        }
        i = i + 1;
    }
    assert(views(ls@).take(ls.len() as int) =~= views(ls@));
    out
}

/// The SSH command that prunes stale worktree records after cleanup.
pub fn worktree_prune_command(cfg: &Config) -> (r: String)
    ensures
        r@ == "cd "@ + cfg.base_path@ + " && git worktree prune"@,
{
    let mut s = owned("cd ");
    s.append(cfg.base_path.as_str());
    s.append(" && git worktree prune");
    s
}


/// The kinds of cleanup work gc does, one job per resource.
#[derive(Debug, Clone, Copy, PartialEq, Eq, Structural)]
pub enum GcKind {
    /// Kill an orphaned tmux session.
    Session,
    /// Remove an orphaned worktree and its branch.
    Worktree,
    /// Delete an orphaned branch.
    Branch,
    /// Remove a stale state file.
    StateFile,
}

/// The session of a prefix-qualified resource name.
pub open spec fn session_of(q: Seq<char>, cfg: Config) -> Seq<char> {
    cfg.session_prefix@ + unqualified(q, cfg.session_prefix@)
}

/// The job that cleans the resource `q` of the given kind: its progress
/// line, its commands, and `done` or `failed` (a worktree whose removal or
/// branch deletion fails is still `done (with warnings)`).
pub open spec fn gc_job(kind: GcKind, q: Seq<char>, cfg: Config) -> JobView {
    let session = session_of(q, cfg);
    match kind {
        GcKind::Session => single_job(
            "  Killing orphaned session "@ + q + "... "@,
            destroy_session_spec(session),
            "done\n"@,
            "failed\n"@,
        ),
        GcKind::Worktree => JobView {
            announce: "  Removing orphaned worktree "@ + q + "... "@,
            commands: seq![
                destroy_worktree_spec(cfg.base_path@, worktree_path_spec(cfg.worktree_base@, session)),
                destroy_branch_spec(cfg.base_path@, session),
            ],
            checked: seq![true, true],
            ok_text: "done\n"@,
            fail_text: "done (with warnings)\n"@,
        },
        GcKind::Branch => single_job(
            "  Deleting orphaned branch "@ + q + "... "@,
            destroy_branch_spec(cfg.base_path@, session),
            "done\n"@,
            "failed\n"@,
        ),
        GcKind::StateFile => single_job(
            "  Removing stale state file "@ + q + "... "@,
            destroy_state_file_spec(session),
            "done\n"@,
            "failed\n"@,
        ),
    }
}

/// The jobs for a list of resources of one kind, in list order.
pub open spec fn gc_jobs(kind: GcKind, qs: Seq<Seq<char>>, cfg: Config) -> Seq<JobView> {
    qs.map_values(|q: Seq<char>| gc_job(kind, q, cfg))
}

/// The cleanup of the orphans: sessions first, then worktrees, then branches.
pub open spec fn gc_cleanup_jobs(o: GcOrphans, cfg: Config) -> Seq<JobView> {
    gc_jobs(GcKind::Session, views(o.sessions@), cfg) + gc_jobs(GcKind::Worktree, views(o.worktrees@), cfg)
        + gc_jobs(GcKind::Branch, views(o.branches@), cfg)
}

fn progress_line(head: &str, q: &str) -> (r: String)
    ensures
        r@ == head@ + q@ + "... "@,
{
    let mut s = owned(head);
    s.append(q);
    s.append("... ");
    s
}

/// Build the job that cleans the resource `q` of the given kind.
pub fn make_gc_job(kind: GcKind, q: &str, cfg: &Config) -> (j: Job)
    ensures
        job_wf(&j),
        j@ == gc_job(kind, q@, *cfg),
{
    let agent = AgentRef::from_qualified(q, cfg);
    let name = agent.name();
    match kind {
        GcKind::Session => one_command_job(
            progress_line("  Killing orphaned session ", q),
            agent_destroy_session_command(name, cfg),
            "done\n",
            "failed\n",
        ),
        GcKind::Worktree => {
            let w = agent_destroy_worktree_command(name, cfg);
            let b = agent_destroy_branch_command(name, cfg);
            let ghost (wv, bv) = (w@, b@);
            let mut commands: Vec<String> = Vec::new();
            commands.push(w);
            commands.push(b);
            let mut checked: Vec<bool> = Vec::new();
            checked.push(true);
            checked.push(true);
            let j = Job {
                announce: progress_line("  Removing orphaned worktree ", q),
                commands,
                checked,
                ok_text: owned("done\n"),
                fail_text: owned("done (with warnings)\n"),
            };
            assert(views(j.commands@) =~= seq![wv, bv]);
            assert(j.checked@ =~= seq![true, true]);
            j
        },
        GcKind::Branch => one_command_job(
            progress_line("  Deleting orphaned branch ", q),
            agent_destroy_branch_command(name, cfg),
            "done\n",
            "failed\n",
        ),
        GcKind::StateFile => one_command_job(
            progress_line("  Removing stale state file ", q),
            agent_destroy_state_file_command(name, cfg),
            "done\n",
            "failed\n",
        ),
    }
}

/// Append the jobs for `items`, all of one kind, in order.
pub fn push_gc_jobs(out: &mut Vec<Job>, kind: GcKind, items: &Vec<String>, cfg: &Config)
    requires
        jobs_wf(old(out)@),
    ensures
        jobs_wf(final(out)@),
        job_views(final(out)@) == job_views(old(out)@) + gc_jobs(kind, views(items@), *cfg),
{
    let ghost start = job_views(out@);
    let ghost all = gc_jobs(kind, views(items@), *cfg);
    let mut i: usize = 0;
    assert(job_views(out@) =~= start + all.take(0));
    while i < items.len()
        invariant
            i <= items.len(),
            all == gc_jobs(kind, views(items@), *cfg),
            jobs_wf(out@),
            job_views(out@) == start + all.take(i as int),
        decreases items.len() - i,
    {
        let j = make_gc_job(kind, items[i].as_str(), cfg);
        let ghost before = out@;
        out.push(j);
        assert(job_views(out@) =~= job_views(before).push(all[i as int]));
        assert(all.take(i + 1) =~= all.take(i as int).push(all[i as int]));
        i = i + 1;
    }
    assert(all.take(items.len() as int) =~= all);
}


/// `o` is what gc finds orphaned in `inv`: each kind sorted, without
/// repeats, and holding exactly the orphans of that kind.
pub open spec fn orphans_of(inv: AgentInventory, o: GcOrphans) -> bool {
    let s = views(inv.sessions@).to_set();
    let w = inv.worktrees@.dom();
    let b = views(inv.branches@).to_set();
    &&& strictly_sorted(views(o.sessions@))
    &&& strictly_sorted(views(o.worktrees@))
    &&& strictly_sorted(views(o.branches@))
    &&& views(o.sessions@).to_set() == orphan_sessions(s, w, b)
    &&& views(o.worktrees@).to_set() == orphan_worktrees(s, w, b)
    &&& views(o.branches@).to_set() == orphan_branches(s, w, b)
}

/// The orphan count fits a machine word, so the summary can state it.
pub open spec fn orphans_fit(o: GcOrphans) -> bool {
    o.sessions@.len() + o.worktrees@.len() + o.branches@.len() <= usize::MAX
}

/// The closing report of a gc run: the summary, set off by a blank line
/// when anything was cleaned.
pub open spec fn gc_report(o: GcOrphans) -> Seq<char> {
    let empty = o.sessions@.len() == 0 && o.worktrees@.len() == 0 && o.branches@.len() == 0;
    (if empty { Seq::<char>::empty() } else { "\n"@ }) + gc_summary_spec(views(o.sessions@), views(o.worktrees@), views(o.branches@), false)
        + "\n"@
}

/// The state files of the listing `raw` that gc removes after killing the
/// orphaned sessions of `o`.
pub open spec fn stale_for(raw: Seq<char>, cfg: Config, inv: AgentInventory, o: GcOrphans) -> Seq<Seq<char>> {
    stale_entries(lines(raw), cfg.session_prefix@, surviving_sessions(views(inv.sessions@), views(o.sessions@)))
}

/// The message when the orphan count does not fit a machine word.
pub open spec fn too_many_orphans() -> Seq<char> {
    "Too many orphaned resources to report."@
}

/// Where a gc run stands.
pub enum GcStage {
    /// Nothing done yet.
    Start,
    /// Waiting for the inventory.
    ReadingInventory,
    /// Cleaning the orphans found in the inventory.
    Cleaning(AgentInventory, GcOrphans, Batch),
    /// Waiting for the worktree prune.
    Pruning(AgentInventory, GcOrphans),
    /// Waiting for the listing of state files.
    ListingState(AgentInventory, GcOrphans),
    /// Removing the stale state files.
    Reaping(GcOrphans, Batch),
    /// The report is out.
    Reporting,
    /// The command is over.
    Finished,
}

/// A gc run, driven step by step.
pub struct GcRun {
    pub dry_run: bool,
    pub stage: GcStage,
}

/// The stored batches are consistent and under way.
pub open spec fn gc_stage_wf(st: GcStage) -> bool {
    match st {
        GcStage::Cleaning(_, o, b) => batch_wf(&b) && b.phase != BatchPhase::Announce && orphans_fit(o)
            && !b.to_stdout,
        GcStage::Pruning(_, o) | GcStage::ListingState(_, o) => orphans_fit(o),
        GcStage::Reaping(o, b) => batch_wf(&b) && b.phase != BatchPhase::Announce && orphans_fit(o)
            && !b.to_stdout,
        _ => true,
    }
}

/// The event a stage waits for.
pub open spec fn gc_expects(st: GcStage, ev: Event) -> bool {
    match st {
        GcStage::Start => ev is Begin,
        GcStage::ReadingInventory | GcStage::Pruning(_, _) | GcStage::ListingState(_, _) => ev is Output,
        GcStage::Cleaning(_, _, b) | GcStage::Reaping(_, b) => b.expects(ev),
        GcStage::Reporting => ev is Shown,
        GcStage::Finished => false,
    }
}

/// After the orphans are cleaned: prune worktree records if anything was
/// orphaned, else list the state files.
pub open spec fn gc_after_cleanup(inv: AgentInventory, o: GcOrphans, cfg: Config, st: GcStage, a: Action) -> bool {
    if o.sessions@.len() == 0 && o.worktrees@.len() == 0 && o.branches@.len() == 0 {
        st == GcStage::ListingState(inv, o) && (a matches Action::Run(c) && c@
            == "ls ~/.skulk/state/ 2>/dev/null || true"@)
    } else {
        st == GcStage::Pruning(inv, o) && (a matches Action::Run(c) && c@ == "cd "@ + cfg.base_path@
            + " && git worktree prune"@)
    }
}

/// The start of the cleanup of `o`: the first job's announcement, or the
/// step after cleanup when nothing is orphaned.
pub open spec fn gc_cleanup_start(inv: AgentInventory, o: GcOrphans, cfg: Config, st: GcStage, a: Action) -> bool {
    let jobs = gc_cleanup_jobs(o, cfg);
    if jobs.len() == 0 {
        gc_after_cleanup(inv, o, cfg, st, a)
    } else {
        st matches GcStage::Cleaning(i2, o2, b) && i2 == inv && o2 == o && job_views(b.jobs@) == jobs && b.job
            == 0 && b.failures == 0 && (a matches Action::Note(t) && t@ == jobs[0].announce)
    }
}

/// The start of the removal of the stale state files `stale`: the first
/// job's announcement, or the report when none is stale.
pub open spec fn gc_reap_start(o: GcOrphans, stale: Seq<Seq<char>>, cfg: Config, st: GcStage, a: Action) -> bool {
    let jobs = gc_jobs(GcKind::StateFile, stale, cfg);
    if jobs.len() == 0 {
        st is Reporting && (a matches Action::Print(t) && t@ == gc_report(o))
    } else {
        st matches GcStage::Reaping(o2, b) && o2 == o && job_views(b.jobs@) == jobs && b.job == 0 && (a matches Action::Note(
            t,
        ) && t@ == jobs[0].announce)
    }
}

impl GcRun {
    /// A gc run not yet begun.
    pub fn new(dry_run: bool) -> (r: Self)
        ensures
            r.dry_run == dry_run,
            r.stage is Start,
    {
        GcRun { dry_run, stage: GcStage::Start }
    }

    /// Start the cleanup of `o`: the first job's announcement, or the step
    /// after cleanup when nothing is orphaned.
    fn begin_cleanup(inv: AgentInventory, o: GcOrphans, cfg: &Config) -> (r: (GcStage, Action))
        requires
            orphans_fit(o),
        ensures
            gc_stage_wf(r.0),
            gc_cleanup_start(inv, o, *cfg, r.0, r.1),
    {
        let mut jobs: Vec<Job> = Vec::new();
        push_gc_jobs(&mut jobs, GcKind::Session, &o.sessions, cfg);
        push_gc_jobs(&mut jobs, GcKind::Worktree, &o.worktrees, cfg);
        push_gc_jobs(&mut jobs, GcKind::Branch, &o.branches, cfg);
        assert(job_views(jobs@) =~= gc_cleanup_jobs(o, *cfg));
        let mut b = Batch::new(jobs, false);
        match b.step(Event::Begin) {
            Some(x) => (GcStage::Cleaning(inv, o, b), x),
            None => Self::after_cleanup(inv, o, cfg),
        }
    }

    fn after_cleanup(inv: AgentInventory, o: GcOrphans, cfg: &Config) -> (r: (GcStage, Action))
        requires
            orphans_fit(o),
        ensures
            gc_stage_wf(r.0),
            gc_after_cleanup(inv, o, *cfg, r.0, r.1),
    {
        if o.is_empty() {
            (GcStage::ListingState(inv, o), Action::Run(list_state_files_command()))
        } else {
            let c = worktree_prune_command(cfg);
            (GcStage::Pruning(inv, o), Action::Run(c))
        }
    }

    /// Start the removal of the stale state files `stale`: the first job's
    /// announcement, or the report when none is stale.
    fn begin_reaping(o: GcOrphans, stale: Vec<String>, cfg: &Config) -> (r: (GcStage, Action))
        requires
            orphans_fit(o),
        ensures
            gc_stage_wf(r.0),
            gc_reap_start(o, views(stale@), *cfg, r.0, r.1),
    {
        let mut jobs: Vec<Job> = Vec::new();
        push_gc_jobs(&mut jobs, GcKind::StateFile, &stale, cfg);
        assert(job_views(jobs@) =~= gc_jobs(GcKind::StateFile, views(stale@), *cfg));
        let mut b = Batch::new(jobs, false);
        match b.step(Event::Begin) {
            Some(x) => (GcStage::Reaping(o, b), x),
            None => {
                let t = Self::report(&o);
                (GcStage::Reporting, Action::Print(t))
            },
        }
    }

    fn report(o: &GcOrphans) -> (t: String)
        requires
            orphans_fit(*o),
        ensures
            t@ == gc_report(*o),
    {
        let mut t = if o.is_empty() { String::new() } else { owned("\n") };
        t.append(format_gc_summary(o, false).as_str());
        t.append("\n");
        t
    }

    /// Take the next step: given what happened, say what to do. The
    /// inventory comes first; a dry run only reports what it would clean;
    /// otherwise orphaned sessions, worktrees (with their branches) and
    /// branches are cleaned one by one, worktree records are pruned when
    /// anything was orphaned, stale state files are removed (a failed
    /// listing counts as an empty one), and the summary comes last.
    pub fn step(&mut self, cfg: &Config, ev: Event) -> (a: Action)
        requires
            gc_stage_wf(old(self).stage),
            gc_expects(old(self).stage, ev),
        ensures
            final(self).dry_run == old(self).dry_run,
            gc_stage_wf(final(self).stage),
            ({
                let st = final(self).stage;
                match old(self).stage {
                    GcStage::Start => st is ReadingInventory && (a matches Action::Run(c) && c@ == inventory_command_spec(
                        cfg.base_path@,
                        cfg.session_prefix@,
                    )),
                    GcStage::ReadingInventory => match ev {
                        Event::Output(Err(e)) => st is Finished && a == Action::Done(Err(e)),
                        Event::Output(Ok(raw)) => exists|inv: AgentInventory, o: GcOrphans|
                            #![trigger parsed_inventory(raw@, cfg.session_prefix@, inv), orphans_of(inv, o)]
                            parsed_inventory(raw@, cfg.session_prefix@, inv) && orphans_of(inv, o) && if !orphans_fit(o) {
                                st is Finished && (a matches Action::Done(Err(e)) && e@ == ErrorView::Validation(
                                    too_many_orphans(),
                                ))
                            } else if old(self).dry_run {
                                st is Reporting && (a matches Action::Print(t) && t@ == gc_summary_spec(
                                    views(o.sessions@),
                                    views(o.worktrees@),
                                    views(o.branches@),
                                    true,
                                ) + "\n"@)
                            } else {
                                gc_cleanup_start(inv, o, *cfg, st, a)
                            },
                        _ => false,
                    },
                    GcStage::Cleaning(inv, o, b) => exists|b2: Batch, x: Option<Action>|
                        #![trigger batch_next(b, ev, b2, x)]
                        batch_next(b, ev, b2, x) && match x {
                            Some(y) => st == GcStage::Cleaning(inv, o, b2) && a == y,
                            None => gc_after_cleanup(inv, o, *cfg, st, a),
                        },
                    GcStage::Pruning(inv, o) => st == GcStage::ListingState(inv, o) && (a matches Action::Run(c) && c@
                        == "ls ~/.skulk/state/ 2>/dev/null || true"@),
                    GcStage::ListingState(inv, o) => match ev {
                        Event::Output(r) => {
                            let raw = match r {
                                Ok(x) => x@,
                                Err(_) => Seq::<char>::empty(),
                            };
                            gc_reap_start(o, stale_for(raw, *cfg, inv, o), *cfg, st, a)
                        },
                        _ => false,
                    },
                    GcStage::Reaping(o, b) => exists|b2: Batch, x: Option<Action>|
                        #![trigger batch_next(b, ev, b2, x)]
                        batch_next(b, ev, b2, x) && match x {
                            Some(y) => st == GcStage::Reaping(o, b2) && a == y,
                            None => st is Reporting && (a matches Action::Print(t) && t@ == gc_report(o)),
                        },
                    GcStage::Reporting => st is Finished && (a matches Action::Done(Ok(()))),
                    GcStage::Finished => false,
                }
            }),
    {
        let mut stage = GcStage::Finished;
        core::mem::swap(&mut stage, &mut self.stage);
        match stage {
            GcStage::Start => {
                self.stage = GcStage::ReadingInventory;
                Action::Run(inventory_command(cfg))
            },
            GcStage::ReadingInventory => match ev {
                Event::Output(Err(e)) => Action::Done(Err(e)),
                Event::Output(Ok(raw)) => {
                    let inv = parse_inventory(raw.as_str(), cfg);
                    let o = gc_find_orphans(&inv);
                    assert(parsed_inventory(raw@, cfg.session_prefix@, inv));
                    assert(orphans_of(inv, o));
                    let fits = match o.sessions.len().checked_add(o.worktrees.len()) {
                        Some(n) => n.checked_add(o.branches.len()).is_some(),
                        None => false,
                    };
                    if !fits {
                        return Action::Done(Err(SkulkError::Validation(owned("Too many orphaned resources to report."))));
                    }
                    if self.dry_run {
                        let mut t = format_gc_summary(&o, true);
                        t.append("\n");
                        self.stage = GcStage::Reporting;
                        Action::Print(t)
                    } else {
                        let (st, a) = Self::begin_cleanup(inv, o, cfg);
                        self.stage = st;
                        a
                    }
                },
                _ => Action::Done(Ok(())),
            },
            GcStage::Cleaning(inv, o, mut b) => match b.step(ev) {
                Some(x) => {
                    self.stage = GcStage::Cleaning(inv, o, b);
                    x
                },
                None => {
                    let (st, a) = Self::after_cleanup(inv, o, cfg);
                    self.stage = st;
                    a
                },
            },
            GcStage::Pruning(inv, o) => {
                self.stage = GcStage::ListingState(inv, o);
                Action::Run(list_state_files_command())
            },
            GcStage::ListingState(inv, o) => match ev {
                Event::Output(r) => {
                    let raw = match r {
                        Ok(x) => x,
                        Err(_) => String::new(),
                    };
                    let stale = stale_state_files(raw.as_str(), &inv, &o, cfg);
                    let (st, a) = Self::begin_reaping(o, stale, cfg);
                    self.stage = st;
                    a
                },
                _ => Action::Done(Ok(())),
            },
            GcStage::Reaping(o, mut b) => match b.step(ev) {
                Some(x) => {
                    self.stage = GcStage::Reaping(o, b);
                    x
                },
                None => {
                    let t = Self::report(&o);
                    self.stage = GcStage::Reporting;
                    Action::Print(t)
                },
            },
            GcStage::Reporting => Action::Done(Ok(())),
            GcStage::Finished => Action::Done(Ok(())),
        }
    }
}

} // verus!
