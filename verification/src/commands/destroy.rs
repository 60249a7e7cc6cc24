//! `skulk destroy`: tear down an agent's tmux session, worktree, branch and
//! state marker.

use vstd::prelude::*;
use crate::agent_ref::{unqualified, worktree_path_spec, AgentRef};
use crate::config::Config;
use crate::error::{ErrorView, SkulkError};
use crate::commands::flow::{batch_next, batch_wf, job_views, job_wf, jobs_wf, Action, Batch, BatchPhase, Event, Job, JobView};
use crate::inventory::{inventory_command, inventory_command_spec, parse_inventory, parsed_inventory, AgentInventory};
use crate::order::{sorted_unique, strictly_sorted};
use crate::text::{join, join_exec, owned, u64_to_dec, nat_dec, vec_contains, views};
use crate::util::{validate_name, validate_name_spec};

verus! {

/// `tmux kill-session -t <session>`.
pub open spec fn destroy_session_spec(session: Seq<char>) -> Seq<char> {
    "tmux kill-session -t "@ + session
}

/// `cd <base> && git worktree remove --force <worktree>`.
pub open spec fn destroy_worktree_spec(base_path: Seq<char>, worktree: Seq<char>) -> Seq<char> {
    "cd "@ + base_path + " && git worktree remove --force "@ + worktree
}

/// `cd <base> && git branch -D <branch>`.
pub open spec fn destroy_branch_spec(base_path: Seq<char>, branch: Seq<char>) -> Seq<char> {
    "cd "@ + base_path + " && git branch -D "@ + branch
}

/// `rm -f ~/.skulk/state/<session>`.
pub open spec fn destroy_state_file_spec(session: Seq<char>) -> Seq<char> {
    "rm -f ~/.skulk/state/"@ + session
}

/// The SSH command that kills an agent's tmux session.
pub fn agent_destroy_session_command(name: &str, cfg: &Config) -> (r: String)
    ensures
        r@ == destroy_session_spec(cfg.session_prefix@ + name@),
{
    let agent = AgentRef::new(name, cfg);
    let mut s = owned("tmux kill-session -t ");
    s.append(agent.session_name().as_str());
    s
}

/// The SSH command that removes an agent's git worktree.
pub fn agent_destroy_worktree_command(name: &str, cfg: &Config) -> (r: String)
    ensures
        r@ == destroy_worktree_spec(
            cfg.base_path@,
            worktree_path_spec(cfg.worktree_base@, cfg.session_prefix@ + name@),
        ),
{
    let agent = AgentRef::new(name, cfg);
    let mut s = owned("cd ");
    s.append(cfg.base_path.as_str());
    s.append(" && git worktree remove --force ");
    s.append(agent.worktree_path(cfg).as_str());
    s
}

/// The SSH command that deletes an agent's git branch.
pub fn agent_destroy_branch_command(name: &str, cfg: &Config) -> (r: String)
    ensures
        r@ == destroy_branch_spec(cfg.base_path@, cfg.session_prefix@ + name@),
{
    let agent = AgentRef::new(name, cfg);
    let mut s = owned("cd ");
    s.append(cfg.base_path.as_str());
    s.append(" && git branch -D ");
    s.append(agent.branch_name().as_str());
    s
}

/// The SSH command that deletes an agent's Stop-hook state file
/// (`~/.skulk/state/<session>`); `rm -f` makes a missing file a no-op.
pub fn agent_destroy_state_file_command(name: &str, cfg: &Config) -> (r: String)
    ensures
        r@ == destroy_state_file_spec(cfg.session_prefix@ + name@),
{
    let agent = AgentRef::new(name, cfg);
    let mut s = owned("rm -f ~/.skulk/state/");
    s.append(agent.session_name().as_str());
    s
}

/// Which of an agent's resources exist on the remote.
#[derive(Debug, Clone, Copy, PartialEq, Eq, Structural)]
pub struct DestroyTargets {
    pub has_session: bool,
    pub has_worktree: bool,
    pub has_branch: bool,
}

/// The targets of an agent in an inventory, by its session name.
pub open spec fn targets_spec(inv_sessions: Seq<Seq<char>>, inv_worktrees: Set<Seq<char>>, inv_branches: Seq<Seq<char>>, session: Seq<char>) -> DestroyTargets {
    DestroyTargets {
        has_session: inv_sessions.contains(session),
        has_worktree: inv_worktrees.contains(session),
        has_branch: inv_branches.contains(session),
    }
}

/// Check `name` and find what of it exists: a validation error for a bad
/// name, `NotFound` ("No agent '<name>' found.") when nothing exists,
/// else the resources present.
pub fn destroy_targets(name: &str, inv: &AgentInventory, cfg: &Config) -> (r: Result<DestroyTargets, SkulkError>)
    ensures
        validate_name_spec(name@) is Err ==> (r matches Err(e) && e@ == ErrorView::Validation(validate_name_spec(name@)->Err_0)),
        validate_name_spec(name@) is Ok ==> {
            let t = targets_spec(views(inv.sessions@), inv.worktrees@.dom(), views(inv.branches@), cfg.session_prefix@ + name@);
            &&& (t.has_session || t.has_worktree || t.has_branch) ==> r == Ok::<DestroyTargets, SkulkError>(t)
            &&& !(t.has_session || t.has_worktree || t.has_branch) ==> (r matches Err(e) && e@ == ErrorView::NotFound("No agent '"@ + name@ + "' found."@))
        },
{
    match validate_name(name) {
        Err(e) => {
            return Err(e);
        },
        Ok(()) => {},
    }
    let session = AgentRef::new(name, cfg).session_name();
    let t = DestroyTargets {
        has_session: vec_contains(&inv.sessions, session.as_str()),
        has_worktree: inv.worktrees.contains_key(session.as_str()),
        has_branch: vec_contains(&inv.branches, session.as_str()),
    };
    if !t.has_session && !t.has_worktree && !t.has_branch {
        let mut m = owned("No agent '");
        m.append(name);
        m.append("' found.");
        return Err(SkulkError::NotFound(m));
    }
    Ok(t)
}

/// One cleanup step of `destroy`.
#[derive(Debug, Clone, Copy, PartialEq, Eq, Structural)]
pub enum DestroyStep {
    Session,
    Worktree,
    Branch,
}

/// How a step is named in the report.
pub open spec fn step_label_spec(s: DestroyStep) -> Seq<char> {
    match s {
        DestroyStep::Session => "tmux session"@,
        DestroyStep::Worktree => "worktree"@,
        DestroyStep::Branch => "branch"@,
    }
}

/// The step's name in the report.
pub fn step_label(s: DestroyStep) -> (r: &'static str)
    ensures
        r@ == step_label_spec(s),
{
    match s {
        DestroyStep::Session => "tmux session",
        DestroyStep::Worktree => "worktree",
        DestroyStep::Branch => "branch",
    }
}

/// The command step `s` runs for the agent of session `session`.
pub open spec fn step_command_spec(s: DestroyStep, session: Seq<char>, cfg: Config) -> Seq<char> {
    match s {
        DestroyStep::Session => destroy_session_spec(session),
        DestroyStep::Worktree => destroy_worktree_spec(cfg.base_path@, worktree_path_spec(cfg.worktree_base@, session)),
        DestroyStep::Branch => destroy_branch_spec(cfg.base_path@, session),
    }
}

/// The command a step runs for agent `name`.
pub fn step_command(s: DestroyStep, name: &str, cfg: &Config) -> (r: String)
    ensures
        r@ == step_command_spec(s, cfg.session_prefix@ + name@, *cfg),
{
    match s {
        DestroyStep::Session => agent_destroy_session_command(name, cfg),
        DestroyStep::Worktree => agent_destroy_worktree_command(name, cfg),
        DestroyStep::Branch => agent_destroy_branch_command(name, cfg),
    }
}

/// The steps of destroying one agent: its session if present; its worktree
/// and then its branch if the worktree is present, else the branch alone if
/// only the branch is left.
pub open spec fn destroy_steps_spec(t: DestroyTargets) -> Seq<DestroyStep> {
    let s = if t.has_session { seq![DestroyStep::Session] } else { Seq::empty() };
    if t.has_worktree {
        s + seq![DestroyStep::Worktree, DestroyStep::Branch]
    } else if t.has_branch {
        s + seq![DestroyStep::Branch]
    } else {
        s
    }
}

/// The cleanup steps for one agent, in order.
pub fn destroy_steps(t: DestroyTargets) -> (r: Vec<DestroyStep>)
    ensures
        r@ == destroy_steps_spec(t),
{
    let mut v: Vec<DestroyStep> = Vec::new();
    if t.has_session {
        v.push(DestroyStep::Session);
    }
    if t.has_worktree {
        v.push(DestroyStep::Worktree);
        v.push(DestroyStep::Branch);
    } else if t.has_branch {
        v.push(DestroyStep::Branch);
    }
    assert(v@ =~= destroy_steps_spec(t));
    v
}

/// The steps `destroy --all` takes for one agent: each present resource,
/// session, worktree, branch, in that order.
pub open spec fn destroy_all_steps_spec(t: DestroyTargets) -> Seq<DestroyStep> {
    (if t.has_session { seq![DestroyStep::Session] } else { Seq::empty() })
        + (if t.has_worktree { seq![DestroyStep::Worktree] } else { Seq::empty() })
        + (if t.has_branch { seq![DestroyStep::Branch] } else { Seq::empty() })
}

/// The cleanup steps `destroy --all` takes for one agent.
pub fn destroy_all_steps(t: DestroyTargets) -> (r: Vec<DestroyStep>)
    ensures
        r@ == destroy_all_steps_spec(t),
{
    let mut v: Vec<DestroyStep> = Vec::new();
    if t.has_session {
        v.push(DestroyStep::Session);
    }
    if t.has_worktree {
        v.push(DestroyStep::Worktree);
    }
    if t.has_branch {
        v.push(DestroyStep::Branch);
    }
    assert(v@ =~= destroy_all_steps_spec(t));
    v
}

/// The confirmation question for destroying one agent.
pub fn destroy_prompt(name: &str) -> (r: String)
    ensures
        r@ == "Destroy agent '"@ + name@ + "'? [y/N]"@,
{
    let mut s = owned("Destroy agent '");
    s.append(name);
    s.append("'? [y/N]");
    s
}

/// The line naming what `destroy` cleaned.
pub open spec fn destroyed_line(name: Seq<char>, cleaned: Seq<Seq<char>>) -> Seq<char> {
    "Destroyed agent '"@ + name + "' ("@ + join(cleaned, ", "@) + ")."@
}

/// The warning naming what `destroy` failed to clean.
pub open spec fn cleanup_warning(name: Seq<char>, failed: Seq<Seq<char>>) -> Seq<char> {
    "Warning: failed to clean up "@ + join(failed, ", "@) + " for agent '"@ + name + "'. Run `skulk gc` to retry."@
}

/// What `destroy` reports: a line naming the cleaned resources, when any
/// were, and a warning naming the ones that failed, when any did.
pub fn destroy_report(name: &str, cleaned: &Vec<String>, failed: &Vec<String>) -> (r: (Option<String>, Option<String>))
    ensures
        cleaned@.len() == 0 ==> r.0 is None,
        cleaned@.len() > 0 ==> (r.0 matches Some(m) && m@ == destroyed_line(name@, views(cleaned@))),
        failed@.len() == 0 ==> r.1 is None,
        failed@.len() > 0 ==> (r.1 matches Some(m) && m@ == cleanup_warning(name@, views(failed@))),
{
    let first = if cleaned.len() > 0 {
        let mut s = owned("Destroyed agent '");
        s.append(name);
        s.append("' (");
        s.append(join_exec(cleaned, ", ").as_str());
        s.append(").");
        Some(s)
    } else {
        None
    };
    let second = if failed.len() > 0 {
        let mut s = owned("Warning: failed to clean up ");
        s.append(join_exec(failed, ", ").as_str());
        s.append(" for agent '");
        s.append(name);
        s.append("'. Run `skulk gc` to retry.");
        Some(s)
    } else {
        None
    };
    (first, second)
}

/// The bare names of all agents that have any resource in the inventory.
pub open spec fn all_agent_names(inv_sessions: Seq<Seq<char>>, inv_worktrees: Set<Seq<char>>, inv_branches: Seq<Seq<char>>, prefix: Seq<char>) -> Set<Seq<char>> {
    Set::new(
        |n: Seq<char>|
            exists|q: Seq<char>|
                (inv_sessions.contains(q) || inv_worktrees.contains(q) || inv_branches.contains(q))
                    && #[trigger] unqualified(q, prefix) == n,
    )
}

/// Every agent in the inventory, by bare name, sorted and each once:
/// sessions, worktrees and branches together.
pub fn destroy_all_names(inv: &AgentInventory, cfg: &Config) -> (r: Vec<String>)
    ensures
        strictly_sorted(views(r@)),
        views(r@).to_set() == all_agent_names(
            views(inv.sessions@),
            inv.worktrees@.dom(),
            views(inv.branches@),
            cfg.session_prefix@,
        ),
{
    let ghost target = all_agent_names(
        views(inv.sessions@),
        inv.worktrees@.dom(),
        views(inv.branches@),
        cfg.session_prefix@,
    );
    let ghost pre = cfg.session_prefix@;
    let mut names: Vec<String> = Vec::new();
    let mut i: usize = 0;
    while i < inv.sessions.len()
        invariant
            i <= inv.sessions.len(),
            forall|k: int| 0 <= k < names@.len() ==> #[trigger] target.contains(names@[k]@),
            forall|j: int| 0 <= j < i ==> views(names@).contains(unqualified(#[trigger] inv.sessions@[j]@, pre)),
            pre == cfg.session_prefix@,
            target == all_agent_names(views(inv.sessions@), inv.worktrees@.dom(), views(inv.branches@), pre),
        decreases inv.sessions.len() - i,
    {
        let a = AgentRef::from_qualified(inv.sessions[i].as_str(), cfg);
        let n = owned(a.name());
        proof {
            assert(views(inv.sessions@)[i as int] == inv.sessions@[i as int]@);
            assert(target.contains(n@));
        }
        let ghost before = names@;
        names.push(n);
        proof {
            assert forall|j: int| 0 <= j < i + 1 implies views(names@).contains(unqualified(#[trigger] inv.sessions@[j]@, pre)) by {
                if j < i {
                    let k = choose|k: int| 0 <= k < views(before).len() && views(before)[k] == unqualified(inv.sessions@[j]@, pre);
                    assert(views(names@)[k] == views(before)[k]);
                } else {
                    assert(views(names@)[before.len() as int] == n@);
                }
            }
        }
        i = i + 1;
    }
    let keys = inv.worktrees.keys();
    let mut i: usize = 0;
    let ghost n0 = names@.len();
    while i < keys.len()
        invariant
            i <= keys.len(),
            n0 <= names@.len(),
            keys@.len() == inv.worktrees.pairs().len(),
            forall|j: int| 0 <= j < keys@.len() ==> keys@[j]@ == inv.worktrees.pairs()[j].0,
            forall|k: int| 0 <= k < names@.len() ==> #[trigger] target.contains(names@[k]@),
            forall|j: int| 0 <= j < inv.sessions@.len() ==> views(names@).contains(unqualified(#[trigger] inv.sessions@[j]@, pre)),
            forall|j: int| 0 <= j < i ==> views(names@).contains(unqualified(#[trigger] keys@[j]@, pre)),
            pre == cfg.session_prefix@,
            target == all_agent_names(views(inv.sessions@), inv.worktrees@.dom(), views(inv.branches@), pre),
        decreases keys.len() - i,
    {
        let a = AgentRef::from_qualified(keys[i].as_str(), cfg);
        let n = owned(a.name());
        proof {
            inv.worktrees.lemma_dom(keys@[i as int]@);
            assert(inv.worktrees@.dom().contains(keys@[i as int]@));
            assert(target.contains(n@));
        }
        let ghost before = names@;
        names.push(n);
        proof {
            assert forall|x: Seq<char>| views(before).contains(x) implies views(names@).contains(x) by {
                let k = choose|k: int| 0 <= k < views(before).len() && views(before)[k] == x;
                assert(views(names@)[k] == x);
            }
            assert(views(names@)[before.len() as int] == n@);
        }
        i = i + 1;
    }
    let mut i: usize = 0;
    while i < inv.branches.len()
        invariant
            i <= inv.branches.len(),
            keys@.len() == inv.worktrees.pairs().len(),
            forall|j: int| 0 <= j < keys@.len() ==> keys@[j]@ == inv.worktrees.pairs()[j].0,
            forall|k: int| 0 <= k < names@.len() ==> #[trigger] target.contains(names@[k]@),
            forall|j: int| 0 <= j < inv.sessions@.len() ==> views(names@).contains(unqualified(#[trigger] inv.sessions@[j]@, pre)),
            forall|j: int| 0 <= j < keys@.len() ==> views(names@).contains(unqualified(#[trigger] keys@[j]@, pre)),
            forall|j: int| 0 <= j < i ==> views(names@).contains(unqualified(#[trigger] inv.branches@[j]@, pre)),
            pre == cfg.session_prefix@,
            target == all_agent_names(views(inv.sessions@), inv.worktrees@.dom(), views(inv.branches@), pre),
        decreases inv.branches.len() - i,
    {
        let a = AgentRef::from_qualified(inv.branches[i].as_str(), cfg);
        let n = owned(a.name());
        proof {
            assert(views(inv.branches@)[i as int] == inv.branches@[i as int]@);
            assert(target.contains(n@));
        }
        let ghost before = names@;
        names.push(n);
        proof {
            assert forall|x: Seq<char>| views(before).contains(x) implies views(names@).contains(x) by {
                let k = choose|k: int| 0 <= k < views(before).len() && views(before)[k] == x;
                assert(views(names@)[k] == x);
            }
            assert(views(names@)[before.len() as int] == n@);
        }
        i = i + 1;
    }
    let r = sorted_unique(&names);
    proof {
        assert forall|x: Seq<char>| views(names@).to_set().contains(x) implies target.contains(x) by {
            let k = choose|k: int| 0 <= k < views(names@).len() && views(names@)[k] == x;
            assert(target.contains(names@[k]@));
        }
        assert forall|x: Seq<char>| target.contains(x) implies views(names@).to_set().contains(x) by {
            let q = choose|q: Seq<char>|
                (views(inv.sessions@).contains(q) || inv.worktrees@.dom().contains(q) || views(inv.branches@).contains(q))
                    && #[trigger] unqualified(q, pre) == x;
            if views(inv.sessions@).contains(q) {
                let j = choose|j: int| 0 <= j < views(inv.sessions@).len() && views(inv.sessions@)[j] == q;
                assert(inv.sessions@[j]@ == q);
            } else if inv.worktrees@.dom().contains(q) {
                inv.worktrees.lemma_dom(q);
                let j = choose|j: int| 0 <= j < inv.worktrees.pairs().len() && inv.worktrees.pairs()[j].0 == q;
                assert(keys@[j]@ == q);
            } else {
                let j = choose|j: int| 0 <= j < views(inv.branches@).len() && views(inv.branches@)[j] == q;
                assert(inv.branches@[j]@ == q);
            }
        }
        assert(views(names@).to_set() =~= target);
    }
    r
}

/// The confirmation question for destroying `n` agents.
pub fn destroy_all_prompt(n: usize) -> (r: String)
    ensures
        r@ == "Destroy "@ + nat_dec(n as nat) + " agent(s)? [y/N]"@,
{
    let mut s = owned("Destroy ");
    s.append(u64_to_dec(n as u64).as_str());
    s.append(" agent(s)? [y/N]");
    s
}

/// The closing line of `destroy --all` after `total` agents, `warned` of
/// them with a failed step.
pub open spec fn destroy_all_summary_spec(total: nat, warned: nat) -> Seq<char> {
    if warned == 0 {
        "Destroyed "@ + nat_dec(total) + " agent(s)."@
    } else {
        "Destroyed "@ + nat_dec((total - warned) as nat) + " agent(s), "@ + nat_dec(warned) + " with warnings."@
    }
}

/// The closing line of `destroy --all` after `total` agents, `warned` of
/// them with a failed step.
pub fn destroy_all_summary(total: usize, warned: usize) -> (r: String)
    requires
        warned <= total,
    ensures
        r@ == destroy_all_summary_spec(total as nat, warned as nat),
{
    let mut s = owned("Destroyed ");
    if warned == 0 {
        s.append(u64_to_dec(total as u64).as_str());
        s.append(" agent(s).");
    } else {
        s.append(u64_to_dec((total - warned) as u64).as_str());
        s.append(" agent(s), ");
        s.append(u64_to_dec(warned as u64).as_str());
        s.append(" with warnings.");
    }
    s
}


/// The targets of the agent of session `session` in `inv`.
pub open spec fn inv_targets(inv: AgentInventory, session: Seq<char>) -> DestroyTargets {
    targets_spec(views(inv.sessions@), inv.worktrees@.dom(), views(inv.branches@), session)
}

/// The job that destroys agent `name` during `destroy --all`: its progress
/// line, a command per present resource (each counted), then the removal of
/// its state file (not counted); `done`, or `done (with warnings)` when a
/// counted command failed.
pub open spec fn destroy_all_job(name: Seq<char>, inv: AgentInventory, cfg: Config) -> JobView {
    let session = cfg.session_prefix@ + name;
    let steps = destroy_all_steps_spec(inv_targets(inv, session));
    JobView {
        announce: "Destroying "@ + session + "... "@,
        commands: steps.map_values(|s: DestroyStep| step_command_spec(s, session, cfg)) + seq![
            destroy_state_file_spec(session),
        ],
        checked: Seq::new(steps.len(), |i: int| true) + seq![false],
        ok_text: "done\n"@,
        fail_text: "done (with warnings)\n"@,
    }
}

/// The jobs of `destroy --all` for the agents `names`, in order.
pub open spec fn destroy_all_jobs(names: Seq<Seq<char>>, inv: AgentInventory, cfg: Config) -> Seq<JobView> {
    names.map_values(|n: Seq<char>| destroy_all_job(n, inv, cfg))
}

/// Build the job that destroys agent `name` during `destroy --all`.
pub fn make_destroy_all_job(name: &str, inv: &AgentInventory, cfg: &Config) -> (j: Job)
    ensures
        job_wf(&j),
        j@ == destroy_all_job(name@, *inv, *cfg),
{
    let agent = AgentRef::new(name, cfg);
    let session = agent.session_name();
    let t = DestroyTargets {
        has_session: vec_contains(&inv.sessions, session.as_str()),
        has_worktree: inv.worktrees.contains_key(session.as_str()),
        has_branch: vec_contains(&inv.branches, session.as_str()),
    };
    let ghost sv = session@;
    let ghost cf = *cfg;
    assert(sv == cfg.session_prefix@ + name@);
    assert(t == inv_targets(*inv, sv));
    let steps = destroy_all_steps(t);
    let ghost cmds = steps@.map_values(|s: DestroyStep| step_command_spec(s, sv, cf));
    let mut commands: Vec<String> = Vec::new();
    let mut checked: Vec<bool> = Vec::new();
    let mut i: usize = 0;
    while i < steps.len()
        invariant
            i <= steps.len(),
            sv == cfg.session_prefix@ + name@,
            cf == *cfg,
            cmds == steps@.map_values(|s: DestroyStep| step_command_spec(s, sv, cf)),
            views(commands@) == cmds.take(i as int),
            checked@ == Seq::new(i as nat, |k: int| true),
        decreases steps.len() - i,
    {
        let c = step_command(steps[i], name, cfg);
        let ghost before = views(commands@);
        commands.push(c);
        checked.push(true);
        assert(views(commands@) =~= before.push(c@));
        assert(cmds.take(i + 1) =~= cmds.take(i as int).push(cmds[i as int]));
        assert(checked@ =~= Seq::new((i + 1) as nat, |k: int| true));
        i = i + 1;
    }
    let rm = agent_destroy_state_file_command(name, cfg);
    let ghost before = views(commands@);
    commands.push(rm);
    checked.push(false);
    let mut announce = owned("Destroying ");
    announce.append(session.as_str());
    announce.append("... ");
    let j = Job { announce, commands, checked, ok_text: owned("done\n"), fail_text: owned("done (with warnings)\n") };
    assert(cmds.take(steps@.len() as int) =~= cmds);
    assert(views(j.commands@) =~= before.push(rm@));
    assert(j.checked@ =~= Seq::new(steps@.len(), |i: int| true) + seq![false]);
    assert(j.announce@ == "Destroying "@ + sv + "... "@);
    assert(views(j.commands@) == destroy_all_job(name@, *inv, *cfg).commands);
    j
}

/// The jobs of `destroy --all` for the agents `names`.
pub fn make_destroy_all_jobs(names: &Vec<String>, inv: &AgentInventory, cfg: &Config) -> (r: Vec<Job>)
    ensures
        jobs_wf(r@),
        job_views(r@) == destroy_all_jobs(views(names@), *inv, *cfg),
{
    let ghost all = destroy_all_jobs(views(names@), *inv, *cfg);
    let mut out: Vec<Job> = Vec::new();
    let mut i: usize = 0;
    while i < names.len()
        invariant
            i <= names.len(),
            all == destroy_all_jobs(views(names@), *inv, *cfg),
            jobs_wf(out@),
            job_views(out@) == all.take(i as int),
        decreases names.len() - i,
    {
        let j = make_destroy_all_job(names[i].as_str(), inv, cfg);
        let ghost before = out@;
        out.push(j);
        assert(job_views(out@) =~= job_views(before).push(all[i as int]));
        assert(all.take(i + 1) =~= all.take(i as int).push(all[i as int]));
        i = i + 1;
    }
    assert(all.take(names.len() as int) =~= all);
    out
}


/// `names` is every agent of `inv` by bare name, sorted, each once.
pub open spec fn names_of(inv: AgentInventory, cfg: Config, names: Vec<String>) -> bool {
    &&& strictly_sorted(views(names@))
    &&& views(names@).to_set() == all_agent_names(
        views(inv.sessions@),
        inv.worktrees@.dom(),
        views(inv.branches@),
        cfg.session_prefix@,
    )
}

/// Where `destroy --all` stands.
pub enum DestroyAllStage {
    /// Nothing done yet.
    Start,
    /// Waiting for the inventory.
    ReadingInventory,
    /// Waiting for the user to confirm destroying these agents.
    Confirming(AgentInventory, Vec<String>),
    /// Destroying the agents one by one.
    Destroying(Batch),
    /// The closing text is out.
    Reporting,
    /// The command is over.
    Finished,
}

/// A `destroy --all`, driven step by step.
pub struct DestroyAll {
    /// Skip the confirmation.
    pub force: bool,
    pub stage: DestroyAllStage,
}

/// The stored batch is consistent, under way, and writes to standard output.
pub open spec fn destroy_all_wf(st: DestroyAllStage) -> bool {
    match st {
        DestroyAllStage::Destroying(b) => batch_wf(&b) && b.phase != BatchPhase::Announce && b.to_stdout,
        DestroyAllStage::Confirming(_, names) => names@.len() > 0,
        _ => true,
    }
}

/// The event a stage waits for.
pub open spec fn destroy_all_expects(st: DestroyAllStage, ev: Event) -> bool {
    match st {
        DestroyAllStage::Start => ev is Begin,
        DestroyAllStage::ReadingInventory => ev is Output,
        DestroyAllStage::Confirming(_, _) => ev is Answer,
        DestroyAllStage::Destroying(b) => b.expects(ev),
        DestroyAllStage::Reporting => ev is Shown,
        DestroyAllStage::Finished => false,
    }
}

/// The start of the destruction of `names`: the first agent's progress line.
pub open spec fn destroy_all_start(inv: AgentInventory, names: Vec<String>, cfg: Config, st: DestroyAllStage, a: Action) -> bool {
    st matches DestroyAllStage::Destroying(b) && job_views(b.jobs@) == destroy_all_jobs(views(names@), inv, cfg) && b.job == 0
        && b.failures == 0 && (a matches Action::Print(t) && t@ == "Destroying "@ + cfg.session_prefix@ + names@[0]@
        + "... "@)
}

impl DestroyAll {
    /// A `destroy --all` not yet begun.
    pub fn new(force: bool) -> (r: Self)
        ensures
            r.force == force,
            r.stage is Start,
    {
        DestroyAll { force, stage: DestroyAllStage::Start }
    }

    fn begin(inv: AgentInventory, names: Vec<String>, cfg: &Config) -> (r: (DestroyAllStage, Action))
        requires
            names@.len() > 0,
        ensures
            destroy_all_wf(r.0),
            destroy_all_start(inv, names, *cfg, r.0, r.1),
    {
        let jobs = make_destroy_all_jobs(&names, &inv, cfg);
        assert(job_views(jobs@)[0] == destroy_all_job(names@[0]@, inv, *cfg));
        assert(jobs@.len() == job_views(jobs@).len());
        assert(job_views(jobs@)[0] == jobs@[0]@);
        let ghost j0 = jobs@[0];
        let mut b = Batch::new(jobs, true);
        match b.step(Event::Begin) {
            Some(x) => {
                assert(j0.announce@ == "Destroying "@ + cfg.session_prefix@ + names@[0]@ + "... "@);
                assert(x matches Action::Print(t) && t@ == j0.announce@);
                assert(b.job == 0);
                (DestroyAllStage::Destroying(b), x)
            },
            None => (DestroyAllStage::Reporting, Action::Print(String::new())),
        }
    }

    /// Take the next step: given what happened, say what to do. Every agent
    /// of the inventory is destroyed in name order after one confirmation
    /// (skipped with `force`); each gets a progress line closed by `done` or
    /// `done (with warnings)`, and a count of both comes last.
    pub fn step(&mut self, cfg: &Config, ev: Event) -> (a: Action)
        requires
            destroy_all_wf(old(self).stage),
            destroy_all_expects(old(self).stage, ev),
        ensures
            final(self).force == old(self).force,
            destroy_all_wf(final(self).stage),
            ({
                let st = final(self).stage;
                match old(self).stage {
                    DestroyAllStage::Start => st is ReadingInventory && (a matches Action::Run(c) && c@
                        == inventory_command_spec(cfg.base_path@, cfg.session_prefix@)),
                    DestroyAllStage::ReadingInventory => match ev {
                        Event::Output(Err(e)) => st is Finished && a == Action::Done(Err(e)),
                        Event::Output(Ok(raw)) => exists|inv: AgentInventory, names: Vec<String>|
                            #![trigger parsed_inventory(raw@, cfg.session_prefix@, inv), names_of(inv, *cfg, names)]
                            parsed_inventory(raw@, cfg.session_prefix@, inv) && names_of(inv, *cfg, names) && if names@.len()
                                == 0 {
                                st is Reporting && (a matches Action::Print(t) && t@ == "No agents to destroy.\n"@)
                            } else if old(self).force {
                                destroy_all_start(inv, names, *cfg, st, a)
                            } else {
                                st == DestroyAllStage::Confirming(inv, names) && (a matches Action::Confirm(q) && q@
                                    == "Destroy "@ + nat_dec(names@.len()) + " agent(s)? [y/N]"@)
                            },
                        _ => false,
                    },
                    DestroyAllStage::Confirming(inv, names) => match ev {
                        Event::Answer(true) => destroy_all_start(inv, names, *cfg, st, a),
                        Event::Answer(false) => st is Reporting && (a matches Action::Print(t) && t@ == "Aborted.\n"@),
                        _ => false,
                    },
                    DestroyAllStage::Destroying(b) => exists|b2: Batch, x: Option<Action>|
                        #![trigger batch_next(b, ev, b2, x)]
                        batch_next(b, ev, b2, x) && match x {
                            Some(y) => st == DestroyAllStage::Destroying(b2) && a == y,
                            None => st is Reporting && (a matches Action::Print(t) && t@ == destroy_all_summary_spec(
                                b.jobs@.len(),
                                b2.failures as nat,
                            ) + "\n"@),
                        },
                    DestroyAllStage::Reporting => st is Finished && (a matches Action::Done(Ok(()))),
                    DestroyAllStage::Finished => false,
                }
            }),
    {
        let mut stage = DestroyAllStage::Finished;
        core::mem::swap(&mut stage, &mut self.stage);
        match stage {
            DestroyAllStage::Start => {
                self.stage = DestroyAllStage::ReadingInventory;
                Action::Run(inventory_command(cfg))
            },
            DestroyAllStage::ReadingInventory => match ev {
                Event::Output(Err(e)) => Action::Done(Err(e)),
                Event::Output(Ok(raw)) => {
                    let inv = parse_inventory(raw.as_str(), cfg);
                    let names = destroy_all_names(&inv, cfg);
                    assert(parsed_inventory(raw@, cfg.session_prefix@, inv));
                    assert(names_of(inv, *cfg, names));
                    if names.len() == 0 {
                        self.stage = DestroyAllStage::Reporting;
                        Action::Print(owned("No agents to destroy.\n"))
                    } else if self.force {
                        let (st, a) = Self::begin(inv, names, cfg);
                        self.stage = st;
                        a
                    } else {
                        let q = destroy_all_prompt(names.len());
                        self.stage = DestroyAllStage::Confirming(inv, names);
                        Action::Confirm(q)
                    }
                },
                _ => Action::Done(Ok(())),
            },
            DestroyAllStage::Confirming(inv, names) => match ev {
                Event::Answer(true) => {
                    let (st, a) = Self::begin(inv, names, cfg);
                    self.stage = st;
                    a
                },
                _ => {
                    self.stage = DestroyAllStage::Reporting;
                    Action::Print(owned("Aborted.\n"))
                },
            },
            DestroyAllStage::Destroying(mut b) => {
                let total = b.jobs.len();
                match b.step(ev) {
                    Some(x) => {
                        self.stage = DestroyAllStage::Destroying(b);
                        x
                    },
                    None => {
                        let mut t = destroy_all_summary(total, b.failures);
                        t.append("\n");
                        self.stage = DestroyAllStage::Reporting;
                        Action::Print(t)
                    },
                }
            },
            DestroyAllStage::Reporting => Action::Done(Ok(())),
            DestroyAllStage::Finished => Action::Done(Ok(())),
        }
    }
}


/// Where the destruction of one agent stands.
pub enum DestroyStage {
    /// Nothing done yet.
    Start,
    /// Waiting for the inventory.
    ReadingInventory,
    /// Waiting for the user to confirm; the agent has these resources.
    Confirming(DestroyTargets),
    /// Waiting for the output of step `at` of `steps`; the labels of the
    /// steps done so far are split into cleaned and failed.
    Cleaning(Vec<DestroyStep>, usize, Vec<String>, Vec<String>),
    /// Waiting for the removal of the state file.
    Reaping(Vec<String>, Vec<String>),
    /// The cleaned line is out; the failed labels may still need a warning.
    Reported(Vec<String>),
    /// The last text is out.
    Closing,
    /// The command is over.
    Finished,
}

/// The destruction of one agent, driven step by step.
pub struct Destroy {
    pub name: String,
    /// Skip the confirmation.
    pub force: bool,
    pub stage: DestroyStage,
}

/// The stage is consistent for agent `name`: past the start the name is
/// valid; a confirmation is only asked for an agent that exists; the labels
/// of the steps done are split into cleaned and failed.
pub open spec fn destroy_wf(name: Seq<char>, st: DestroyStage) -> bool {
    match st {
        DestroyStage::Start | DestroyStage::Finished => true,
        DestroyStage::Confirming(t) => validate_name_spec(name) is Ok && (t.has_session || t.has_worktree
            || t.has_branch),
        DestroyStage::Cleaning(steps, at, cleaned, failed) => validate_name_spec(name) is Ok && at < steps@.len()
            && cleaned@.len() + failed@.len() == at,
        _ => validate_name_spec(name) is Ok,
    }
}

/// The event a stage waits for.
pub open spec fn destroy_expects(st: DestroyStage, ev: Event) -> bool {
    match st {
        DestroyStage::Start => ev is Begin,
        DestroyStage::ReadingInventory | DestroyStage::Cleaning(_, _, _, _) | DestroyStage::Reaping(_, _) => ev is Output,
        DestroyStage::Confirming(_) => ev is Answer,
        DestroyStage::Reported(_) | DestroyStage::Closing => ev is Shown,
        DestroyStage::Finished => false,
    }
}

/// The start of the cleanup: the first step's command.
pub open spec fn destroy_start(t: DestroyTargets, session: Seq<char>, cfg: Config, st: DestroyStage, a: Action) -> bool {
    st matches DestroyStage::Cleaning(steps, at, cleaned, failed) && steps@ == destroy_steps_spec(t) && at == 0
        && cleaned@.len() == 0 && failed@.len() == 0 && (a matches Action::Run(c) && c@ == step_command_spec(
        destroy_steps_spec(t)[0],
        session,
        cfg,
    ))
}

/// The report once everything ran: the cleaned line, else the warning,
/// else nothing.
pub open spec fn destroy_report_start(name: Seq<char>, cleaned: Seq<Seq<char>>, failed: Vec<String>, st: DestroyStage, a: Action) -> bool {
    if cleaned.len() > 0 {
        st == DestroyStage::Reported(failed) && (a matches Action::Print(t) && t@ == destroyed_line(name, cleaned)
            + "\n"@)
    } else {
        destroy_warning_step(name, failed, st, a)
    }
}

/// The warning for the failed labels, if any, else the end.
pub open spec fn destroy_warning_step(name: Seq<char>, failed: Vec<String>, st: DestroyStage, a: Action) -> bool {
    if failed@.len() > 0 {
        st is Closing && (a matches Action::Note(t) && t@ == cleanup_warning(name, views(failed@)) + "\n"@)
    } else {
        st is Finished && (a matches Action::Done(Ok(())))
    }
}

/// The steps are never empty when something is present.
proof fn lemma_steps_nonempty(t: DestroyTargets)
    requires
        t.has_session || t.has_worktree || t.has_branch,
    ensures
        destroy_steps_spec(t).len() > 0,
{
}

impl Destroy {
    /// The destruction of agent `name`, not yet begun.
    pub fn new(name: String, force: bool) -> (r: Self)
        ensures
            r.name == name,
            r.force == force,
            r.stage is Start,
    {
        Destroy { name, force, stage: DestroyStage::Start }
    }

    fn begin(t: DestroyTargets, name: &str, cfg: &Config) -> (r: (DestroyStage, Action))
        requires
            t.has_session || t.has_worktree || t.has_branch,
            validate_name_spec(name@) is Ok,
        ensures
            destroy_wf(name@, r.0),
            destroy_start(t, cfg.session_prefix@ + name@, *cfg, r.0, r.1),
    {
        proof {
            lemma_steps_nonempty(t);
        }
        let steps = destroy_steps(t);
        let c = step_command(steps[0], name, cfg);
        (DestroyStage::Cleaning(steps, 0, Vec::new(), Vec::new()), Action::Run(c))
    }

    fn warning(name: &str, failed: Vec<String>) -> (r: (DestroyStage, Action))
        requires
            validate_name_spec(name@) is Ok,
        ensures
            destroy_wf(name@, r.0),
            destroy_warning_step(name@, failed, r.0, r.1),
    {
        let (_, w) = destroy_report(name, &Vec::new(), &failed);
        match w {
            Some(mut m) => {
                m.append("\n");
                (DestroyStage::Closing, Action::Note(m))
            },
            None => (DestroyStage::Finished, Action::Done(Ok(()))),
        }
    }

    /// Take the next step: given what happened, say what to do. The name is
    /// checked before anything is sent; an agent with no resource at all is
    /// not found; after one confirmation (skipped with `force`) its session,
    /// worktree and branch are removed, each independently of the others'
    /// outcome, then its state file; the report names what was cleaned and
    /// warns about what failed.
    pub fn step(&mut self, cfg: &Config, ev: Event) -> (a: Action)
        requires
            destroy_wf(old(self).name@, old(self).stage),
            destroy_expects(old(self).stage, ev),
        ensures
            final(self).name == old(self).name,
            final(self).force == old(self).force,
            destroy_wf(final(self).name@, final(self).stage),
            ({
                let name = old(self).name@;
                let session = cfg.session_prefix@ + name;
                let st = final(self).stage;
                match old(self).stage {
                    DestroyStage::Start => match validate_name_spec(name) {
                        Err(m) => st is Finished && (a matches Action::Done(Err(e)) && e@ == ErrorView::Validation(m)),
                        Ok(()) => st is ReadingInventory && (a matches Action::Run(c) && c@ == inventory_command_spec(
                            cfg.base_path@,
                            cfg.session_prefix@,
                        )),
                    },
                    DestroyStage::ReadingInventory => match ev {
                        Event::Output(Err(e)) => st is Finished && a == Action::Done(Err(e)),
                        Event::Output(Ok(raw)) => exists|inv: AgentInventory|
                            #![trigger parsed_inventory(raw@, cfg.session_prefix@, inv)]
                            parsed_inventory(raw@, cfg.session_prefix@, inv) && {
                                let t = inv_targets(inv, session);
                                if !(t.has_session || t.has_worktree || t.has_branch) {
                                    st is Finished && (a matches Action::Done(Err(e)) && e@ == ErrorView::NotFound(
                                        "No agent '"@ + name + "' found."@,
                                    ))
                                } else if old(self).force {
                                    destroy_start(t, session, *cfg, st, a)
                                } else {
                                    st == DestroyStage::Confirming(t) && (a matches Action::Confirm(q) && q@
                                        == "Destroy agent '"@ + name + "'? [y/N]"@)
                                }
                            },
                        _ => false,
                    },
                    DestroyStage::Confirming(t) => match ev {
                        Event::Answer(true) => destroy_start(t, session, *cfg, st, a),
                        Event::Answer(false) => st is Closing && (a matches Action::Print(m) && m@ == "Aborted.\n"@),
                        _ => false,
                    },
                    DestroyStage::Cleaning(steps, at, cleaned, failed) => match ev {
                        Event::Output(r) => {
                            let label = step_label_spec(steps@[at as int]);
                            let c2 = if r is Ok { views(cleaned@).push(label) } else { views(cleaned@) };
                            let f2 = if r is Ok { views(failed@) } else { views(failed@).push(label) };
                            if at + 1 < steps@.len() {
                                st matches DestroyStage::Cleaning(s3, at3, c3, f3) && s3 == steps && at3 == at + 1
                                    && views(c3@) == c2 && views(f3@) == f2 && (a matches Action::Run(c) && c@
                                    == step_command_spec(steps@[at + 1], session, *cfg))
                            } else {
                                st matches DestroyStage::Reaping(c3, f3) && views(c3@) == c2 && views(f3@) == f2 && (
                                a matches Action::Run(c) && c@ == destroy_state_file_spec(session))
                            }
                        },
                        _ => false,
                    },
                    DestroyStage::Reaping(cleaned, failed) => destroy_report_start(name, views(cleaned@), failed, st, a),
                    DestroyStage::Reported(failed) => destroy_warning_step(name, failed, st, a),
                    DestroyStage::Closing => st is Finished && (a matches Action::Done(Ok(()))),
                    DestroyStage::Finished => false,
                }
            }),
    {
        let mut stage = DestroyStage::Finished;
        core::mem::swap(&mut stage, &mut self.stage);
        let name = self.name.as_str();
        match stage {
            DestroyStage::Start => match validate_name(name) {
                Err(e) => Action::Done(Err(e)),
                Ok(()) => {
                    self.stage = DestroyStage::ReadingInventory;
                    Action::Run(inventory_command(cfg))
                },
            },
            DestroyStage::ReadingInventory => match ev {
                Event::Output(Err(e)) => Action::Done(Err(e)),
                Event::Output(Ok(raw)) => {
                    let inv = parse_inventory(raw.as_str(), cfg);
                    assert(parsed_inventory(raw@, cfg.session_prefix@, inv));
                    match destroy_targets(name, &inv, cfg) {
                        Err(e) => Action::Done(Err(e)),
                        Ok(t) => {
                            if self.force {
                                let (st, a) = Self::begin(t, name, cfg);
                                self.stage = st;
                                a
                            } else {
                                self.stage = DestroyStage::Confirming(t);
                                Action::Confirm(destroy_prompt(name))
                            }
                        },
                    }
                },
                _ => Action::Done(Ok(())),
            },
            DestroyStage::Confirming(t) => match ev {
                Event::Answer(true) => {
                    let (st, a) = Self::begin(t, name, cfg);
                    self.stage = st;
                    a
                },
                _ => {
                    self.stage = DestroyStage::Closing;
                    Action::Print(owned("Aborted.\n"))
                },
            },
            DestroyStage::Cleaning(steps, at, mut cleaned, mut failed) => match ev {
                Event::Output(r) => {
                    let n = steps.len();
                    let label = owned(step_label(steps[at]));
                    if r.is_ok() {
                        cleaned.push(label);
                    } else {
                        failed.push(label);
                    }
                    if at + 1 < n {
                        let c = step_command(steps[at + 1], name, cfg);
                        self.stage = DestroyStage::Cleaning(steps, at + 1, cleaned, failed);
                        Action::Run(c)
                    } else {
                        self.stage = DestroyStage::Reaping(cleaned, failed);
                        Action::Run(agent_destroy_state_file_command(name, cfg))
                    }
                },
                _ => Action::Done(Ok(())),
            },
            DestroyStage::Reaping(cleaned, failed) => {
                let (line, _) = destroy_report(name, &cleaned, &Vec::new());
                match line {
                    Some(mut m) => {
                        m.append("\n");
                        self.stage = DestroyStage::Reported(failed);
                        Action::Print(m)
                    },
                    None => {
                        let (st, a) = Self::warning(name, failed);
                        self.stage = st;
                        a
                    },
                }
            },
            DestroyStage::Reported(failed) => {
                let (st, a) = Self::warning(name, failed);
                self.stage = st;
                a
            },
            DestroyStage::Closing => Action::Done(Ok(())),
            DestroyStage::Finished => Action::Done(Ok(())),
        }
    }
}

} // verus!
