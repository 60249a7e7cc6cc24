//! A reference to an agent: its user-facing name paired with the configured
//! session prefix.

use vstd::prelude::*;
use crate::config::{is_shell_safe_char, shell_safe, Config};
use crate::text::{owned, starts_with, strip_prefix_str};
use crate::util::{is_name_char, validate_name_spec};

verus! {

/// A reference to an agent, pairing its user-facing `name` with the configured
/// session prefix so that the fully-qualified session/branch/worktree
/// identifiers can be produced without re-deriving them at every call site.
pub struct AgentRef {
    name: String,
    prefix: String,
}

/// The name that `from_qualified` recovers from a qualified string: the text
/// after the prefix when the prefix matches, else the whole string.
pub open spec fn unqualified(qualified: Seq<char>, prefix: Seq<char>) -> Seq<char> {
    if starts_with(qualified, prefix) {
        qualified.skip(prefix.len() as int)
    } else {
        qualified
    }
}

/// The worktree path of a session under `worktree_base`: `<base>/<session>`.
pub open spec fn worktree_path_spec(worktree_base: Seq<char>, session: Seq<char>) -> Seq<char> {
    worktree_base + "/"@ + session
}

impl AgentRef {
    /// The agent's bare name.
    pub closed spec fn name_view(&self) -> Seq<char> {
        self.name@
    }

    /// The session prefix the agent was built with.
    pub closed spec fn prefix_view(&self) -> Seq<char> {
        self.prefix@
    }

    /// The fully-qualified identifier: prefix followed by name.
    pub open spec fn session_view(&self) -> Seq<char> {
        self.prefix_view() + self.name_view()
    }

    /// Build an `AgentRef` from the user-facing agent name.
    pub fn new(name: &str, cfg: &Config) -> (r: Self)
        ensures
            r.name_view() == name@,
            r.prefix_view() == cfg.session_prefix@,
    {
        AgentRef { name: owned(name), prefix: cfg.session_prefix.clone() }
    }

    /// Build an `AgentRef` from a prefix-qualified string (a tmux session name
    /// or branch name). If the prefix doesn't match, the entire string becomes
    /// the name.
    pub fn from_qualified(qualified: &str, cfg: &Config) -> (r: Self)
        ensures
            r.name_view() == unqualified(qualified@, cfg.session_prefix@),
            r.prefix_view() == cfg.session_prefix@,
    {
        let name = match strip_prefix_str(qualified, cfg.session_prefix.as_str()) {
            Some(rest) => rest,
            None => owned(qualified),
        };
        AgentRef { name, prefix: cfg.session_prefix.clone() }
    }

    /// The agent's bare name.
    pub fn name(&self) -> (r: &str)
        ensures
            r@ == self.name_view(),
    {
        self.name.as_str()
    }

    /// The fully-qualified identifier used as both the tmux session name and
    /// the git branch name.
    pub fn session_name(&self) -> (r: String)
        ensures
            r@ == self.session_view(),
    {
        let mut s = self.prefix.clone();
        s.append(self.name.as_str());
        s
    }

    /// Same as `session_name`, under a branch-flavoured alias.
    pub fn branch_name(&self) -> (r: String)
        ensures
            r@ == self.session_view(),
    {
        self.session_name()
    }

    /// Absolute worktree path on the remote: `<worktree_base>/<session_name>`.
    pub fn worktree_path(&self, cfg: &Config) -> (r: String)
        ensures
            r@ == worktree_path_spec(cfg.worktree_base@, self.session_view()),
    {
        let mut s = cfg.worktree_base.clone();
        s.append("/");
        s.append(self.session_name().as_str());
        s
    }
}

/// Qualifying a name and reading it back gives the name again: the session
/// name of `AgentRef::new(name)` yields `name` under `from_qualified`.
pub proof fn lemma_qualify_roundtrip(name: Seq<char>, prefix: Seq<char>)
    ensures
        unqualified(prefix + name, prefix) == name,
{
    assert((prefix + name).take(prefix.len() as int) =~= prefix);
    assert((prefix + name).skip(prefix.len() as int) =~= name);
}

/// A qualified string that carries the prefix is the prefix followed by the
/// name `from_qualified` recovers from it.
pub proof fn lemma_requalify(qualified: Seq<char>, prefix: Seq<char>)
    requires
        starts_with(qualified, prefix),
    ensures
        prefix + unqualified(qualified, prefix) == qualified,
{
    assert(prefix + qualified.skip(prefix.len() as int) =~= qualified);
}


/// A name that passes validation, put after a shell-safe prefix, gives a
/// shell-safe session name: the session, branch and worktree names built
/// from it can stand unquoted in remote commands.
pub proof fn lemma_valid_name_shell_safe(name: Seq<char>, prefix: Seq<char>)
    requires
        validate_name_spec(name) is Ok,
        shell_safe(prefix),
    ensures
        shell_safe(prefix + name),
{
    assert(forall|i: int| 0 <= i < name.len() ==> is_name_char(#[trigger] name[i]));
    assert forall|i: int| 0 <= i < (prefix + name).len() implies is_shell_safe_char(#[trigger] (prefix + name)[i]) by {
        if i < prefix.len() {
            assert((prefix + name)[i] == prefix[i]);
        } else {
            assert((prefix + name)[i] == name[i - prefix.len()]);
            assert(is_name_char(name[i - prefix.len()]));
        }
    }
}

} // verus!
