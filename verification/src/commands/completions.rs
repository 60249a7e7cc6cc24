//! Shell completion: the agent-taking subcommands and the hand-written
//! snippets that complete live agent names, appended to the static script.

use vstd::prelude::*;
use crate::text::{join, join_exec, owned, views};

verus! {

/// A shell that completion scripts are generated for.
#[derive(Debug, Clone, Copy, PartialEq, Eq, Structural)]
pub enum CompletionShell {
    Bash,
    Zsh,
    Fish,
}

/// The subcommands whose first argument is an existing agent's name.
pub open spec fn agent_commands_spec() -> Seq<Seq<char>> {
    seq!["archive"@, "connect"@, "destroy"@, "diff"@, "disconnect"@, "git-log"@, "logs"@, "push"@, "restart"@, "send"@, "ship"@, "status"@, "transcript"@, "wait"@]
}

/// The subcommands whose first argument is an existing agent's name; `new`
/// (a new name) and the commands taking no agent are left out.
pub fn agent_commands() -> (r: Vec<String>)
    ensures
        views(r@) == agent_commands_spec(),
{
    let mut v: Vec<String> = Vec::new();
    v.push(owned("archive"));
    v.push(owned("connect"));
    v.push(owned("destroy"));
    v.push(owned("diff"));
    v.push(owned("disconnect"));
    v.push(owned("git-log"));
    v.push(owned("logs"));
    v.push(owned("push"));
    v.push(owned("restart"));
    v.push(owned("send"));
    v.push(owned("ship"));
    v.push(owned("status"));
    v.push(owned("transcript"));
    v.push(owned("wait"));
    assert(views(v@) =~= agent_commands_spec());
    v
}

/// The bash snippet for the `|`-joined commands.
pub open spec fn bash_snippet_spec(cmds_pipe: Seq<char>) -> Seq<char> {
    "\n\n# \u{2500}\u{2500} skulk: dynamic agent-name completion \u{2500}\u{2500}\u{2500}\u{2500}\u{2500}\u{2500}\u{2500}\u{2500}\u{2500}\u{2500}\u{2500}\u{2500}\u{2500}\u{2500}\u{2500}\u{2500}\u{2500}\u{2500}\u{2500}\u{2500}\u{2500}\u{2500}\u{2500}\u{2500}\u{2500}\u{2500}\u{2500}\u{2500}\u{2500}\u{2500}\u{2500}\u{2500}\n# Wraps the clap-generated _skulk function. When the user is completing\n# the first positional argument after an agent-taking subcommand, we add\n# live agent names from `skulk list`.\n_skulk_with_agents() {\n    _skulk \"$@\"\n    local cur=\"${COMP_WORDS[COMP_CWORD]}\"\n    local i subcmd=\"\" subcmd_idx=-1\n    for ((i=1; i<COMP_CWORD; i++)); do\n        [[ \"${COMP_WORDS[i]}\" == -* ]] && continue\n        subcmd=\"${COMP_WORDS[i]}\"\n        subcmd_idx=$i\n        break\n    done\n    if [[ $subcmd_idx -ge 0 && $COMP_CWORD -eq $((subcmd_idx + 1)) ]]; then\n        case \"$subcmd\" in\n            "@ + cmds_pipe + ")\n                local agents\n                agents=$(command skulk --no-color list 2>/dev/null \\\n                    | awk 'NR>1 && $1 ~ /^[a-z0-9][a-z0-9-]*$/ {print $1}')\n                local a\n                while IFS= read -r a; do\n                    [[ -n \"$a\" && \"$a\" == \"$cur\"* ]] && COMPREPLY+=(\"$a\")\n                done <<< \"$agents\"\n                ;;\n        esac\n    fi\n}\ncomplete -F _skulk_with_agents -o bashdefault -o default skulk\n"@
}

/// The zsh snippet for the `|`-joined commands.
pub open spec fn zsh_snippet_spec(cmds_pipe: Seq<char>) -> Seq<char> {
    "\n\n# \u{2500}\u{2500} skulk: dynamic agent-name completion \u{2500}\u{2500}\u{2500}\u{2500}\u{2500}\u{2500}\u{2500}\u{2500}\u{2500}\u{2500}\u{2500}\u{2500}\u{2500}\u{2500}\u{2500}\u{2500}\u{2500}\u{2500}\u{2500}\u{2500}\u{2500}\u{2500}\u{2500}\u{2500}\u{2500}\u{2500}\u{2500}\u{2500}\u{2500}\u{2500}\u{2500}\u{2500}\n# Replaces compdef's binding with a wrapper that injects live agent\n# names when completing the first positional after an agent-taking\n# subcommand. Falls through to the clap-generated _skulk otherwise.\n_skulk_agents() {\n    local -a agents\n    agents=(\"${(@f)$(command skulk --no-color list 2>/dev/null \\\n        | awk 'NR>1 && $1 ~ /^[a-z0-9][a-z0-9-]*$/ {print $1}')}\")\n    _describe 'agent' agents\n}\n\n_skulk_with_agents() {\n    local i subcmd=\"\" subcmd_idx=0\n    for ((i=2; i<=CURRENT; i++)); do\n        [[ \"${words[i]}\" == -* ]] && continue\n        subcmd=\"${words[i]}\"\n        subcmd_idx=$i\n        break\n    done\n    if [[ $subcmd_idx -gt 0 && $CURRENT -eq $((subcmd_idx + 1)) ]]; then\n        case \"$subcmd\" in\n            "@ + cmds_pipe + ")\n                _skulk_agents\n                return\n                ;;\n        esac\n    fi\n    _skulk \"$@\"\n}\ncompdef _skulk_with_agents skulk\n"@
}

/// One fish rule per command.
pub open spec fn fish_rules(cmds: Seq<Seq<char>>) -> Seq<char>
    decreases cmds.len(),
{
    if cmds.len() == 0 {
        Seq::empty()
    } else {
        fish_rules(cmds.drop_last()) + "complete -c skulk -n \"__fish_seen_subcommand_from "@ + cmds.last()
            + "\" -f -a \"(__skulk_agents)\"\n"@
    }
}

/// The snippet appended to the static script of `shell`: bash and zsh wrap
/// the generated function and complete agent names after the agent-taking
/// subcommands; fish adds a rule per subcommand.
pub open spec fn dynamic_snippet_spec(shell: CompletionShell) -> Seq<char> {
    match shell {
        CompletionShell::Bash => bash_snippet_spec(join(agent_commands_spec(), "|"@)),
        CompletionShell::Zsh => zsh_snippet_spec(join(agent_commands_spec(), "|"@)),
        CompletionShell::Fish => "\n\n# \u{2500}\u{2500} skulk: dynamic agent-name completion \u{2500}\u{2500}\u{2500}\u{2500}\u{2500}\u{2500}\u{2500}\u{2500}\u{2500}\u{2500}\u{2500}\u{2500}\u{2500}\u{2500}\u{2500}\u{2500}\u{2500}\u{2500}\u{2500}\u{2500}\u{2500}\u{2500}\u{2500}\u{2500}\u{2500}\u{2500}\u{2500}\u{2500}\u{2500}\u{2500}\u{2500}\u{2500}\nfunction __skulk_agents\n    command skulk --no-color list 2>/dev/null \\\n        | awk 'NR>1 && $1 ~ /^[a-z0-9][a-z0-9-]*$/ {print $1}'\nend\n\n"@ + fish_rules(agent_commands_spec()),
    }
}

/// The dynamic agent-name snippet for `shell`.
pub fn dynamic_snippet(shell: CompletionShell) -> (r: String)
    ensures
        r@ == dynamic_snippet_spec(shell),
{
    let cmds = agent_commands();
    match shell {
        CompletionShell::Bash => {
            let mut s = owned("\n\n# \u{2500}\u{2500} skulk: dynamic agent-name completion \u{2500}\u{2500}\u{2500}\u{2500}\u{2500}\u{2500}\u{2500}\u{2500}\u{2500}\u{2500}\u{2500}\u{2500}\u{2500}\u{2500}\u{2500}\u{2500}\u{2500}\u{2500}\u{2500}\u{2500}\u{2500}\u{2500}\u{2500}\u{2500}\u{2500}\u{2500}\u{2500}\u{2500}\u{2500}\u{2500}\u{2500}\u{2500}\n# Wraps the clap-generated _skulk function. When the user is completing\n# the first positional argument after an agent-taking subcommand, we add\n# live agent names from `skulk list`.\n_skulk_with_agents() {\n    _skulk \"$@\"\n    local cur=\"${COMP_WORDS[COMP_CWORD]}\"\n    local i subcmd=\"\" subcmd_idx=-1\n    for ((i=1; i<COMP_CWORD; i++)); do\n        [[ \"${COMP_WORDS[i]}\" == -* ]] && continue\n        subcmd=\"${COMP_WORDS[i]}\"\n        subcmd_idx=$i\n        break\n    done\n    if [[ $subcmd_idx -ge 0 && $COMP_CWORD -eq $((subcmd_idx + 1)) ]]; then\n        case \"$subcmd\" in\n            ");
            s.append(join_exec(&cmds, "|").as_str());
            s.append(")\n                local agents\n                agents=$(command skulk --no-color list 2>/dev/null \\\n                    | awk 'NR>1 && $1 ~ /^[a-z0-9][a-z0-9-]*$/ {print $1}')\n                local a\n                while IFS= read -r a; do\n                    [[ -n \"$a\" && \"$a\" == \"$cur\"* ]] && COMPREPLY+=(\"$a\")\n                done <<< \"$agents\"\n                ;;\n        esac\n    fi\n}\ncomplete -F _skulk_with_agents -o bashdefault -o default skulk\n");
            s
        },
        CompletionShell::Zsh => {
            let mut s = owned("\n\n# \u{2500}\u{2500} skulk: dynamic agent-name completion \u{2500}\u{2500}\u{2500}\u{2500}\u{2500}\u{2500}\u{2500}\u{2500}\u{2500}\u{2500}\u{2500}\u{2500}\u{2500}\u{2500}\u{2500}\u{2500}\u{2500}\u{2500}\u{2500}\u{2500}\u{2500}\u{2500}\u{2500}\u{2500}\u{2500}\u{2500}\u{2500}\u{2500}\u{2500}\u{2500}\u{2500}\u{2500}\n# Replaces compdef's binding with a wrapper that injects live agent\n# names when completing the first positional after an agent-taking\n# subcommand. Falls through to the clap-generated _skulk otherwise.\n_skulk_agents() {\n    local -a agents\n    agents=(\"${(@f)$(command skulk --no-color list 2>/dev/null \\\n        | awk 'NR>1 && $1 ~ /^[a-z0-9][a-z0-9-]*$/ {print $1}')}\")\n    _describe 'agent' agents\n}\n\n_skulk_with_agents() {\n    local i subcmd=\"\" subcmd_idx=0\n    for ((i=2; i<=CURRENT; i++)); do\n        [[ \"${words[i]}\" == -* ]] && continue\n        subcmd=\"${words[i]}\"\n        subcmd_idx=$i\n        break\n    done\n    if [[ $subcmd_idx -gt 0 && $CURRENT -eq $((subcmd_idx + 1)) ]]; then\n        case \"$subcmd\" in\n            ");
            s.append(join_exec(&cmds, "|").as_str());
            s.append(")\n                _skulk_agents\n                return\n                ;;\n        esac\n    fi\n    _skulk \"$@\"\n}\ncompdef _skulk_with_agents skulk\n");
            s
        },
        CompletionShell::Fish => {
            let mut s = owned("\n\n# \u{2500}\u{2500} skulk: dynamic agent-name completion \u{2500}\u{2500}\u{2500}\u{2500}\u{2500}\u{2500}\u{2500}\u{2500}\u{2500}\u{2500}\u{2500}\u{2500}\u{2500}\u{2500}\u{2500}\u{2500}\u{2500}\u{2500}\u{2500}\u{2500}\u{2500}\u{2500}\u{2500}\u{2500}\u{2500}\u{2500}\u{2500}\u{2500}\u{2500}\u{2500}\u{2500}\u{2500}\nfunction __skulk_agents\n    command skulk --no-color list 2>/dev/null \\\n        | awk 'NR>1 && $1 ~ /^[a-z0-9][a-z0-9-]*$/ {print $1}'\nend\n\n");
            let ghost head = s@;
            let mut i: usize = 0;
            assert(views(cmds@).take(0) =~= Seq::<Seq<char>>::empty());
            while i < cmds.len()
                invariant
                    i <= cmds.len(),
                    s@ == head + fish_rules(views(cmds@).take(i as int)),
                decreases cmds.len() - i,
            {
                let ghost t = views(cmds@).take(i + 1);
                assert(t.drop_last() =~= views(cmds@).take(i as int));
                assert(t.last() == cmds@[i as int]@);
                s.append("complete -c skulk -n \"__fish_seen_subcommand_from ");
                s.append(cmds[i].as_str());
                s.append("\" -f -a \"(__skulk_agents)\"\n");
                i = i + 1;
            }
            assert(views(cmds@).take(cmds.len() as int) =~= views(cmds@));
            s
        },
    }
}

} // verus!
