use skulk::commands::completions::{agent_commands, dynamic_snippet, CompletionShell};

#[test]
fn non_agent_commands_are_not_in_dynamic_list() {
    let cmds = agent_commands();
    let has = |c: &str| cmds.iter().any(|x| x == c);
    assert!(!has("new"));
    assert!(!has("list"));
    assert!(!has("destroy-all"));
    assert!(!has("gc"));
    assert!(!has("init"));
    assert!(!has("doctor"));
    assert!(!has("pull"));
    assert!(!has("completions"));
}

#[test]
fn dynamic_snippet_references_every_agent_command_in_each_shell() {
    for shell in [CompletionShell::Bash, CompletionShell::Zsh, CompletionShell::Fish] {
        let out = dynamic_snippet(shell);
        assert!(out.contains("skulk: dynamic agent-name completion"));
        for cmd in agent_commands() {
            assert!(out.contains(&cmd), "{shell:?} snippet missing agent command '{cmd}'");
        }
    }
}

#[test]
fn snippets_have_their_shell_hooks() {
    let bash = dynamic_snippet(CompletionShell::Bash);
    assert!(bash.contains("_skulk_with_agents"));
    assert!(bash.contains("command skulk --no-color list"));
    assert!(bash.contains("archive|connect|destroy|diff|disconnect|git-log|logs|push|restart|send|ship|status|transcript|wait)"));
    assert!(bash.ends_with("complete -F _skulk_with_agents -o bashdefault -o default skulk\n"));
    let zsh = dynamic_snippet(CompletionShell::Zsh);
    assert!(zsh.contains("_skulk_agents"));
    assert!(zsh.contains("compdef _skulk_with_agents skulk"));
    let fish = dynamic_snippet(CompletionShell::Fish);
    assert!(fish.contains("function __skulk_agents"));
    assert!(fish.contains("complete -c skulk -n \"__fish_seen_subcommand_from connect\" -f -a \"(__skulk_agents)\"\n"));
    assert_eq!(fish.matches("complete -c skulk").count(), 14);
}
