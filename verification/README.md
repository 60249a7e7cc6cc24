# skulk

Manage a fleet of coding agents on your own servers: each agent is a tmux
session running the configured harness inside its own git worktree on a remote
host reached over SSH.

## Layout

- `src/` is the verified library. Every command is a state machine
  (`commands::*`) that takes the outcome of the previous action as an `Event`
  and answers with the next `Action` (run a remote command, print, ask, sleep,
  finish). Their contracts state, stage by stage, which command is sent and
  what is printed or returned for every possible outcome. Parsers of remote
  output (`inventory`, `commands::list`, `commands::status`, ...), the command
  builders, validation and the text formatting are verified functions over
  `Seq<char>` models.
- `app/` is the program around it: argument parsing, the SSH processes, the
  terminal, the configuration file, JSON and self-update. It performs the
  actions the machines ask for and hands the results back.
- `tests/` runs the library against a scripted remote host.
