//! The subcommands: for each, the commands it sends to the remote host, the
//! parsers for what comes back, and the decisions taken in between.

pub mod flow;
pub mod destroy;
pub mod gc;
pub mod new;
pub mod wait;
pub mod interact;
pub mod ship;
pub mod status;
pub mod list;
pub mod replay;
pub mod prompt_source;
pub mod pull;
pub mod doctor;
pub mod bootstrap;
pub mod init;
pub mod completions;
pub mod restart;
pub mod update;
