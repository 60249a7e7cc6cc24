//! Verified core of the skulk agent manager: command builders, output
//! parsers, validators and the decisions that drive each subcommand.

pub mod text;
pub mod config;
pub mod agent_ref;
pub mod error;
pub mod util;
pub mod display;
pub mod inventory;
pub mod kvmap;
pub mod order;
pub mod commands;
pub mod io;
pub mod timings;
