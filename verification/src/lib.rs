//! Verified core of the `logos-scaffold` command-line tool: the project
//! configuration format, the localnet status model and the decision logic of
//! the localnet commands.

pub mod text;
pub mod config;
pub mod status;
pub mod reset;
pub mod localnet;
pub mod start;
pub mod cli;
pub mod sequencer_config;
pub mod state;
pub mod rpc;
