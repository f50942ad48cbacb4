//! Command routing for the `spin` command line: how an argument vector
//! becomes one command, and how that command is dispatched to its handler.

pub mod action;
pub mod catalog;
pub mod args;
pub mod command;
pub mod error;
pub mod session;
pub mod laws;
pub mod version;
