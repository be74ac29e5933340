//! Planning and argument construction for an rsync-based file synchronisation tool.
//!
//! The library decides everything the tool does: how a transfer request is
//! validated and turned into a plan, which rsync and ssh arguments that plan
//! produces, how saved server profiles are kept, and which menu choice a user
//! selection stands for. Reading the terminal, the disk and running processes
//! is left to the caller.

pub mod text;
pub mod paths;
pub mod models;
pub mod config;
pub mod planner;
pub mod executor;
pub mod prompts;
pub mod transfer;
pub mod gitignore;
