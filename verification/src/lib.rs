//! Bulk updates of one dependency over a fleet of repositories: the decisions
//! of the update workflow, with the commands and files left to the caller.

pub mod cli;
pub mod command;
pub mod config;
pub mod git;
pub mod github;
pub mod laws;
pub mod package;
pub mod repo;
pub mod text;
pub mod workflow;
