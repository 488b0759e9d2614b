//! Verified core of a Git LFS custom transfer agent that stores objects on a
//! FileStation appliance.
//!
//! The crate holds the decisions of the agent: which request to send, what a
//! reply means, which frame to write back, what to keep in the credential
//! store. It performs no input or output itself; a driver hands it plain
//! values and carries out what it answers.

pub mod configuration;
pub mod credential_manager;
pub mod database;
pub mod git_lfs;
pub mod keyed;
pub mod sealing;
pub mod subcommands;
pub mod synology_api;
pub mod synology_file_station;
pub mod text;
