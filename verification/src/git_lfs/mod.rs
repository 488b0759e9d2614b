//! The line protocol that Git speaks to a custom transfer agent.

pub mod custom_transfer_agent;
pub mod git_lfs_parser;
pub mod wire;

pub use custom_transfer_agent::CustomTransferAgent;
pub use git_lfs_parser::{Event, GitLfsParser};
