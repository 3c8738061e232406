//! Candidate "open with the default application" commands for Unix-like
//! systems, and the path rewriting that the WSL opener needs.

pub mod command;
pub mod path;

pub use command::{commands, commands_with, with_command, Invocation};
pub use path::{prefer_relative, starts_at_root, wsl_path};
