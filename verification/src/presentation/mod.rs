//! The command-line front end.
pub mod cli;

pub use cli::Cli;
