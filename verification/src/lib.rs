//! Project resolution and command dispatch for a repository that holds an
//! "app" project and a "client" project, each built by the same build tool.
//!
//! The library decides; it performs no input or output of its own beyond
//! asking whether a directory exists. Callers carry out the requests it
//! hands back (read this file, run the tool in that directory) and report
//! what happened.

pub mod cargo;
pub mod cli;
pub mod config;
pub mod error;
pub mod logging;
pub mod projects;

pub use cli::Cli;
pub use config::Config;
pub use error::{Error, Reportable};
