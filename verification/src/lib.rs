//! Resolves the configuration of a coverage upload from a build service's
//! environment and explicit arguments, and fits a coverage payload for sending.

pub mod canonical;
pub mod cli_args;
pub mod config;
pub mod coverage;
pub mod env;
pub mod error;
pub mod git;
pub mod helpers;
pub mod manager;
pub mod pattern;
pub mod service;
pub mod text;

pub use crate::config::Config;
pub use crate::coverage::Coverage;
pub use crate::env::Env;
pub use crate::error::Error;
pub use crate::manager::CoverallsManager;
pub use crate::service::Service;
