//! Verified core of a command-line runner for development containers
//! (`devcontainer.json`): configuration rules, container engine command lines,
//! lifecycle hook handling, and the decisions of a container session.

pub mod devcontainers;
pub mod error;
pub mod listing;
pub mod provider;
pub mod settings;
pub mod text;
