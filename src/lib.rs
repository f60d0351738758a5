//! Window tracking core and the configuration and command model of the
//! remote-application toolkit.

pub mod registry;
pub mod classifier;
pub mod resolver;
pub mod dispatcher;
pub mod report;
pub mod text;
pub mod config;
pub mod errors;
pub mod command;
pub mod apps;
pub mod backend;
pub mod dirs;
pub mod remote_client;
