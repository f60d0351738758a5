//! Errors of the toolkit.
use vstd::prelude::*;

verus! {

/// Everything that can go wrong in this crate.
pub enum Error {
    /// A plain message without an underlying cause.
    Message(String),
    /// The configuration is invalid.
    Config(&'static str),
    /// A child command failed.
    Command { message: String, output: String },
    /// The VM or container is not running.
    VmNotRunning,
    /// A command line was empty.
    EmptyCommand,
    /// The remote host did not answer.
    HostUnreachable,
}

pub type Result<T> = core::result::Result<T, Error>;

} // verus!
