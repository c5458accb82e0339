//! Running desktop helpers: the options a command runs with and what it returned.
use vstd::prelude::*;
use crate::types::Session;

verus! {

/// What a command printed and how it exited.
#[derive(Debug)]
pub struct CommandResult {
    pub stdout: String,
    pub stderr: String,
    pub exit_code: i32,
}

/// The session whose display a command runs on, and how long it may take.
pub struct ExecOptions {
    pub session: Option<Session>,
    pub timeout_ms: u64,
}

impl Default for ExecOptions {
    /// No session, and a minute.
    fn default() -> (r: ExecOptions)
        ensures
            r.session is None,
            r.timeout_ms == 60000,
    {
        ExecOptions { session: None, timeout_ms: 60000 }
    }
}

/// Whether a command succeeded.
pub fn succeeded(r: &CommandResult) -> (b: bool)
    ensures
        b == (r.exit_code == 0),
{
    r.exit_code == 0
}

} // verus!
