//! The spawn of a kernel-server subprocess, as plain data.
//!
//! The supervisor computes exactly how the subprocess must be started —
//! program, arguments, working directory, extra environment, and the search
//! path entries to put ahead of the inherited `PATH` — and the unverified
//! driver turns this value into an OS process.

use vstd::prelude::*;

verus! {

/// A fully determined subprocess invocation.
pub struct LaunchCommand {
    /// The program to spawn.
    pub program: String,
    /// Its positional arguments, in order.
    pub args: Vec<String>,
    /// The working directory, when one is set.
    pub cwd: Option<String>,
    /// Extra environment variables, as (name, value) pairs.
    pub env: Vec<(String, String)>,
    /// Search path entries to place ahead of the inherited `PATH`, front
    /// entries first.
    pub path_entries: Vec<String>,
}

} // verus!
