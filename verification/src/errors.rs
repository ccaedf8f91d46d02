//! The error taxonomy of provisioning, launching and shutdown.

use vstd::prelude::*;
use vstd::string::StringExecFns;

use crate::text::{dec_signed, i32_to_string};

verus! {

/// Everything that can go wrong while provisioning the runtime, launching a
/// kernel server, or stopping one.
///
/// Provisioning and launch errors abort the operation and are surfaced to the
/// caller; a failed graceful shutdown is downgraded to a forced kill and never
/// blocks application exit.
#[derive(Clone, Copy, Debug, PartialEq, Eq, Structural)]
pub enum LaunchError {
    /// No writable home or per-application data directory could be determined.
    PathResolution,
    /// A directory could not be created or a resource could not be copied.
    ProvisioningIo,
    /// The user declined, or the platform refused, the elevation request for
    /// the privileged setup step.
    AuthorizationDenied,
    /// The elevated setup process itself exited with a failure status.
    ElevatedProcessFailed { code: i32 },
    /// No free loopback port could be found within the bounded number of
    /// attempts.
    NoPortAvailable,
    /// The kernel-server launcher could not be spawned, or its output stream
    /// reported a fatal error.
    SpawnFailed,
    /// The launcher exited with the given status code before the readiness
    /// signal was observed.
    LauncherExited { code: i32 },
    /// The launch request did not come from the designated entry surface.
    UnauthorizedLaunch,
    /// The graceful shutdown request failed; the forced kill still follows.
    ShutdownFailed,
}

/// The user-visible message of each error.
pub open spec fn spec_message(e: LaunchError) -> Seq<char> {
    match e {
        LaunchError::PathResolution => "failed to resolve the home directory"@,
        LaunchError::ProvisioningIo => "failed to create or copy installation files"@,
        LaunchError::AuthorizationDenied => "authorization for the setup step was denied"@,
        LaunchError::ElevatedProcessFailed { code } => "the setup step exited with status code "@
            + dec_signed(code as int),
        LaunchError::NoPortAvailable => "failed to pick unused port"@,
        LaunchError::SpawnFailed => "failed to run launcher"@,
        LaunchError::LauncherExited { code } => "launcher exited with status code "@ + dec_signed(
            code as int,
        ),
        LaunchError::UnauthorizedLaunch => "cannot launch on this window"@,
        LaunchError::ShutdownFailed => "failed to stop the server"@,
    }
}

impl LaunchError {
    /// The message surfaced verbatim to the invoking UI surface.
    pub fn message(&self) -> (r: String)
        ensures
            r@ == spec_message(*self),
    {
        match self {
            LaunchError::PathResolution => String::from_str("failed to resolve the home directory"),
            LaunchError::ProvisioningIo => String::from_str(
                "failed to create or copy installation files",
            ),
            LaunchError::AuthorizationDenied => String::from_str(
                "authorization for the setup step was denied",
            ),
            LaunchError::ElevatedProcessFailed { code } => {
                let mut s = String::from_str("the setup step exited with status code ");
                let digits = i32_to_string(*code);
                s.append(digits.as_str());
                s
            },
            LaunchError::NoPortAvailable => String::from_str("failed to pick unused port"),
            LaunchError::SpawnFailed => String::from_str("failed to run launcher"),
            LaunchError::LauncherExited { code } => {
                let mut s = String::from_str("launcher exited with status code ");
                let digits = i32_to_string(*code);
                s.append(digits.as_str());
                s
            },
            LaunchError::UnauthorizedLaunch => String::from_str("cannot launch on this window"),
            LaunchError::ShutdownFailed => String::from_str("failed to stop the server"),
        }
    }
}

} // verus!
