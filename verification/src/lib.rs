//! Provisioning and supervision of local computational-kernel servers.
//!
//! The library holds the decision logic of a desktop shell that installs a
//! private Python runtime once, launches JupyterLab server subprocesses with
//! fresh network endpoints, recognises them as ready from their output, tracks
//! the running instances, and computes the requests needed to stop them again.
//! All filesystem, network and process work is performed by a thin unverified
//! driver around this crate; the library turns observations (directory
//! existence, output lines, exit codes) into exact plans and verdicts.

pub mod command;
pub mod endpoint;
pub mod errors;
pub mod installer;
pub mod paths;
pub mod python_env;
pub mod registry;
pub mod supervisor;
pub mod text;
pub mod version;
