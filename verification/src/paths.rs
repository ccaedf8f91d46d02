//! Environment locator: the canonical filesystem layout of the installation.
//!
//! Every path is modelled as a plain string with `/` separators; the driver
//! that touches the filesystem converts them to OS paths at the boundary.

use vstd::prelude::*;
use vstd::string::StringExecFns;

use crate::errors::LaunchError;
use crate::text::is_suffix_of;

verus! {

/// `base`, a separator, then `name`.
pub open spec fn path_join(base: Seq<char>, name: Seq<char>) -> Seq<char> {
    base + seq!['/'] + name
}

/// Joins one path component onto a base path.
pub fn join_path(base: &str, name: &str) -> (r: String)
    ensures
        r@ == path_join(base@, name@),
{
    let mut s = String::from_str(base);
    s.append("/");
    s.append(name);
    proof {
        reveal_strlit("/");
    }
    s
}

/// The canonical installation root under the user's home directory.
pub open spec fn spec_install_root(home: Seq<char>) -> Seq<char> {
    home + "/Library/GennakerTauri"@
}

/// Computes the installation root, or fails when no home directory can be
/// determined.
pub fn install_root(home: Option<&str>) -> (r: Result<String, LaunchError>)
    ensures
        match home {
            Some(h) => r matches Ok(root) && root@ == spec_install_root(h@),
            None => r == Err::<String, LaunchError>(LaunchError::PathResolution),
        },
{
    match home {
        Some(h) => {
            let mut s = String::from_str(h);
            s.append("/Library/GennakerTauri");
            Ok(s)
        },
        None => Err(LaunchError::PathResolution),
    }
}

/// The fixed set of project workspaces, as (area, project) pairs.
pub open spec fn spec_project_pairs() -> Seq<(Seq<char>, Seq<char>)> {
    seq![
        ("Setup and Signatures"@, "Quick Start"@),
        ("Setup and Signatures"@, "Signatures"@),
        ("Setup and Signatures"@, "Shared Libraries"@),
        ("Authoring"@, "Scratchpad"@),
        ("Readings"@, "Symbolic Math"@),
    ]
}

/// The fixed set of project workspaces that provisioning creates.
pub fn project_pairs() -> (v: Vec<(String, String)>)
    ensures
        v@.len() == spec_project_pairs().len(),
        forall|i: int|
            0 <= i < v@.len() ==> (#[trigger] v@[i]).0@ == spec_project_pairs()[i].0 && v@[i].1@
                == spec_project_pairs()[i].1,
{
    let mut v: Vec<(String, String)> = Vec::new();
    v.push((String::from_str("Setup and Signatures"), String::from_str("Quick Start")));
    v.push((String::from_str("Setup and Signatures"), String::from_str("Signatures")));
    v.push((String::from_str("Setup and Signatures"), String::from_str("Shared Libraries")));
    v.push((String::from_str("Authoring"), String::from_str("Scratchpad")));
    v.push((String::from_str("Readings"), String::from_str("Symbolic Math")));
    v
}

/// The directory of one project workspace under the projects root.
pub open spec fn spec_project_path(projects_root: Seq<char>, area: Seq<char>, project: Seq<char>) -> Seq<
    char,
> {
    path_join(path_join(projects_root, area), project)
}

/// Computes the directory of one project workspace.
pub fn project_path(projects_root: &str, area: &str, project: &str) -> (r: String)
    ensures
        r@ == spec_project_path(projects_root@, area@, project@),
{
    let base = join_path(projects_root, area);
    join_path(base.as_str(), project)
}

/// The per-project marker whose existence means the project's virtual
/// environment has been provisioned.
pub open spec fn spec_venv_marker(project_dir: Seq<char>) -> Seq<char> {
    path_join(path_join(project_dir, ".v"@), ".venv"@)
}

/// Computes the virtual-environment marker path of one project directory.
pub fn venv_marker(project_dir: &str) -> (r: String)
    ensures
        r@ == spec_venv_marker(project_dir@),
{
    let base = join_path(project_dir, ".v");
    join_path(base.as_str(), ".venv")
}

/// The runtime framework location relative to the executable's directory: a
/// build tree (a `target/debug` or `target/release` suffix) keeps the
/// framework two levels up, a packaged bundle keeps it under a sibling
/// `Frameworks` directory.
pub open spec fn spec_framework_path(exe_dir: Seq<char>) -> Seq<char> {
    if is_suffix_of("/target/debug"@, exe_dir) || is_suffix_of("/target/release"@, exe_dir) {
        exe_dir + "/../../gpython.framework"@
    } else {
        exe_dir + "/../Frameworks/gpython.framework"@
    }
}

/// Computes the (still relative) runtime framework path from the directory
/// that holds the running executable; the caller resolves it against the
/// filesystem.
pub fn gpython_framework_path(exe_dir: &str) -> (r: String)
    ensures
        r@ == spec_framework_path(exe_dir@),
{
    let mut s = String::from_str(exe_dir);
    if crate::text::ends_with(exe_dir, "/target/debug") || crate::text::ends_with(
        exe_dir,
        "/target/release",
    ) {
        s.append("/../../gpython.framework");
    } else {
        s.append("/../Frameworks/gpython.framework");
    }
    s
}

} // verus!
