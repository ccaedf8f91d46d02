//! Provisioning manager: decides what first-run installation work is needed.
//!
//! The decision is computed from an [`InstallState`], the observed existence
//! of the installation's marker directories. The result is an [`InstallPlan`]
//! that the unverified driver executes: it creates the missing directories,
//! copies the missing resources, and runs the privileged setup step exactly
//! when the plan asks for it. Re-planning after a successful execution is a
//! no-op, so provisioning is idempotent and a partial install is resumable.

use vstd::prelude::*;
use vstd::string::StringExecFns;

verus! {

/// The observed existence of the installation's markers.
///
/// `venvs_exist` reports whether every per-project virtual-environment marker
/// is present; it is only meaningful when `projects_exist` holds, since the
/// markers live inside the project directories.
#[derive(Clone, Copy, Debug, PartialEq, Eq, Structural)]
pub struct InstallState {
    /// The projects root directory exists.
    pub projects_exist: bool,
    /// Every project's virtual-environment marker exists.
    pub venvs_exist: bool,
    /// The shared config directory exists.
    pub config_exists: bool,
    /// The shared-libraries directory exists.
    pub libraries_exist: bool,
}

/// The provisioning work to perform, derived from an [`InstallState`].
#[derive(Clone, Copy, Debug, PartialEq, Eq, Structural)]
pub struct InstallPlan {
    /// Create the projects root and the fixed project directories.
    pub create_project_dirs: bool,
    /// Copy the config directory from the resource root.
    pub copy_config: bool,
    /// Copy the shared-libraries directory from the resource root.
    pub copy_libraries: bool,
    /// Run the privileged setup step, then copy the precomputed
    /// virtual-environment archives into the per-project markers.
    pub run_setup: bool,
    /// Whether any installation work is performed at all; callers size the
    /// readiness timeout of a following launch by this.
    pub installed: bool,
}

/// The virtual environments count as ready only when the project directories
/// exist and every per-project marker inside them does too.
pub open spec fn venvs_ready(s: InstallState) -> bool {
    s.projects_exist && s.venvs_exist
}

/// The provisioning decision: each piece of work is performed exactly when
/// its marker is missing, and the privileged setup runs unless both the
/// virtual environments and the shared libraries are already in place.
pub open spec fn spec_install_plan(s: InstallState) -> InstallPlan {
    InstallPlan {
        create_project_dirs: !s.projects_exist,
        copy_config: !s.config_exists,
        copy_libraries: !s.libraries_exist,
        run_setup: !(venvs_ready(s) && s.libraries_exist),
        installed: !s.projects_exist || !s.config_exists || !s.libraries_exist || !(venvs_ready(s)
            && s.libraries_exist),
    }
}

/// A plan that performs no work at all.
pub open spec fn plan_is_noop(p: InstallPlan) -> bool {
    !p.create_project_dirs && !p.copy_config && !p.copy_libraries && !p.run_setup && !p.installed
}

/// Decides the provisioning work for the observed state.
pub fn install_if_needed(s: &InstallState) -> (p: InstallPlan)
    ensures
        p == spec_install_plan(*s),
{
    let create_project_dirs = !s.projects_exist;
    let copy_config = !s.config_exists;
    let copy_libraries = !s.libraries_exist;
    let run_setup = !(s.projects_exist && s.venvs_exist && s.libraries_exist);
    InstallPlan {
        create_project_dirs,
        copy_config,
        copy_libraries,
        run_setup,
        installed: create_project_dirs || copy_config || copy_libraries || run_setup,
    }
}

/// The state after the driver executes a plan successfully: every directory
/// the plan creates or copies exists afterwards, and the privileged setup
/// provisions every project's virtual environment.
pub open spec fn state_after_install(s: InstallState) -> InstallState {
    let p = spec_install_plan(s);
    InstallState {
        projects_exist: true,
        venvs_exist: if p.run_setup {
            true
        } else {
            s.venvs_exist
        },
        config_exists: true,
        libraries_exist: true,
    }
}

/// Provisioning is idempotent: once a plan has been executed successfully,
/// planning again — with no intervening filesystem changes — yields no work
/// and reports that nothing was installed.
pub proof fn lemma_install_idempotent(s: InstallState)
    ensures
        plan_is_noop(spec_install_plan(state_after_install(s))),
        !spec_install_plan(state_after_install(s)).installed,
{
}

/// The environment handed to the privileged setup step: the runtime framework
/// location, the offline package source, and the installation root.
pub fn setup_environment(framework_path: &str, links_path: &str, install_root: &str) -> (v: Vec<
    (String, String),
>)
    ensures
        v@.len() == 3,
        v@[0].0@ == "GPYTHON_FRAMEWORK_PATH"@ && v@[0].1@ == framework_path@,
        v@[1].0@ == "PIP_LINKS_PATH"@ && v@[1].1@ == links_path@,
        v@[2].0@ == "GENNAKER_PATH"@ && v@[2].1@ == install_root@,
{
    let mut v: Vec<(String, String)> = Vec::new();
    v.push((String::from_str("GPYTHON_FRAMEWORK_PATH"), String::from_str(framework_path)));
    v.push((String::from_str("PIP_LINKS_PATH"), String::from_str(links_path)));
    v.push((String::from_str("GENNAKER_PATH"), String::from_str(install_root)));
    v
}

/// The precomputed virtual-environment archives that follow a successful
/// privileged setup: (archive resource name, project directory it lands in).
pub fn venv_archive_copies() -> (v: Vec<(String, String)>)
    ensures
        v@.len() == 2,
        v@[0].0@ == "quick_start"@ && v@[0].1@ == "Setup and Signatures/Quick Start"@,
        v@[1].0@ == "signatures"@ && v@[1].1@ == "Setup and Signatures/Signatures"@,
{
    let mut v: Vec<(String, String)> = Vec::new();
    v.push((String::from_str("quick_start"), String::from_str("Setup and Signatures/Quick Start")));
    v.push((String::from_str("signatures"), String::from_str("Setup and Signatures/Signatures")));
    v
}

} // verus!
