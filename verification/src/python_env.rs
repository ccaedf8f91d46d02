//! Putting a Python environment ahead of a command's search path.
//!
//! The runtime's executable directories must be found before any system-wide
//! interpreter, so they are prepended to the inherited `PATH` entries in a
//! fixed, documented order.

use vstd::prelude::*;
use vstd::string::StringExecFns;

use crate::command::LaunchCommand;
use crate::paths::{join_path, path_join};

verus! {

/// The character views of a sequence of strings.
pub open spec fn string_views(v: Seq<String>) -> Seq<Seq<char>> {
    Seq::new(v.len(), |i: int| v[i]@)
}

/// The search path with a Python environment ahead: the environment root
/// first, then its `bin` directory, then everything already present.
pub open spec fn spec_path_with_python_env(existing: Seq<Seq<char>>, env_path: Seq<char>) -> Seq<
    Seq<char>,
> {
    seq![env_path, path_join(env_path, "bin"@)] + existing
}

/// The same, in the layout Windows installations use: the environment root,
/// then its `Library` tool directories, `Scripts`, and `bin`.
pub open spec fn spec_path_with_python_env_windows(
    existing: Seq<Seq<char>>,
    env_path: Seq<char>,
) -> Seq<Seq<char>> {
    seq![
        env_path,
        path_join(env_path, "Library\\mingw-w64\\bin"@),
        path_join(env_path, "Library\\usr\\bin"@),
        path_join(env_path, "Library\\bin"@),
        path_join(env_path, "Scripts"@),
        path_join(env_path, "bin"@),
    ] + existing
}

/// Prepends the environment root and its `bin` directory to the given search
/// path entries.
pub fn path_with_python_env(existing: Vec<String>, env_path: &str) -> (r: Vec<String>)
    ensures
        string_views(r@) == spec_path_with_python_env(string_views(existing@), env_path@),
{
    let mut r: Vec<String> = Vec::new();
    r.push(String::from_str(env_path));
    r.push(join_path(env_path, "bin"));
    let mut rest = existing;
    r.append(&mut rest);
    proof {
        assert(string_views(r@) =~= spec_path_with_python_env(string_views(existing@), env_path@));
    }
    r
}

/// Prepends the Windows layout of the environment's executable directories
/// to the given search path entries.
pub fn path_with_python_env_windows(existing: Vec<String>, env_path: &str) -> (r: Vec<String>)
    ensures
        string_views(r@) == spec_path_with_python_env_windows(
            string_views(existing@),
            env_path@,
        ),
{
    let mut r: Vec<String> = Vec::new();
    r.push(String::from_str(env_path));
    r.push(join_path(env_path, "Library\\mingw-w64\\bin"));
    r.push(join_path(env_path, "Library\\usr\\bin"));
    r.push(join_path(env_path, "Library\\bin"));
    r.push(join_path(env_path, "Scripts"));
    r.push(join_path(env_path, "bin"));
    let mut rest = existing;
    r.append(&mut rest);
    proof {
        assert(string_views(r@) =~= spec_path_with_python_env_windows(
            string_views(existing@),
            env_path@,
        ));
    }
    r
}

/// A command that can put a Python environment ahead of its search path.
pub trait PythonEnvCommand {
    /// The search path entries the command will set, front entries first.
    spec fn path_view(&self) -> Seq<Seq<char>>;

    /// Adds the given Python environment path to the front of the command's
    /// search path: the environment root, then its `bin` directory.
    fn add_env_to_path(&mut self, env_path: &str)
        ensures
            final(self).path_view() == spec_path_with_python_env(
                old(self).path_view(),
                env_path@,
            ),
    ;
}

impl PythonEnvCommand for LaunchCommand {
    open spec fn path_view(&self) -> Seq<Seq<char>> {
        string_views(self.path_entries@)
    }

    fn add_env_to_path(&mut self, env_path: &str)
        ensures
            final(self).program == old(self).program,
            final(self).args == old(self).args,
            final(self).cwd == old(self).cwd,
            final(self).env == old(self).env,
    {
        let mut r: Vec<String> = Vec::new();
        r.push(String::from_str(env_path));
        r.push(join_path(env_path, "bin"));
        r.append(&mut self.path_entries);
        self.path_entries = r;
        proof {
            assert(self.path_view() =~= spec_path_with_python_env(
                old(self).path_view(),
                env_path@,
            ));
        }
    }
}

} // verus!
