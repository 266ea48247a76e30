//! Package manager of the repository: which one it uses and how it is called.

use crate::text::{chars_of, string_of};
use vstd::prelude::*;
use vstd::string::StringExecFns;

verus! {

/// What was found of the repository on disk.
pub struct RepoDir {
    /// The directory that holds `package.json`.
    pub path: String,
    /// Whether it holds `pnpm-lock.yaml`.
    pub has_pnpm_lock: bool,
    /// Whether it holds `yarn.lock`.
    pub has_yarn_lock: bool,
}

/// A call of the package manager that is ready to be made.
pub struct Invocation {
    /// The file name of the program.
    pub program: String,
    /// Its arguments.
    pub args: Vec<String>,
    /// The directory in which it runs.
    pub dir: String,
}

/// Why no call of the package manager could be prepared.
#[derive(Clone, Copy, Debug, PartialEq, Eq, Structural)]
pub enum PmError {
    /// No directory with a `package.json` was found.
    RepoNotFound,
}

impl PmError {
    /// The message shown to the user.
    pub fn message(&self) -> (text: String)
        ensures
            text@ == "Could not find a repo folder containing package.json."@,
    {
        string_of(chars_of("Could not find a repo folder containing package.json.").as_slice())
    }
}

/// The name of the package manager of a repository: `pnpm` where the
/// repository has a `pnpm-lock.yaml`, else `yarn`, whether or not a
/// `yarn.lock` is there.
pub open spec fn pkg_mgr_name(has_pnpm_lock: bool, has_yarn_lock: bool) -> Seq<char> {
    if has_pnpm_lock {
        "pnpm"@
    } else {
        "yarn"@
    }
}

/// Detects and returns the name of the package manager used for the current
/// branch.
pub fn detect_pkg_mgr(has_pnpm_lock: bool, has_yarn_lock: bool) -> (name: String)
    ensures
        name@ == pkg_mgr_name(has_pnpm_lock, has_yarn_lock),
{
    if has_pnpm_lock {
        return string_of(chars_of("pnpm").as_slice());
    }
    if has_yarn_lock {
        return string_of(chars_of("yarn").as_slice());
    }
    string_of(chars_of("yarn").as_slice())
}

/// The file name under which a program of the Node.js tool chain is found:
/// on Windows these are `.cmd` scripts.
pub open spec fn binary_name(name: Seq<char>, windows: bool) -> Seq<char> {
    if windows {
        name + ".cmd"@
    } else {
        name
    }
}

/// Returns the appropriate file name for the given package manager on the
/// current machine.
pub fn pkg_mgr(name: &str, windows: bool) -> (program: String)
    ensures
        program@ == binary_name(name@, windows),
{
    let program = String::from_str(name);
    if windows {
        program.concat(".cmd")
    } else {
        program
    }
}

/// Returns the appropriate file name for `npm` on the current machine.
pub fn npm(windows: bool) -> (program: String)
    ensures
        program@ == binary_name("npm"@, windows),
{
    pkg_mgr("npm", windows)
}

/// Returns the appropriate file name for `corepack` on the current machine.
pub fn corepack(windows: bool) -> (program: String)
    ensures
        program@ == binary_name("corepack"@, windows),
{
    pkg_mgr("corepack", windows)
}

/// Prepares the call that forwards `args` to the package manager of the
/// repository, to be run in the repository's directory.
pub fn handle_cmd(args: Vec<String>, repo: Option<RepoDir>, windows: bool) -> (r: Result<
    Invocation,
    PmError,
>)
    ensures
        repo is None ==> r == Err::<Invocation, PmError>(PmError::RepoNotFound),
        repo matches Some(found) ==> r matches Ok(call) && call.args == args && call.dir
            == found.path && call.program@ == binary_name(
            pkg_mgr_name(found.has_pnpm_lock, found.has_yarn_lock),
            windows,
        ),
{
    match repo {
        None => Err(PmError::RepoNotFound),
        Some(found) => {
            let name = detect_pkg_mgr(found.has_pnpm_lock, found.has_yarn_lock);
            Ok(Invocation { program: pkg_mgr(name.as_str(), windows), args, dir: found.path })
        },
    }
}

} // verus!
