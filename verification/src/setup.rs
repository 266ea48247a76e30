//! Setup of the development environment: what the user is asked and how the
//! dependencies are installed.

use crate::text::{chars_of, same, same_text, texts, trim, trimmed};
use crate::util::{trim_newline, without_newline};
use vstd::prelude::*;
use vstd::string::StringExecFns;

verus! {

/// Whether an answer typed at the prompt means yes: `y`, `Y` or `yes`, the
/// line ending and surrounding white space aside.
pub open spec fn means_yes(answer: Seq<char>) -> bool {
    let said = trim(without_newline(answer));
    said == "y"@ || said == "Y"@ || said == "yes"@
}

/// Whether the user has agreed to install the package manager.
pub fn confirms(answer: &str) -> (b: bool)
    ensures
        b == means_yes(answer@),
{
    let mut line = String::from_str(answer);
    trim_newline(&mut line);
    let said = trimmed(chars_of(line.as_str()).as_slice());
    same(said.as_slice(), chars_of("y").as_slice()) || same(
        said.as_slice(),
        chars_of("Y").as_slice(),
    ) || same(said.as_slice(), chars_of("yes").as_slice())
}

/// The arguments with which a package manager installs the dependencies:
/// `yarn` does so without any, the others with `install`.
pub open spec fn install_args(pkg_mgr_name: Seq<char>) -> Seq<Seq<char>> {
    if pkg_mgr_name == "yarn"@ {
        Seq::empty()
    } else {
        seq!["install"@]
    }
}

/// The arguments of the run of the package manager that installs the
/// dependencies of the repository.
pub fn install_arguments(pkg_mgr_name: &str) -> (args: Vec<String>)
    ensures
        texts(args@) == install_args(pkg_mgr_name@),
{
    let mut args: Vec<String> = Vec::new();
    if !same_text(pkg_mgr_name, "yarn") {
        args.push(String::from_str("install"));
    }
    assert(texts(args@) == install_args(pkg_mgr_name@));
    args
}

} // verus!
