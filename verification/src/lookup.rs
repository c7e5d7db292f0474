//! The path-resolution collaborator: given a program name, the first
//! matching executable in the search path, or nothing.

use vstd::prelude::*;

verus! {

/// Relies on `pathsearch::find_executable_in_path`: searches the
/// directories named by the `PATH` environment variable for an
/// executable called `name`.  The answer depends on the environment
/// and on the disk, so nothing is promised of it.
#[verifier::external_body]
pub(crate) fn find_in_path(name: &str) -> (r: Option<String>) {
    pathsearch::find_executable_in_path(name).map(|p| format!("{}", p.display()))
}

} // verus!
