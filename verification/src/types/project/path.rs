//! Where a project is placed.

use std::path::PathBuf;
use vstd::prelude::*;

verus! {

/// `std::path::PathBuf`, opaque to verification.
#[verifier::external_type_specification]
#[verifier::external_body]
pub struct ExPathBuf(PathBuf);

/// `Clone::clone` of a path gives the path again.
pub assume_specification[ <PathBuf as Clone>::clone ](path: &PathBuf) -> (copy: PathBuf)
    ensures
        copy == *path,
;

/// The path of a project, and whether its parent directories are created
/// where they do not exist.
#[derive(Clone)]
pub struct ProjectPath {
    /// Where to place the project.
    pub path: PathBuf,
    /// Whether parent directories are created.
    pub parent: bool,
}

impl ProjectPath {
    /// A project path.
    pub fn new(path: PathBuf, parent: bool) -> (r: Self)
        ensures
            r.path == path,
            r.parent == parent,
    {
        Self { path, parent }
    }
}

} // verus!
