//! What an application does with a project. Each step has an outcome of
//! the implementor's choice.

use vstd::prelude::*;

verus! {

/// Creates a project.
pub trait NewProject {
    /// What creating a project comes to.
    type Output;

    /// Creates the project that `self` describes.
    fn new_project(&self) -> Self::Output;
}

/// Builds a project.
pub trait BuildProject {
    /// What building a project comes to.
    type Output;

    /// Builds the project that `self` describes.
    fn build_project(&self) -> Self::Output;
}

/// Runs a project, which may have to be built first.
pub trait RunProject {
    /// What running a project comes to.
    type Output;

    /// Runs the project that `self` describes.
    fn run_project(&self) -> Self::Output;
}

/// Removes what was built of a project.
pub trait ClearProject {
    /// What clearing a project comes to.
    type Output;

    /// Clears the project that `self` describes.
    fn clear_project(&self) -> Self::Output;
}

/// Reports on the last build of a project.
pub trait LogProject {
    /// What reporting comes to.
    type Output;

    /// Reports on the project that `self` describes.
    fn log_project(&self) -> Self::Output;
}

} // verus!
