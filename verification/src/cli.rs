//! The first command line of the application, as plain values.

use vstd::prelude::*;

verus! {

/// The operations.
#[derive(Debug)]
pub enum Subcommand {
    /// Build the project.
    Build,
    /// Remove what was built.
    Clean,
    /// Create a project in the current directory.
    Init,
    /// Create a project in a new directory.
    New(Box<New>),
    /// Run the project.
    Run,
}

/// The fields of the operation that creates a project in a new directory.
#[derive(Debug)]
pub struct New {
    /// The name of the project.
    pub name: Option<String>,
    /// Where to place the project.
    pub path: Option<String>,
    /// The version-lock expression of the project.
    pub lock_version: Option<String>,
    /// The authors of the project.
    pub authors: Option<String>,
    /// The description of the project.
    pub description: Option<String>,
    /// The version control system of the project.
    pub vcs: Option<String>,
    /// The artifact name of the project.
    pub artifact: Option<String>,
    /// The group of the project.
    pub group: Option<String>,
    /// The package of the project.
    pub package: Option<String>,
}

} // verus!
