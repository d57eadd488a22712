//! The command line of the application, as plain values.

use crate::types::vcs::VersionControlSystem;
use vstd::prelude::*;

verus! {

/// What the command line asks for.
pub struct JsmkApp {
    /// The operation to perform.
    pub subcommand: Option<JsmkSubcommand>,
    /// Whether extended messages are shown.
    pub verbose: bool,
}

/// The operations.
pub enum JsmkSubcommand {
    /// Create a project in a new directory.
    New,
    /// Create a project in the current directory.
    Init,
    /// Compile the project.
    Build,
    /// Run the project, building it first where needed.
    Run,
    /// Remove what was built.
    Clean,
}

/// The fields of the operation that creates a project in a new directory.
pub struct NewSubcommand {
    /// The name of the project, which is its path too unless `path` is
    /// set.
    pub name: Option<String>,
    /// The group of the project.
    pub group: Option<String>,
    /// The description of the project.
    pub description: Option<String>,
    /// The version-lock expression of the project.
    pub lock_version: Option<String>,
    /// The class path of the main function.
    pub default_main: Option<String>,
    /// Where to place the project.
    pub path: Option<String>,
    /// Whether parent directories are created.
    pub parent: bool,
    /// The authors of the project.
    pub authors: Option<String>,
    /// The version control system of the project.
    pub vcs: Option<VersionControlSystem>,
}

/// How a run of the application ended.
#[derive(Clone, Copy, Debug, PartialEq, Eq)]
pub enum AppOutput {
    /// Without an error.
    AllOk,
    /// With an error, which was reported during the run.
    NotOk,
}

impl AppOutput {
    /// The exit code of the process: 0 without an error, 1 with one.
    pub fn into_exit_code(self) -> (code: i32)
        ensures
            code == (match self {
                AppOutput::AllOk => 0i32,
                AppOutput::NotOk => 1i32,
            }),
    {
        match self {
            AppOutput::AllOk => 0,
            AppOutput::NotOk => 1,
        }
    }
}

} // verus!
