//! The version control systems that were told apart at first.

use vstd::prelude::*;

verus! {

/// A version control system for a new project.
#[allow(clippy::upper_case_acronyms)]
#[derive(Copy, Clone, PartialEq)]
pub enum VersionControlSystem {
    /// A Git repository.
    Git,
    /// A Mercurial repository.
    Hj,
    /// A Pijul repository.
    Pijul,
    /// A Subversion repository.
    SVN,
    /// No repository.
    NoVcs,
}

} // verus!
