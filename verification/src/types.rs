//! The values that the text fields of a project parse into.

pub mod dot_notation;
pub mod project;
pub mod vcs;
pub mod version_control_system;
