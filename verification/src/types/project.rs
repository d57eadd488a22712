//! The fields of a project.

pub mod group;
pub mod lock_version;
pub mod path;
