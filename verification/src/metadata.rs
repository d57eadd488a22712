//! What describes a project: for now, its name.

pub mod project_name;
