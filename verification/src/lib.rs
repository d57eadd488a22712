//! Validation and parsing of the small text fields of a project manager:
//! dotted group identifiers, version-lock expressions and class-like project
//! names, on top of a small pattern builder.
//!
//! Patterns are matched by the `regex` crate. What it answers is not
//! proved here: the contracts speak of its answers by name (see
//! [`jsmk_regex::matcher`]) and say exactly what the library makes of them.
//! Everything else is verified: the text operations of [`text`], the
//! repetitions and the builder of [`jsmk_regex`], the parsers of [`types`]
//! and [`metadata`], the order of versions, and the cutting of
//! [`strings::chunk_by_any`].

pub mod app;
pub mod application;
pub mod checkable;
pub mod cli;
pub mod computer_command;
pub mod jsmk_regex;
pub mod may;
pub mod metadata;
pub mod printer;
pub mod strings;
pub mod text;
pub mod types;
pub mod verbose;
pub mod visuals;
