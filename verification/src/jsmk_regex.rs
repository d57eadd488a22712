//! A small pattern builder over the `regex` crate.
//!
//! [`RegexBuilder`] assembles a pattern text from a base pattern, an
//! optional repetition and optional white-space tolerance, and compiles it
//! into a [`RegexWrapper`].

pub mod matcher;
pub mod how_much_of_pattern;
pub mod regex_builder;
pub mod regex_wrapper;
