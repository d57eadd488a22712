//! What messages look like: colours, tags and lists.

pub mod color_highlights;
pub mod list;
pub mod tags;
