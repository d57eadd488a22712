//! Operations on strings.

pub mod auto_trim;
pub mod chunk_by_any;
pub mod repr;
