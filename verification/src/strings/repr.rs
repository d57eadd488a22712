//! How a few names of the code are written in messages.

use vstd::prelude::*;

verus! {

/// The type of string slices.
pub const STRING_SLICE: &'static str = "`&str`";

/// The type of tag kinds.
pub const TAG_KIND: &'static str = "`TagKind`";

/// The module of tags.
pub const TAGS_MODULE: &'static str = "`jsmoke::visuals::tags`";

} // verus!
