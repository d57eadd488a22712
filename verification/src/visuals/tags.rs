//! The tags that open a message, and how they are read from text.

use crate::text::{same_text, trim, trimmed};
use crate::visuals::color_highlights::{b_cyan, b_green, bright, colored_text, is_painted};
use colored::Colorize;
use vstd::prelude::*;
use vstd::string::StringExecFns;

verus! {

/// The kind of a message.
#[derive(Debug, PartialEq)]
pub enum TagKind {
    /// Something went wrong.
    ErrorKind,
    /// The job was done in part, or there is something to know.
    WarningKind,
    /// A note.
    NoteKind,
    /// The job was done.
    OkKind,
}

/// Why a text names no kind of message.
#[derive(Debug, PartialEq)]
pub enum UnparseableTagKind {
    /// The text names no kind; holds the text in lowercase, trimmed.
    InvalidKind(String),
    /// The text holds nothing but white space.
    EmptyKind,
}

/// The tag of errors.
pub const ERROR_TAG: TagKind = TagKind::ErrorKind;

/// The tag of warnings.
pub const WARNING_TAG: TagKind = TagKind::WarningKind;

/// The tag of notes.
pub const NOTE_TAG: TagKind = TagKind::NoteKind;

/// The tag of success.
pub const OK_TAG: TagKind = TagKind::OkKind;

/// The lowercase form of a text, which `str::to_lowercase` returns.
pub uninterp spec fn lowercase_of(s: Seq<char>) -> Seq<char>;

/// Calls `str::to_lowercase`, whose result depends on the text alone.
#[verifier::external_body]
fn to_lowercase(value: &str) -> (lowered: String)
    ensures
        lowered@ == lowercase_of(value@),
{
    value.to_lowercase()
}

/// Calls `Colorize::bright_red` of the `colored` crate and writes the
/// result, which is the text as it is where the crate finds colours
/// switched off, and the text in bright red where it finds them on.
#[verifier::external_body]
fn b_red(value: &str) -> (painted: String)
    ensures
        is_painted(bright('1'), value@, painted@),
{
    value.bright_red().to_string()
}

/// Calls `Colorize::bright_yellow` of the `colored` crate and writes the
/// result, which is the text as it is where the crate finds colours
/// switched off, and the text in bright yellow where it finds them on.
#[verifier::external_body]
fn b_yellow(value: &str) -> (painted: String)
    ensures
        is_painted(bright('3'), value@, painted@),
{
    value.bright_yellow().to_string()
}

/// Whether `r` is what the lowercase text `lowered` comes to: the kind that
/// its trimmed text names, else the error of an empty text or the error that
/// holds the trimmed text.
pub open spec fn read_as(lowered: Seq<char>, r: Result<TagKind, UnparseableTagKind>) -> bool {
    let t = trimmed(lowered);
    match r {
        Ok(kind) => t == kind.simple(),
        Err(UnparseableTagKind::EmptyKind) => t.len() == 0,
        Err(UnparseableTagKind::InvalidKind(text)) => {
            &&& text@ == t
            &&& t.len() > 0
            &&& t != TagKind::ErrorKind.simple()
            &&& t != TagKind::WarningKind.simple()
            &&& t != TagKind::NoteKind.simple()
            &&& t != TagKind::OkKind.simple()
        },
    }
}

impl TagKind {
    /// The word of the kind.
    pub open spec fn simple(self) -> Seq<char> {
        match self {
            TagKind::ErrorKind => seq!['e', 'r', 'r', 'o', 'r'],
            TagKind::WarningKind => seq!['w', 'a', 'r', 'n'],
            TagKind::NoteKind => seq!['n', 'o', 't', 'e'],
            TagKind::OkKind => seq!['o', 'k'],
        }
    }

    /// The code of the colour of the kind: bright red for errors, bright
    /// yellow for warnings, bright cyan for notes and bright green for
    /// success.
    pub open spec fn color_code(self) -> Seq<char> {
        match self {
            TagKind::ErrorKind => bright('1'),
            TagKind::WarningKind => bright('3'),
            TagKind::NoteKind => bright('6'),
            TagKind::OkKind => bright('2'),
        }
    }

    /// The word of the kind, without colour or colon.
    pub fn as_simple_str(&self) -> (word: &'static str)
        ensures
            word@ == self.simple(),
    {
        proof {
            reveal_strlit("error");
            reveal_strlit("warn");
            reveal_strlit("note");
            reveal_strlit("ok");
        }
        let word = match self {
            TagKind::ErrorKind => "error",
            TagKind::WarningKind => "warn",
            TagKind::NoteKind => "note",
            TagKind::OkKind => "ok",
        };
        assert(word@ =~= self.simple());
        word
    }

    /// Reads a kind from a text that is in lowercase already.
    pub fn from_lowercase(lowered: &str) -> (r: Result<Self, UnparseableTagKind>)
        ensures
            read_as(lowered@, r),
    {
        let t = trim(lowered);
        if same_text(t, TagKind::ErrorKind.as_simple_str()) {
            Ok(TagKind::ErrorKind)
        } else if same_text(t, TagKind::WarningKind.as_simple_str()) {
            Ok(TagKind::WarningKind)
        } else if same_text(t, TagKind::NoteKind.as_simple_str()) {
            Ok(TagKind::NoteKind)
        } else if same_text(t, TagKind::OkKind.as_simple_str()) {
            Ok(TagKind::OkKind)
        } else if t.unicode_len() == 0 {
            Err(UnparseableTagKind::EmptyKind)
        } else {
            Err(UnparseableTagKind::InvalidKind(t.to_owned()))
        }
    }

    /// Reads a kind from a text, whatever its case and the white space
    /// around it.
    pub fn try_from(value: &str) -> (r: Result<Self, UnparseableTagKind>)
        ensures
            read_as(lowercase_of(value@), r),
    {
        let lowered = to_lowercase(value);
        Self::from_lowercase(lowered.as_str())
    }

    /// Puts a colon and a space behind the word of a tag.
    pub fn with_colon(word: &str) -> (tag: String)
        ensures
            tag@ == word@ + seq![':', ' '],
    {
        proof {
            reveal_strlit(": ");
        }
        let mut tag = word.to_owned();
        tag.append(": ");
        assert(tag@ =~= word@ + seq![':', ' ']);
        tag
    }

    /// The tag as it opens a message: the word of the kind in its colour,
    /// a colon and a space. Errors are bright red, warnings bright yellow,
    /// notes bright cyan and success bright green.
    pub fn to_string(&self) -> (tag: String)
        ensures
            tag@ == self.simple() + seq![':', ' '] || tag@ == colored_text(
                self.color_code(),
                self.simple(),
            ) + seq![':', ' '],
    {
        let word = match self {
            TagKind::ErrorKind => b_red(self.as_simple_str()),
            TagKind::WarningKind => b_yellow(self.as_simple_str()),
            TagKind::NoteKind => b_cyan(self.as_simple_str()),
            TagKind::OkKind => b_green(self.as_simple_str()),
        };
        Self::with_colon(word.as_str())
    }
}

} // verus!
