//! Where what is printed goes, and the line that announces an error.

use vstd::prelude::*;
use vstd::string::StringExecFns;

verus! {

/// Where what is printed goes.
#[derive(Clone, Copy, Debug, PartialEq, Eq)]
pub enum FileTarget {
    /// The standard output.
    Stdout,
    /// The standard error.
    Stderr,
    /// Another file.
    Other,
}

/// The tag that opens the line of an error.
pub const ERR_TAG: &'static str = "\x1b[91merror\x1b[97m:\x1b[0m";

/// Says where to print. A new printer prints to the standard output.
pub struct Printer {
    target: FileTarget,
}

impl View for Printer {
    type V = FileTarget;

    closed spec fn view(&self) -> FileTarget {
        self.target
    }
}

impl Default for Printer {
    /// A printer that prints to the standard output.
    fn default() -> (p: Self)
        ensures
            p@ == FileTarget::Stdout,
    {
        Self { target: FileTarget::Stdout }
    }
}

impl Printer {
    /// Where this printer prints.
    pub fn target(&self) -> (t: FileTarget)
        ensures
            t == self@,
    {
        self.target
    }

    /// Points the printer to the standard error.
    pub fn use_stderr(&mut self) -> (r: &mut Self)
        ensures
            r@ == FileTarget::Stderr,
            *final(self) == *final(r),
    {
        self.target = FileTarget::Stderr;
        self
    }

    /// Points the printer to the standard error and returns the line that
    /// announces the error: the tag of errors, a space and the message.
    pub fn print_err_tag(&mut self, message: &str) -> (line: String)
        ensures
            final(self)@ == FileTarget::Stderr,
            line@ == ERR_TAG@ + seq![' '] + message@,
    {
        proof {
            reveal_strlit(" ");
        }
        self.target = FileTarget::Stderr;
        let mut line = ERR_TAG.to_owned();
        line.append(" ");
        line.append(message);
        assert(line@ =~= ERR_TAG@ + seq![' '] + message@);
        line
    }
}

} // verus!
