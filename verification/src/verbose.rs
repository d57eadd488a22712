//! Extended messages, shown on request.

use vstd::prelude::*;
use vstd::string::StringExecFns;

verus! {

/// A value with an extended message.
pub trait Verbose {
    /// The extended message; empty where there is none, as it is unless
    /// the implementor says otherwise.
    fn get_verbose(&self) -> (message: String)
        default_ensures
            message@ == Seq::<char>::empty(),
    {
        String::new()
    }
}

/// A value that prints an extended message of its own.
pub trait PrintVerbose {
    /// Prints the extended message, whether or not it was asked for: the
    /// caller decides.
    fn print_verbose(&self);
}

/// The block that shows an extended message: the message between two line
/// breaks. An empty message has no block.
pub fn verbose_block(message: &str) -> (block: Option<String>)
    ensures
        block is None == (message@.len() == 0),
        block matches Some(b) ==> b@ == seq!['\n'] + message@ + seq!['\n'],
{
    proof {
        reveal_strlit("\n");
    }
    if message.unicode_len() == 0 {
        None
    } else {
        let mut block = "\n".to_owned();
        block.append(message);
        block.append("\n");
        assert(block@ =~= seq!['\n'] + message@ + seq!['\n']);
        Some(block)
    }
}

} // verus!
