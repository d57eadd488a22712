//! The version control systems, and the command that starts a repository.

use crate::computer_command::ComputerCommand;
use crate::may::MayFrom;
use crate::text::{eq_ignore_ascii_case, same_but_ascii_case, same_text, views};
use vstd::string::StringExecFns;
use vstd::prelude::*;

verus! {

/// The command of Git.
pub const GIT_CMD: &'static str = "git";

/// The command of Mercurial.
pub const HG_CMD: &'static str = "hg";

/// The command of Pijul.
pub const PIJUL_CMD: &'static str = "pijul";

/// The command that administers Subversion.
pub const SVN_CMD: &'static str = "svnadmin";

/// The argument that makes Subversion create a repository.
pub const CREATE_ARG: &'static str = "create";

/// The argument that makes the other systems start a repository.
pub const INIT_ARG: &'static str = "init";

/// A version control system for a new project.
#[derive(Copy, Clone, PartialEq, Eq, Debug)]
pub enum VersionControlSystem {
    /// A Git repository.
    Git,
    /// A Mercurial repository.
    Hg,
    /// A Pijul repository.
    Pijul,
    /// A Subversion repository.
    Svn,
    /// No repository.
    NoVcs,
}

/// Whether `input` is `name`, with the case of ASCII letters left aside
/// where `ignore_case` says so.
pub open spec fn names(input: Seq<char>, name: Seq<char>, ignore_case: bool) -> bool {
    if ignore_case {
        same_but_ascii_case(name, input)
    } else {
        name == input
    }
}

/// Tests whether `input` is `name`.
fn is_named(input: &str, name: &str, ignore_case: bool) -> (b: bool)
    ensures
        b == names(input@, name@, ignore_case),
{
    if ignore_case {
        eq_ignore_ascii_case(name, input)
    } else {
        same_text(name, input)
    }
}

impl VersionControlSystem {
    /// The word that stands for this system on the command line.
    pub open spec fn value_name(self) -> Seq<char> {
        match self {
            Self::Git => seq!['g', 'i', 't'],
            Self::Hg => seq!['h', 'g'],
            Self::Pijul => seq!['p', 'i', 'j', 'u', 'l'],
            Self::Svn => seq!['s', 'v', 'n'],
            Self::NoVcs => seq!['n', 'o', 'n', 'e'],
        }
    }

    /// The system that `input` stands for: the first of Git, Mercurial,
    /// Pijul, Subversion and none whose word is `input`.
    pub open spec fn named_by(input: Seq<char>, ignore_case: bool) -> Option<Self> {
        if names(input, Self::Git.value_name(), ignore_case) {
            Some(Self::Git)
        } else if names(input, Self::Hg.value_name(), ignore_case) {
            Some(Self::Hg)
        } else if names(input, Self::Pijul.value_name(), ignore_case) {
            Some(Self::Pijul)
        } else if names(input, Self::Svn.value_name(), ignore_case) {
            Some(Self::Svn)
        } else if names(input, Self::NoVcs.value_name(), ignore_case) {
            Some(Self::NoVcs)
        } else {
            None
        }
    }

    /// What is said of an input that stands for no system.
    pub open spec fn invalid_variant(input: Seq<char>) -> Seq<char> {
        seq!['i', 'n', 'v', 'a', 'l', 'i', 'd', ' ', 'v', 'a', 'r', 'i', 'a', 'n', 't', ':', ' ']
            + input
    }

    /// Reads a system from the word that stands for it on the command
    /// line, with the case of ASCII letters left aside where `ignore_case`
    /// says so.
    pub fn from_str(input: &str, ignore_case: bool) -> (r: Result<Self, String>)
        ensures
            match r {
                Ok(vcs) => Self::named_by(input@, ignore_case) == Some(vcs),
                Err(message) => Self::named_by(input@, ignore_case) is None && message@
                    == Self::invalid_variant(input@),
            },
    {
        proof {
            reveal_strlit("git");
            reveal_strlit("hg");
            reveal_strlit("pijul");
            reveal_strlit("svn");
            reveal_strlit("none");
            reveal_strlit("invalid variant: ");
            assert("git"@ =~= Self::Git.value_name());
            assert("hg"@ =~= Self::Hg.value_name());
            assert("pijul"@ =~= Self::Pijul.value_name());
            assert("svn"@ =~= Self::Svn.value_name());
            assert("none"@ =~= Self::NoVcs.value_name());
        }
        if is_named(input, "git", ignore_case) {
            Ok(Self::Git)
        } else if is_named(input, "hg", ignore_case) {
            Ok(Self::Hg)
        } else if is_named(input, "pijul", ignore_case) {
            Ok(Self::Pijul)
        } else if is_named(input, "svn", ignore_case) {
            Ok(Self::Svn)
        } else if is_named(input, "none", ignore_case) {
            Ok(Self::NoVcs)
        } else {
            let mut message = "invalid variant: ".to_owned();
            message.append(input);
            assert(message@ =~= Self::invalid_variant(input@));
            Err(message)
        }
    }

    /// The name of the command of this system, if it has one.
    pub open spec fn command_name(self) -> Option<Seq<char>> {
        match self {
            Self::Git => Some(GIT_CMD@),
            Self::Hg => Some(HG_CMD@),
            Self::Pijul => Some(PIJUL_CMD@),
            Self::Svn => Some(SVN_CMD@),
            Self::NoVcs => None,
        }
    }

    /// The argument that makes the command of this system start a
    /// repository.
    pub open spec fn first_arg(self) -> Seq<char> {
        match self {
            Self::Svn => CREATE_ARG@,
            _ => INIT_ARG@,
        }
    }
}

impl MayFrom<&VersionControlSystem> for ComputerCommand {
    /// The command that starts a repository of the system: its command
    /// with one argument. There is none for no repository.
    fn may_from(value: &VersionControlSystem) -> (r: Option<Self>)
        ensures
            r is Some == value.command_name() is Some,
            r matches Some(command) ==> Some(command.name@) == value.command_name() && views(
                command.args@,
            ) == seq![value.first_arg()],
    {
        let name = match value {
            VersionControlSystem::NoVcs => {
                return None;
            },
            VersionControlSystem::Git => GIT_CMD,
            VersionControlSystem::Hg => HG_CMD,
            VersionControlSystem::Pijul => PIJUL_CMD,
            VersionControlSystem::Svn => SVN_CMD,
        };
        let arg = match value {
            VersionControlSystem::Svn => CREATE_ARG,
            _ => INIT_ARG,
        };
        let mut args: Vec<String> = Vec::new();
        args.push(arg.to_owned());
        assert(views(args@) =~= seq![value.first_arg()]);
        Some(Self { name: name.to_owned(), args })
    }
}

} // verus!
