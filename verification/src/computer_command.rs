//! Commands of the machine, and what running one comes to.

use crate::text::views;
use vstd::prelude::*;

verus! {

/// A command of the machine: its name and its arguments.
pub struct ComputerCommand {
    /// The name of the command.
    pub name: String,
    /// The arguments, in order.
    pub args: Vec<String>,
}

/// Why a command did not succeed.
#[derive(Debug)]
pub enum ComputerCommandError {
    /// The command could not be started; holds its name.
    DontExists(String),
    /// The command ran and reported a failure.
    ErrorStatusReturned {
        /// The name of the command.
        name: String,
        /// The arguments it ran with.
        args: Vec<String>,
        /// What the command wrote.
        stderr: String,
    },
}

/// A command that ran and reported success.
pub struct ComputerCommandOutput {
    /// The name of the command.
    pub name: String,
    /// The arguments it ran with.
    pub args: Vec<String>,
    /// What the command wrote.
    pub output: String,
}

/// What became of an attempt to run a command.
pub enum Attempt {
    /// The command could not be started.
    NotStarted,
    /// The command ran to its end.
    Finished {
        /// Whether the command reported success.
        success: bool,
        /// What the command wrote.
        written: String,
    },
}

/// Copies a list of strings.
pub fn copy_strings(list: &Vec<String>) -> (copy: Vec<String>)
    ensures
        views(copy@) == views(list@),
{
    let mut copy: Vec<String> = Vec::new();
    let mut i: usize = 0;
    while i < list.len()
        invariant
            i <= list.len(),
            copy.len() == i,
            forall|k: int| 0 <= k < i ==> (#[trigger] copy@[k])@ == list@[k]@,
        decreases list.len() - i,
    {
        copy.push(list[i].clone());
        i += 1;
    }
    assert(views(copy@) =~= views(list@));
    copy
}

impl ComputerCommand {
    /// Appends an argument.
    pub fn push_arg(&mut self, arg: &str) -> (r: &mut Self)
        ensures
            r.name@ == old(self).name@,
            views(r.args@) == views(old(self).args@).push(arg@),
            *final(self) == *final(r),
    {
        let ghost before = views(self.args@);
        self.args.push(arg.to_owned());
        assert(views(self.args@) =~= before.push(arg@));
        self
    }

    /// What running this command comes to, given what became of the
    /// attempt: the output of a command that reported success, the error of
    /// one that reported a failure, with what it wrote, and the error of
    /// one that could not be started.
    pub fn conclude(&self, attempt: Attempt) -> (r: Result<
        ComputerCommandOutput,
        ComputerCommandError,
    >)
        ensures
            match (attempt, r) {
                (Attempt::Finished { success: true, written }, Ok(out)) => out.name@ == self.name@
                    && views(out.args@) == views(self.args@) && out.output@ == written@,
                (
                    Attempt::Finished { success: false, written },
                    Err(ComputerCommandError::ErrorStatusReturned { name, args, stderr }),
                ) => name@ == self.name@ && views(args@) == views(self.args@) && stderr@
                    == written@,
                (Attempt::NotStarted, Err(ComputerCommandError::DontExists(name))) => name@
                    == self.name@,
                _ => false,
            },
    {
        let name = self.name.clone();
        match attempt {
            Attempt::Finished { success, written } => {
                let args = copy_strings(&self.args);
                if success {
                    Ok(ComputerCommandOutput { name, args, output: written })
                } else {
                    Err(ComputerCommandError::ErrorStatusReturned { name, args, stderr: written })
                }
            },
            Attempt::NotStarted => Err(ComputerCommandError::DontExists(name)),
        }
    }
}

} // verus!
