use crate::args::images_args::ImagesArgs;
use crate::args::machines_args::MachinesArgs;
use vstd::prelude::*;

verus! {

/// A shell that a completion script can be written for.
#[derive(Clone, Copy, Debug, PartialEq, Eq, Structural)]
pub enum CompletionShell {
    Bash,
    Elvish,
    Fish,
    PowerShell,
    Zsh,
}

/// What the command line asks for.
pub struct Arguments {
    /// The command to run, if there is one.
    pub cmd: Option<Commands>,
    /// Fixed width of tables in characters; by content where there is none.
    pub width: Option<u16>,
    /// The shell to write a completion script for. Where it is given,
    /// nothing else is done.
    pub autocomplete: Option<CompletionShell>,
}

/// The group of a command.
pub enum Commands {
    /// Manage local and remote images.
    Images(ImagesArgs),
    /// Manage machines.
    Machines(MachinesArgs),
}

} // verus!
