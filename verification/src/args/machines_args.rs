use vstd::prelude::*;

verus! {

/// The signal that `machines kill` sends where none is named.
pub const DEFAULT_SIGNAL: &'static str = "SIGTERM";

/// A command on machines.
pub struct MachinesArgs {
    pub commands: MachineCommands,
}

/// The commands on machines.
pub enum MachineCommands {
    /// List machines
    List(List),
    /// Stop the machine.
    Stop(Stop),
    /// Kill the machine.
    Kill(Kill),
    /// Exec a command in the machine.
    Exec(Exec),
    /// Get a shell in the machine.
    Shell(Shell),
    /// Terminate the machine.
    Terminate(Terminate),
    /// Reboot the machine.
    Reboot(Reboot),
    /// Get the machine's network configuration.
    Network(Network),
}

/// `machines list`
#[derive(Clone, Debug)]
pub struct List {
    /// List machines by name pattern.
    pub pattern: Option<String>,
}

/// `machines stop`
#[derive(Clone, Debug)]
pub struct Stop {
    /// Stop all machines.
    pub all: bool,
    /// Stop machines matching the pattern.
    pub pattern: Option<String>,
    /// Name of the machine to stop.
    pub machine: Option<String>,
}

/// `machines kill`
#[derive(Clone, Debug)]
pub struct Kill {
    /// Name of the machine to work with.
    pub machine: Option<String>,
    /// Kill all machines.
    pub all: bool,
    /// Kill machines matching the pattern.
    pub pattern: Option<String>,
    /// The signal to kill with: [`DEFAULT_SIGNAL`] unless another is named.
    pub signal: String,
}

/// `machines exec`
#[derive(Clone, Debug)]
pub struct Exec {
    /// Name of the machine to work with.
    pub machine: Option<String>,
    /// Command to execute.
    pub command: String,
    /// Run the command on all machines.
    pub all: bool,
    /// Run the command on machines matching the pattern.
    pub pattern: Option<String>,
    /// User to log in as.
    pub user: Option<String>,
}

/// `machines shell`
#[derive(Clone, Debug)]
pub struct Shell {
    /// Name of the machine to work with.
    pub machine: Option<String>,
    /// User to log in as.
    pub user: Option<String>,
}

/// `machines terminate`
#[derive(Clone, Debug)]
pub struct Terminate {
    /// Name of the machine to terminate.
    pub machine: Option<String>,
    /// Terminate all machines.
    pub all: bool,
    /// Terminate machines matching the pattern.
    pub pattern: Option<String>,
}

/// `machines reboot`
#[derive(Clone, Debug)]
pub struct Reboot {
    /// Reboot all machines.
    pub all: bool,
    /// Reboot machines matching the pattern.
    pub pattern: Option<String>,
    /// Name of the machine to reboot.
    pub machine: Option<String>,
}

/// `machines network`
#[derive(Clone, Debug)]
pub struct Network {
    /// Name of the machine to work with.
    pub machine: Option<String>,
    /// Get the network configuration of all machines.
    pub all: bool,
    /// Get the network configuration of machines matching the pattern.
    pub pattern: Option<String>,
}

} // verus!
