//! The command line, once it has been parsed.
pub mod arguments;
pub mod images_args;
pub mod machines_args;

pub use arguments::{Arguments, Commands, CompletionShell};
pub use images_args::{ImageCommands, ImagesArgs, RemoteOps};
pub use machines_args::{MachineCommands, MachinesArgs};
