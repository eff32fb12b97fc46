//! Running machines: the record, and the invocations that act on machines.
pub mod machines_ops;
pub mod structs;

pub use machines_ops::{
    exec_machine, get_network_config, kill_machine, list_active_machines, machine_shell,
    reboot_machine, stop_machine, terminate_machine,
};
pub use structs::{Machine, Machines};
