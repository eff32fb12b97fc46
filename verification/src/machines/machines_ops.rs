use crate::process::{read_call, write_call, Invocation, InvocationView, BIN_PATH};
use crate::text::{split_words, words};
use crate::utilities::join3;
use vstd::prelude::*;

verus! {

broadcast use vstd::seq::group_seq_axioms;

/// `machinectl --output json`
pub open spec fn list_machines_call() -> InvocationView {
    read_call(seq!["--output"@, "json"@])
}

/// `machinectl stop <name>`
pub open spec fn stop_call(name: Seq<char>) -> InvocationView {
    write_call(seq!["stop"@, name], "Failed to stop machine"@)
}

/// `machinectl terminate <name>`
pub open spec fn terminate_call(name: Seq<char>) -> InvocationView {
    write_call(seq!["terminate"@, name], "Failed to terminate machine"@)
}

/// `machinectl kill <name> --signal <signal>`
pub open spec fn kill_call(name: Seq<char>, signal: Seq<char>) -> InvocationView {
    write_call(seq!["kill"@, name, "--signal"@, signal], "Failed to kill machine"@)
}

/// `machinectl reboot <name>`
pub open spec fn reboot_call(name: Seq<char>) -> InvocationView {
    write_call(seq!["reboot"@, name], "Failed to reboot machine"@)
}

/// The login `user@name`.
pub open spec fn login(user: Seq<char>, name: Seq<char>) -> Seq<char> {
    user + "@"@ + name
}

/// `machinectl --quiet shell <user>@<name>`
pub open spec fn shell_call(name: Seq<char>, user: Seq<char>) -> InvocationView {
    write_call(seq!["--quiet"@, "shell"@, login(user, name)], "Failed to open shell"@)
}

/// The invocation that runs `command` in a machine. The first word of the
/// command is looked up under [`BIN_PATH`]; the other words follow as they
/// are, one argument each. Nothing is quoted or escaped.
pub open spec fn exec_call(name: Seq<char>, user: Seq<char>, command: Seq<char>) -> InvocationView {
    let parts = words(command);
    write_call(
        seq!["--quiet"@, "shell"@, login(user, name), BIN_PATH@ + parts[0]] + parts.drop_first(),
        "Failed to execute command"@,
    )
}

/// `machinectl --quiet shell <name> /usr/bin/ip -j a`
pub open spec fn network_call(name: Seq<char>) -> InvocationView {
    read_call(seq!["--quiet"@, "shell"@, name, "/usr/bin/ip"@, "-j"@, "a"@])
}

/// The invocation that lists the running machines as JSON.
pub fn list_active_machines() -> (call: Invocation)
    ensures
        call@ == list_machines_call(),
{
    let mut args: Vec<String> = Vec::new();
    args.push("--output".to_string());
    args.push("json".to_string());
    proof {
        assert(args.deep_view() =~= list_machines_call().args);
    }
    Invocation::read(args)
}

/// The invocation that stops the machine `name`.
pub fn stop_machine(name: &str) -> (call: Invocation)
    ensures
        call@ == stop_call(name@),
{
    let mut args: Vec<String> = Vec::new();
    args.push("stop".to_string());
    args.push(name.to_string());
    proof {
        assert(args.deep_view() =~= stop_call(name@).args);
    }
    Invocation::write(args, "Failed to stop machine")
}

/// The invocation that terminates the machine `name`.
pub fn terminate_machine(name: &str) -> (call: Invocation)
    ensures
        call@ == terminate_call(name@),
{
    let mut args: Vec<String> = Vec::new();
    args.push("terminate".to_string());
    args.push(name.to_string());
    proof {
        assert(args.deep_view() =~= terminate_call(name@).args);
    }
    Invocation::write(args, "Failed to terminate machine")
}

/// The invocation that sends `signal` to the machine `name`.
pub fn kill_machine(name: &str, signal: &str) -> (call: Invocation)
    ensures
        call@ == kill_call(name@, signal@),
{
    let mut args: Vec<String> = Vec::new();
    args.push("kill".to_string());
    args.push(name.to_string());
    args.push("--signal".to_string());
    args.push(signal.to_string());
    proof {
        assert(args.deep_view() =~= kill_call(name@, signal@).args);
    }
    Invocation::write(args, "Failed to kill machine")
}

/// The invocation that reboots the machine `name`.
pub fn reboot_machine(name: &str) -> (call: Invocation)
    ensures
        call@ == reboot_call(name@),
{
    let mut args: Vec<String> = Vec::new();
    args.push("reboot".to_string());
    args.push(name.to_string());
    proof {
        assert(args.deep_view() =~= reboot_call(name@).args);
    }
    Invocation::write(args, "Failed to reboot machine")
}

/// The invocation that opens a shell for `user` in the machine `name`.
pub fn machine_shell(name: &str, user: &str) -> (call: Invocation)
    ensures
        call@ == shell_call(name@, user@),
{
    let mut args: Vec<String> = Vec::new();
    args.push("--quiet".to_string());
    args.push("shell".to_string());
    args.push(join3(user, "@", name));
    proof {
        assert(args.deep_view() =~= shell_call(name@, user@).args);
    }
    Invocation::write(args, "Failed to open shell")
}

/// The invocation that runs `command` as `user` in the machine `name`.
/// The command has to hold a word.
pub fn exec_machine(name: &str, user: &str, command: &str) -> (call: Invocation)
    requires
        words(command@).len() > 0,
    ensures
        call@ == exec_call(name@, user@, command@),
{
    let mut parts = split_words(command);
    let mut args: Vec<String> = Vec::new();
    args.push("--quiet".to_string());
    args.push("shell".to_string());
    args.push(join3(user, "@", name));
    let first = parts.remove(0);
    let mut program = BIN_PATH.to_string();
    program.append(first.as_str());
    args.push(program);
    args.append(&mut parts);
    proof {
        assert(args.deep_view() =~= exec_call(name@, user@, command@).args);
    }
    Invocation::write(args, "Failed to execute command")
}

/// The invocation that asks the machine `name` for its interfaces as JSON.
pub fn get_network_config(name: &str) -> (call: Invocation)
    ensures
        call@ == network_call(name@),
{
    let mut args: Vec<String> = Vec::new();
    args.push("--quiet".to_string());
    args.push("shell".to_string());
    args.push(name.to_string());
    args.push("/usr/bin/ip".to_string());
    args.push("-j".to_string());
    args.push("a".to_string());
    proof {
        assert(args.deep_view() =~= network_call(name@).args);
    }
    Invocation::read(args)
}

} // verus!
