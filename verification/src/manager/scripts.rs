//! The script of each command: the steps that are known before anything is
//! run.
use crate::args::images_args::{
    ImageCommands, List, RemoteImport, RemoteList, RemoteOps, Remove, Rename, SetMode, Start,
};
use crate::args::machines_args::{
    Exec, Kill, MachineCommands, Network, Reboot, Shell, Stop, Terminate,
};
use crate::images::images_ops::{
    clone_call, import_call, read_only_call, remove_call, rename_call, start_call,
};
use crate::images::{
    clone_image, import_remote_image, remove_image, rename_image, set_read_only, start_image,
};
use crate::machines::machines_ops::{
    exec_call, kill_call, reboot_call, shell_call, stop_call, terminate_call,
};
use crate::machines::{
    exec_machine, kill_machine, machine_shell, reboot_machine, stop_machine, terminate_machine,
};
use crate::manager::steps::{
    all_sound, attempt, one, report, select, selection, two, views, warn, ImageTask, ListFilter,
    MachineTask, Pick, Selection, Step, StepView,
};
use crate::text::{after_last, last_segment, replace_char, replaced, words};
use crate::utilities::{
    error, invalid_image, invalid_machine, join, join3, join5, no_image, no_machine, Notice,
};
use vstd::prelude::*;

verus! {

broadcast use vstd::seq::group_seq_axioms;

/// The server that remote images come from where none is named.
pub const DEFAULT_SERVER: &'static str = "https://hub.nspawn.org";

/// The server to ask.
pub open spec fn server_or_default(server: Option<String>) -> Seq<char> {
    match server {
        Some(url) => url@,
        None => DEFAULT_SERVER@,
    }
}

/// Which images `images list` shows: the read-only ones where that is asked
/// for; else those of the type, where one is given; else those that match
/// the pattern, where one is given; else all.
pub open spec fn list_filter(list: List) -> ListFilter {
    if list.ro {
        ListFilter::ReadOnly
    } else {
        match list.type_field {
            Some(kind) => ListFilter::Type(kind),
            None => match list.pattern {
                Some(pattern) => ListFilter::Pattern(pattern),
                None => ListFilter::Everything,
            },
        }
    }
}

/// The script of `images start`.
pub open spec fn start_script(start: Start) -> Seq<StepView> {
    match selection(start.machine, start.pattern, start.all) {
        Selection::Named(name) => seq![attempt(start_call(name@))],
        Selection::Pattern(pattern) => seq![
            warn("Starting images matching pattern: "@ + pattern@),
            StepView::Images(ImageTask::Start(Pick::Pattern(pattern))),
        ],
        Selection::All => seq![
            warn("Warning, starting all images..."@),
            StepView::Images(ImageTask::Start(Pick::All)),
        ],
        Selection::Missing => seq![StepView::Say(no_image())],
    }
}

/// The script of `images remove`. An image that is named is removed
/// without a look at whether it is read-only: only a listing tells.
pub open spec fn remove_script(remove: Remove) -> Seq<StepView> {
    match selection(remove.image, remove.pattern, remove.all) {
        Selection::Named(name) => seq![
            warn("Removing image "@ + name@ + "..."@),
            report(
                remove_call(name@),
                Some("Image "@ + name@ + " removed!"@),
                "Failed to remove image "@ + name@ + ": "@,
                "!"@,
            ),
        ],
        Selection::Pattern(pattern) => seq![
            warn("Removing images matching pattern: "@ + pattern@),
            StepView::Images(ImageTask::Remove(Pick::Pattern(pattern))),
        ],
        Selection::All => seq![
            warn("Removing all images..."@),
            StepView::Images(ImageTask::Remove(Pick::All)),
        ],
        Selection::Missing => seq![StepView::Say(no_image())],
    }
}

/// The script of `images set`. Read-only goes before read-write.
pub open spec fn set_mode_script(set: SetMode) -> Seq<StepView> {
    if set.read_only {
        seq![
            warn("Setting image "@ + set.image@ + " to read-only..."@),
            report(
                read_only_call(set.image@, true),
                Some("Image "@ + set.image@ + " set to read-only."@),
                "Error setting image "@ + set.image@ + " to read-only: "@,
                ""@,
            ),
        ]
    } else if set.read_write {
        seq![
            warn("Setting image "@ + set.image@ + " to read-write..."@),
            report(
                read_only_call(set.image@, false),
                Some("Image "@ + set.image@ + " set to read-write."@),
                "Error setting image "@ + set.image@ + " to read-write: "@,
                ""@,
            ),
        ]
    } else {
        seq![StepView::Say(error("No action specified! See --help for more information."@))]
    }
}

/// The script of `images clone`.
pub open spec fn clone_script(clone: crate::args::images_args::Clone) -> Seq<StepView> {
    seq![
        warn("Cloning image "@ + clone.current_image@ + "..."@),
        report(
            clone_call(clone.current_image@, clone.new_image@),
            Some(
                "Image "@ + clone.current_image@ + " sucessfully cloned to "@ + clone.new_image@
                    + "."@,
            ),
            "Error cloning image "@ + clone.current_image@ + ": "@,
            ""@,
        ),
    ]
}

/// The script of `images rename`.
pub open spec fn rename_script(rename: Rename) -> Seq<StepView> {
    seq![
        warn(
            "Renaming image "@ + rename.current_image@ + " to "@ + rename.new_image@ + "..."@,
        ),
        report(
            rename_call(rename.current_image@, rename.new_image@),
            Some(
                "Image "@ + rename.current_image@ + " sucessfully renamed to "@
                    + rename.new_image@ + "."@,
            ),
            "Error renaming image "@ + rename.current_image@ + ": "@,
            ""@,
        ),
    ]
}

/// The URL of the listing of a server.
pub open spec fn listing_url(server: Seq<char>) -> Seq<char> {
    server + "/storage/list.txt"@
}

/// The script of `images remote list`. A pattern is accepted and not
/// applied: the listing is printed as the server gives it.
pub open spec fn remote_list_script(list: RemoteList) -> Seq<StepView> {
    seq![StepView::Fetch(listing_url(server_or_default(list.server)))]
}

/// The type of a remote image: what follows the last `/` of its name.
pub open spec fn remote_type(remote_name: Seq<char>) -> Seq<char> {
    after_last(remote_name, '/')
}

/// The URL of the archive of a remote image.
pub open spec fn archive_url(server: Seq<char>, remote_name: Seq<char>) -> Seq<char> {
    server + "/storage/"@ + remote_name + "/image."@ + remote_type(remote_name) + ".xz"@
}

/// The name under which a remote image is kept: the one that is given, else
/// the remote name with `-` for each `/`.
pub open spec fn local_name(import: RemoteImport) -> Seq<char> {
    match import.local_name {
        Some(name) => name@,
        None => replaced(import.remote_name@, '/', '-'),
    }
}

/// The script of `images remote import`. The daemon pulls the archive
/// itself; an image of a type that cannot be pulled is an error, and
/// nothing is run for it.
pub open spec fn import_script(import: RemoteImport) -> Seq<StepView> {
    let remote = import.remote_name@;
    let local = local_name(import);
    let url = archive_url(server_or_default(import.server), remote);
    let trouble = "Error importing image "@ + remote + " from url "@ + url + ": "@;
    seq![
        warn("Importing image "@ + remote + " to "@ + local + "..."@),
        match import_call(url, remote_type(remote), local) {
            Ok(call) => report(call, Some("Image "@ + local + " imported!"@), trouble, ""@),
            Err(e) => StepView::Say(error(trouble + e.message)),
        },
    ]
}

/// The script of a command on images.
pub open spec fn image_script(command: ImageCommands, width: Option<u16>) -> Seq<StepView> {
    match command {
        ImageCommands::List(list) => seq![
            StepView::Images(ImageTask::Show(list_filter(list), width)),
        ],
        ImageCommands::Start(start) => start_script(start),
        ImageCommands::Remove(remove) => remove_script(remove),
        ImageCommands::SetMode(set) => set_mode_script(set),
        ImageCommands::Clone(clone) => clone_script(clone),
        ImageCommands::Rename(rename) => rename_script(rename),
        ImageCommands::Remote(remote) => match remote.remote_ops {
            RemoteOps::List(list) => remote_list_script(list),
            RemoteOps::Import(import) => import_script(import),
        },
    }
}

/// The server to ask: the one that is named, else the default one.
pub fn server_of(server: Option<String>) -> (url: String)
    ensures
        url@ == server_or_default(server),
{
    match server {
        Some(url) => url,
        None => DEFAULT_SERVER.to_string(),
    }
}

fn plan_list(list: List, width: Option<u16>) -> (script: Vec<Step>)
    ensures
        views(script@) == image_script(ImageCommands::List(list), width),
{
    let filter = if list.ro {
        ListFilter::ReadOnly
    } else {
        match list.type_field {
            Some(kind) => ListFilter::Type(kind),
            None => match list.pattern {
                Some(pattern) => ListFilter::Pattern(pattern),
                None => ListFilter::Everything,
            },
        }
    };
    one(Step::Images(ImageTask::Show(filter, width)))
}

fn plan_start(start: Start) -> (script: Vec<Step>)
    ensures
        views(script@) == start_script(start),
{
    match select(start.machine, start.pattern, start.all) {
        Selection::Named(name) => one(Step::attempt(start_image(name.as_str()))),
        Selection::Pattern(pattern) => two(
            Step::warn(join("Starting images matching pattern: ", pattern.as_str())),
            Step::Images(ImageTask::Start(Pick::Pattern(pattern))),
        ),
        Selection::All => two(
            Step::warn("Warning, starting all images...".to_string()),
            Step::Images(ImageTask::Start(Pick::All)),
        ),
        Selection::Missing => one(Step::Say(invalid_image())),
    }
}

fn plan_remove(remove: Remove) -> (script: Vec<Step>)
    ensures
        views(script@) == remove_script(remove),
{
    match select(remove.image, remove.pattern, remove.all) {
        Selection::Named(name) => {
            let name = name.as_str();
            two(
                Step::warn(join3("Removing image ", name, "...")),
                Step::report(
                    remove_image(name),
                    Some(join3("Image ", name, " removed!")),
                    join3("Failed to remove image ", name, ": "),
                    "!",
                ),
            )
        },
        Selection::Pattern(pattern) => two(
            Step::warn(join("Removing images matching pattern: ", pattern.as_str())),
            Step::Images(ImageTask::Remove(Pick::Pattern(pattern))),
        ),
        Selection::All => two(
            Step::warn("Removing all images...".to_string()),
            Step::Images(ImageTask::Remove(Pick::All)),
        ),
        Selection::Missing => one(Step::Say(invalid_image())),
    }
}

fn plan_set_mode(set: SetMode) -> (script: Vec<Step>)
    ensures
        views(script@) == set_mode_script(set),
{
    let name = set.image.as_str();
    if set.read_only {
        two(
            Step::warn(join3("Setting image ", name, " to read-only...")),
            Step::report(
                set_read_only(name, true),
                Some(join3("Image ", name, " set to read-only.")),
                join3("Error setting image ", name, " to read-only: "),
                "",
            ),
        )
    } else if set.read_write {
        two(
            Step::warn(join3("Setting image ", name, " to read-write...")),
            Step::report(
                set_read_only(name, false),
                Some(join3("Image ", name, " set to read-write.")),
                join3("Error setting image ", name, " to read-write: "),
                "",
            ),
        )
    } else {
        one(
            Step::Say(
                Notice::error(
                    "No action specified! See --help for more information.".to_string(),
                ),
            ),
        )
    }
}

fn plan_clone(clone: crate::args::images_args::Clone) -> (script: Vec<Step>)
    ensures
        views(script@) == clone_script(clone),
{
    let from = clone.current_image.as_str();
    let to = clone.new_image.as_str();
    two(
        Step::warn(join3("Cloning image ", from, "...")),
        Step::report(
            clone_image(from, to),
            Some(join5("Image ", from, " sucessfully cloned to ", to, ".")),
            join3("Error cloning image ", from, ": "),
            "",
        ),
    )
}

fn plan_rename(rename: Rename) -> (script: Vec<Step>)
    ensures
        views(script@) == rename_script(rename),
{
    let from = rename.current_image.as_str();
    let to = rename.new_image.as_str();
    two(
        Step::warn(join5("Renaming image ", from, " to ", to, "...")),
        Step::report(
            rename_image(from, to),
            Some(join5("Image ", from, " sucessfully renamed to ", to, ".")),
            join3("Error renaming image ", from, ": "),
            "",
        ),
    )
}

fn plan_remote_list(list: RemoteList) -> (script: Vec<Step>)
    ensures
        views(script@) == remote_list_script(list),
{
    let server = server_of(list.server);
    one(Step::Fetch(join(server.as_str(), "/storage/list.txt")))
}

fn plan_import(import: RemoteImport) -> (script: Vec<Step>)
    ensures
        views(script@) == import_script(import),
{
    let remote = import.remote_name.as_str();
    let local = match import.local_name {
        Some(name) => name,
        None => replace_char(remote, '/', '-'),
    };
    let kind = last_segment(remote, '/');
    let server = server_of(import.server);
    let mut url = join5(server.as_str(), "/storage/", remote, "/image.", kind.as_str());
    url.append(".xz");
    let mut trouble = join5("Error importing image ", remote, " from url ", url.as_str(), ": ");
    let first = Step::warn(join5("Importing image ", remote, " to ", local.as_str(), "..."));
    let second = match import_remote_image(url.as_str(), kind.as_str(), local.as_str()) {
        Ok(call) => {
            let done = join3("Image ", local.as_str(), " imported!");
            Step::report(call, Some(done), trouble, "")
        },
        Err(e) => {
            trouble.append(e.message.as_str());
            Step::Say(Notice::error(trouble))
        },
    };
    two(first, second)
}

/// The script of a command on images.
pub fn plan_images(command: ImageCommands, width: Option<u16>) -> (script: Vec<Step>)
    ensures
        views(script@) == image_script(command, width),
        all_sound(views(script@)),
{
    match command {
        ImageCommands::List(list) => plan_list(list, width),
        ImageCommands::Start(start) => plan_start(start),
        ImageCommands::Remove(remove) => plan_remove(remove),
        ImageCommands::SetMode(set) => plan_set_mode(set),
        ImageCommands::Clone(clone) => plan_clone(clone),
        ImageCommands::Rename(rename) => plan_rename(rename),
        ImageCommands::Remote(remote) => match remote.remote_ops {
            RemoteOps::List(list) => plan_remote_list(list),
            RemoteOps::Import(import) => plan_import(import),
        },
    }
}

/// The user that `exec` and `shell` log in as where none is named.
pub const DEFAULT_USER: &'static str = "root";

/// The user to log in as.
pub open spec fn user_or_default(user: Option<String>) -> Seq<char> {
    match user {
        Some(user) => user@,
        None => DEFAULT_USER@,
    }
}

/// The script of `machines stop`.
pub open spec fn stop_script(stop: Stop) -> Seq<StepView> {
    match selection(stop.machine, stop.pattern, stop.all) {
        Selection::Named(name) => seq![attempt(stop_call(name@))],
        Selection::Pattern(pattern) => seq![
            warn("Stopping machines matching pattern: "@ + pattern@),
            StepView::Machines(MachineTask::Stop(Pick::Pattern(pattern))),
        ],
        Selection::All => seq![
            warn("Warning, stopping all machines..."@),
            StepView::Machines(MachineTask::Stop(Pick::All)),
        ],
        Selection::Missing => seq![StepView::Say(no_machine())],
    }
}

/// The script of `machines kill`.
pub open spec fn kill_script(kill: Kill) -> Seq<StepView> {
    match selection(kill.machine, kill.pattern, kill.all) {
        Selection::Named(name) => seq![attempt(kill_call(name@, kill.signal@))],
        Selection::Pattern(pattern) => seq![
            warn("Killing machines matching pattern: "@ + pattern@),
            StepView::Machines(MachineTask::Kill(Pick::Pattern(pattern), kill.signal)),
        ],
        Selection::All => seq![
            warn("Warning, killing all machines..."@),
            StepView::Machines(MachineTask::Kill(Pick::All, kill.signal)),
        ],
        Selection::Missing => seq![StepView::Say(no_machine())],
    }
}

/// The script of `machines exec`. The user is `root` where none is named.
pub open spec fn exec_script(exec: Exec) -> Seq<StepView> {
    match selection(exec.machine, exec.pattern, exec.all) {
        Selection::Named(name) => seq![
            attempt(exec_call(name@, user_or_default(exec.user), exec.command@)),
        ],
        Selection::Pattern(pattern) => seq![
            warn("Executing command on machines matching pattern: "@ + pattern@),
            StepView::Machines(
                MachineTask::Exec {
                    pick: Pick::Pattern(pattern),
                    user: exec.user,
                    command: exec.command,
                },
            ),
        ],
        Selection::All => seq![
            warn("Warning, executing command on all machines..."@),
            StepView::Machines(
                MachineTask::Exec { pick: Pick::All, user: exec.user, command: exec.command },
            ),
        ],
        Selection::Missing => seq![StepView::Say(no_machine())],
    }
}

/// The script of `machines shell`, which takes a name and nothing else. The
/// user is `root` where none is named.
pub open spec fn shell_script(shell: Shell) -> Seq<StepView> {
    match shell.machine {
        Some(name) => seq![attempt(shell_call(name@, user_or_default(shell.user)))],
        None => seq![StepView::Say(no_machine())],
    }
}

/// The script of `machines terminate`.
pub open spec fn terminate_script(terminate: Terminate) -> Seq<StepView> {
    match selection(terminate.machine, terminate.pattern, terminate.all) {
        Selection::Named(name) => seq![attempt(terminate_call(name@))],
        Selection::Pattern(pattern) => seq![
            warn("Terminating machines matching pattern: "@ + pattern@),
            StepView::Machines(MachineTask::Terminate(Pick::Pattern(pattern))),
        ],
        Selection::All => seq![
            warn("Warning, terminating all machines..."@),
            StepView::Machines(MachineTask::Terminate(Pick::All)),
        ],
        Selection::Missing => seq![StepView::Say(no_machine())],
    }
}

/// The script of `machines reboot`.
pub open spec fn reboot_script(reboot: Reboot) -> Seq<StepView> {
    match selection(reboot.machine, reboot.pattern, reboot.all) {
        Selection::Named(name) => seq![attempt(reboot_call(name@))],
        Selection::Pattern(pattern) => seq![
            warn("Rebooting machines matching pattern: "@ + pattern@),
            StepView::Machines(MachineTask::Reboot(Pick::Pattern(pattern))),
        ],
        Selection::All => seq![
            warn("Warning, rebooting all machines..."@),
            StepView::Machines(MachineTask::Reboot(Pick::All)),
        ],
        Selection::Missing => seq![StepView::Say(no_machine())],
    }
}

/// The script of `machines network`.
pub open spec fn network_script(network: Network) -> Seq<StepView> {
    match selection(network.machine, network.pattern, network.all) {
        Selection::Named(name) => seq![StepView::Inspect { machine: name@, fatal: true }],
        Selection::Pattern(pattern) => seq![
            warn("Getting network info for machines matching pattern: "@ + pattern@),
            StepView::Machines(MachineTask::Network(Pick::Pattern(pattern))),
        ],
        Selection::All => seq![
            warn("Warning, getting network info for all machines..."@),
            StepView::Machines(MachineTask::Network(Pick::All)),
        ],
        Selection::Missing => seq![StepView::Say(no_machine())],
    }
}

/// The script of a command on machines.
pub open spec fn machine_script(command: MachineCommands, width: Option<u16>) -> Seq<StepView> {
    match command {
        MachineCommands::List(list) => seq![
            StepView::Machines(MachineTask::Show(list.pattern, width)),
        ],
        MachineCommands::Stop(stop) => stop_script(stop),
        MachineCommands::Kill(kill) => kill_script(kill),
        MachineCommands::Exec(exec) => exec_script(exec),
        MachineCommands::Shell(shell) => shell_script(shell),
        MachineCommands::Terminate(terminate) => terminate_script(terminate),
        MachineCommands::Reboot(reboot) => reboot_script(reboot),
        MachineCommands::Network(network) => network_script(network),
    }
}

/// Whether a command on machines can be carried out: the command that
/// `exec` is to execute in a machine that it names has to hold a word.
pub open spec fn runnable(command: MachineCommands) -> bool {
    command matches MachineCommands::Exec(exec) ==> (exec.machine is Some ==> words(
        exec.command@,
    ).len() > 0)
}

/// The user to log in as: the one that is named, else `root`.
pub fn user_of(user: Option<String>) -> (name: String)
    ensures
        name@ == user_or_default(user),
{
    match user {
        Some(user) => user,
        None => DEFAULT_USER.to_string(),
    }
}

fn plan_stop(stop: Stop) -> (script: Vec<Step>)
    ensures
        views(script@) == stop_script(stop),
{
    match select(stop.machine, stop.pattern, stop.all) {
        Selection::Named(name) => one(Step::attempt(stop_machine(name.as_str()))),
        Selection::Pattern(pattern) => two(
            Step::warn(join("Stopping machines matching pattern: ", pattern.as_str())),
            Step::Machines(MachineTask::Stop(Pick::Pattern(pattern))),
        ),
        Selection::All => two(
            Step::warn("Warning, stopping all machines...".to_string()),
            Step::Machines(MachineTask::Stop(Pick::All)),
        ),
        Selection::Missing => one(Step::Say(invalid_machine())),
    }
}

fn plan_kill(kill: Kill) -> (script: Vec<Step>)
    ensures
        views(script@) == kill_script(kill),
{
    let signal = kill.signal;
    match select(kill.machine, kill.pattern, kill.all) {
        Selection::Named(name) => one(
            Step::attempt(kill_machine(name.as_str(), signal.as_str())),
        ),
        Selection::Pattern(pattern) => two(
            Step::warn(join("Killing machines matching pattern: ", pattern.as_str())),
            Step::Machines(MachineTask::Kill(Pick::Pattern(pattern), signal)),
        ),
        Selection::All => two(
            Step::warn("Warning, killing all machines...".to_string()),
            Step::Machines(MachineTask::Kill(Pick::All, signal)),
        ),
        Selection::Missing => one(Step::Say(invalid_machine())),
    }
}

fn plan_exec(exec: Exec) -> (script: Vec<Step>)
    requires
        exec.machine is Some ==> words(exec.command@).len() > 0,
    ensures
        views(script@) == exec_script(exec),
        all_sound(views(script@)),
{
    let user = exec.user;
    let command = exec.command;
    match select(exec.machine, exec.pattern, exec.all) {
        Selection::Named(name) => {
            let user = user_of(user);
            one(Step::attempt(exec_machine(name.as_str(), user.as_str(), command.as_str())))
        },
        Selection::Pattern(pattern) => two(
            Step::warn(join("Executing command on machines matching pattern: ", pattern.as_str())),
            Step::Machines(MachineTask::Exec { pick: Pick::Pattern(pattern), user, command }),
        ),
        Selection::All => two(
            Step::warn("Warning, executing command on all machines...".to_string()),
            Step::Machines(MachineTask::Exec { pick: Pick::All, user, command }),
        ),
        Selection::Missing => one(Step::Say(invalid_machine())),
    }
}

fn plan_shell(shell: Shell) -> (script: Vec<Step>)
    ensures
        views(script@) == shell_script(shell),
{
    let user = user_of(shell.user);
    match shell.machine {
        Some(name) => one(Step::attempt(machine_shell(name.as_str(), user.as_str()))),
        None => one(Step::Say(invalid_machine())),
    }
}

fn plan_terminate(terminate: Terminate) -> (script: Vec<Step>)
    ensures
        views(script@) == terminate_script(terminate),
{
    match select(terminate.machine, terminate.pattern, terminate.all) {
        Selection::Named(name) => one(Step::attempt(terminate_machine(name.as_str()))),
        Selection::Pattern(pattern) => two(
            Step::warn(join("Terminating machines matching pattern: ", pattern.as_str())),
            Step::Machines(MachineTask::Terminate(Pick::Pattern(pattern))),
        ),
        Selection::All => two(
            Step::warn("Warning, terminating all machines...".to_string()),
            Step::Machines(MachineTask::Terminate(Pick::All)),
        ),
        Selection::Missing => one(Step::Say(invalid_machine())),
    }
}

fn plan_reboot(reboot: Reboot) -> (script: Vec<Step>)
    ensures
        views(script@) == reboot_script(reboot),
{
    match select(reboot.machine, reboot.pattern, reboot.all) {
        Selection::Named(name) => one(Step::attempt(reboot_machine(name.as_str()))),
        Selection::Pattern(pattern) => two(
            Step::warn(join("Rebooting machines matching pattern: ", pattern.as_str())),
            Step::Machines(MachineTask::Reboot(Pick::Pattern(pattern))),
        ),
        Selection::All => two(
            Step::warn("Warning, rebooting all machines...".to_string()),
            Step::Machines(MachineTask::Reboot(Pick::All)),
        ),
        Selection::Missing => one(Step::Say(invalid_machine())),
    }
}

fn plan_network(network: Network) -> (script: Vec<Step>)
    ensures
        views(script@) == network_script(network),
{
    match select(network.machine, network.pattern, network.all) {
        Selection::Named(name) => one(Step::Inspect { machine: name, fatal: true }),
        Selection::Pattern(pattern) => two(
            Step::warn(
                join("Getting network info for machines matching pattern: ", pattern.as_str()),
            ),
            Step::Machines(MachineTask::Network(Pick::Pattern(pattern))),
        ),
        Selection::All => two(
            Step::warn("Warning, getting network info for all machines...".to_string()),
            Step::Machines(MachineTask::Network(Pick::All)),
        ),
        Selection::Missing => one(Step::Say(invalid_machine())),
    }
}

/// The script of a command on machines.
pub fn plan_machines(command: MachineCommands, width: Option<u16>) -> (script: Vec<Step>)
    requires
        runnable(command),
    ensures
        views(script@) == machine_script(command, width),
        all_sound(views(script@)),
{
    match command {
        MachineCommands::List(list) => one(Step::Machines(MachineTask::Show(list.pattern, width))),
        MachineCommands::Stop(stop) => plan_stop(stop),
        MachineCommands::Kill(kill) => plan_kill(kill),
        MachineCommands::Exec(exec) => plan_exec(exec),
        MachineCommands::Shell(shell) => plan_shell(shell),
        MachineCommands::Terminate(terminate) => plan_terminate(terminate),
        MachineCommands::Reboot(reboot) => plan_reboot(reboot),
        MachineCommands::Network(network) => plan_network(network),
    }
}

} // verus!
