//! The steps that a listing adds to a session: what is done with each
//! record that it brought.
use crate::images::images_ops::{remove_call, start_call};
use crate::images::structs::Image;
use crate::images::{remove_image, start_image};
use crate::machines::machines_ops::{
    exec_call, kill_call, reboot_call, stop_call, terminate_call,
};
use crate::machines::structs::Machine;
use crate::machines::{
    exec_machine, kill_machine, reboot_machine, stop_machine, terminate_machine,
};
use crate::manager::scripts::{user_or_default, DEFAULT_USER};
use crate::manager::steps::{
    all_sound, executable, executable_in, nothing, one, report, showable, two, views, warn,
    ImageTask, ListFilter, MachineTask, Pick, Step, StepView,
};
use crate::text::{matches_pattern, name_matches};
use crate::utilities::{join, join3, join4, success, Notice};
use vstd::prelude::*;

verus! {

broadcast use vstd::seq::group_seq_axioms;

/// The step that starts a listed image and reports on it.
pub open spec fn start_step(name: Seq<char>) -> StepView {
    report(
        start_call(name),
        Some("Started image: "@ + name),
        "Error starting image "@ + name + ": "@,
        ""@,
    )
}

/// The step that removes a listed image and reports on it.
pub open spec fn remove_step(name: Seq<char>) -> StepView {
    report(
        remove_call(name),
        Some("Image "@ + name + " removed."@),
        "Error removing image "@ + name + ": "@,
        ""@,
    )
}

/// The step that passes a read-only image over.
pub open spec fn skip_step(name: Seq<char>) -> StepView {
    warn("Skipping read-only image: "@ + name)
}

/// The steps for one listed image. A read-only image is never removed: it
/// is passed over with a warning, whether the command picks it or not.
pub open spec fn steps_of_image(task: ImageTask, image: Image) -> Seq<StepView> {
    match task {
        ImageTask::Show(_, _) => Seq::empty(),
        ImageTask::Start(pick) => if pick.picks(image.name@) {
            seq![start_step(image.name@)]
        } else {
            Seq::empty()
        },
        ImageTask::Remove(pick) => if image.ro {
            seq![skip_step(image.name@)]
        } else if pick.picks(image.name@) {
            seq![remove_step(image.name@)]
        } else {
            Seq::empty()
        },
    }
}

/// The steps for each image of a listing, in the order of the listing.
pub open spec fn steps_of_images(task: ImageTask, images: Seq<Image>) -> Seq<StepView>
    decreases images.len(),
{
    if images.len() == 0 {
        Seq::empty()
    } else {
        steps_of_images(task, images.drop_last()) + steps_of_image(task, images.last())
    }
}

/// The test that a filter stands for.
pub open spec fn shown_by(filter: ListFilter) -> spec_fn(Image) -> bool {
    |image: Image| filter.shows(image)
}

/// The images that a listing shows: those that pass the filter, in the
/// order in which they came.
pub open spec fn shown_images(filter: ListFilter, images: Seq<Image>) -> Seq<Image> {
    images.filter(shown_by(filter))
}

/// The steps that a listing of images adds. The images that are shown
/// wait for the time zone of their times to be known.
pub open spec fn image_steps(task: ImageTask, images: Seq<Image>) -> Seq<StepView> {
    match task {
        ImageTask::Show(filter, width) => seq![
            StepView::Zones { images: shown_images(filter, images), width },
        ],
        _ => steps_of_images(task, images),
    }
}

/// The step that stops a listed machine and reports on it.
pub open spec fn stop_step(pick: Pick, name: Seq<char>) -> StepView {
    report(
        stop_call(name),
        Some("Stopped machine: "@ + name),
        match pick {
            Pick::All => "Error stopping machine "@,
            Pick::Pattern(_) => "Error starting machine "@,
        } + name + ": "@,
        ""@,
    )
}

/// The step that kills a listed machine. Nothing is said of a success.
pub open spec fn kill_step(name: Seq<char>, signal: Seq<char>) -> StepView {
    report(kill_call(name, signal), None, "Error killing machine "@ + name + ": "@, ""@)
}

/// The step that runs a command in a listed machine and reports on it.
pub open spec fn exec_step(name: Seq<char>, user: Seq<char>, command: Seq<char>) -> StepView {
    report(
        exec_call(name, user, command),
        Some("Executed command "@ + command + " on machine: "@ + name),
        "Error executing command on machine "@ + name + ": "@,
        ""@,
    )
}

/// The step that terminates a listed machine and reports on it.
pub open spec fn terminate_step(name: Seq<char>) -> StepView {
    report(
        terminate_call(name),
        Some("Terminated machine: "@ + name),
        "Error terminating machine "@ + name + ": "@,
        ""@,
    )
}

/// The step that reboots a listed machine and reports on it.
pub open spec fn reboot_step(name: Seq<char>) -> StepView {
    report(
        reboot_call(name),
        Some("Rebooted machine: "@ + name),
        "Error rebooting machine "@ + name + ": "@,
        ""@,
    )
}

/// The steps for one listed machine of the given name.
pub open spec fn steps_of_machine(task: MachineTask, name: Seq<char>) -> Seq<StepView> {
    match task {
        MachineTask::Show(_, _) => Seq::empty(),
        MachineTask::Stop(pick) => if pick.picks(name) {
            seq![stop_step(pick, name)]
        } else {
            Seq::empty()
        },
        MachineTask::Kill(pick, signal) => if pick.picks(name) {
            seq![kill_step(name, signal@)]
        } else {
            Seq::empty()
        },
        MachineTask::Exec { pick, user, command } => if pick.picks(name) {
            match pick {
                Pick::All => seq![exec_step(name, user_or_default(user), command@)],
                Pick::Pattern(_) => seq![
                    StepView::Say(success("Executing command on machine: "@ + name)),
                    exec_step(name, user_or_default(user), command@),
                ],
            }
        } else {
            Seq::empty()
        },
        MachineTask::Terminate(pick) => if pick.picks(name) {
            seq![terminate_step(name)]
        } else {
            Seq::empty()
        },
        MachineTask::Reboot(pick) => if pick.picks(name) {
            seq![reboot_step(name)]
        } else {
            Seq::empty()
        },
        MachineTask::Network(pick) => if pick.picks(name) {
            seq![StepView::Inspect { machine: name, fatal: false }]
        } else {
            Seq::empty()
        },
    }
}

/// The steps for each machine of a listing, in the order of the listing. A
/// machine without a name goes by the placeholder.
pub open spec fn steps_of_machines(task: MachineTask, machines: Seq<Machine>) -> Seq<StepView>
    decreases machines.len(),
{
    if machines.len() == 0 {
        Seq::empty()
    } else {
        steps_of_machines(task, machines.drop_last()) + steps_of_machine(
            task,
            machines.last().label(),
        )
    }
}

/// The test that a pattern stands for.
pub open spec fn named_like(pattern: String) -> spec_fn(Machine) -> bool {
    |machine: Machine| matches_pattern(machine.label(), pattern@)
}

/// The machines that a listing shows: all where there is no pattern, else
/// those whose name matches it, in the order in which they came.
pub open spec fn shown_machines(pattern: Option<String>, machines: Seq<Machine>) -> Seq<Machine> {
    match pattern {
        Some(pattern) => machines.filter(named_like(pattern)),
        None => machines,
    }
}

/// The steps that a listing of machines adds.
pub open spec fn machine_steps(task: MachineTask, machines: Seq<Machine>) -> Seq<StepView> {
    match task {
        MachineTask::Show(pattern, width) => seq![
            StepView::ShowMachines { machines: shown_machines(pattern, machines), width },
        ],
        _ => steps_of_machines(task, machines),
    }
}

/// The views of two rows of steps, one behind the other.
pub proof fn lemma_views_add(a: Seq<Step>, b: Seq<Step>)
    ensures
        views(a + b) == views(a) + views(b),
{
}

fn start_one(name: &str) -> (step: Step)
    ensures
        step@ == start_step(name@),
{
    Step::report(
        start_image(name),
        Some(join("Started image: ", name)),
        join3("Error starting image ", name, ": "),
        "",
    )
}

fn remove_one(name: &str) -> (step: Step)
    ensures
        step@ == remove_step(name@),
{
    Step::report(
        remove_image(name),
        Some(join3("Image ", name, " removed.")),
        join3("Error removing image ", name, ": "),
        "",
    )
}

fn steps_for_image(task: &ImageTask, image: &Image) -> (steps: Vec<Step>)
    ensures
        views(steps@) == steps_of_image(*task, *image),
        all_sound(views(steps@)),
{
    let name = image.name.as_str();
    match task {
        ImageTask::Show(_, _) => nothing(),
        ImageTask::Start(pick) => if pick.takes(name) {
            one(start_one(name))
        } else {
            nothing()
        },
        ImageTask::Remove(pick) => if image.ro {
            one(Step::warn(join("Skipping read-only image: ", name)))
        } else if pick.takes(name) {
            one(remove_one(name))
        } else {
            nothing()
        },
    }
}

/// The images that pass `filter`.
pub fn filter_images(filter: &ListFilter, images: &Vec<Image>) -> (shown: Vec<Image>)
    ensures
        shown@ == shown_images(*filter, images@),
{
    let mut shown: Vec<Image> = Vec::new();
    let mut i: usize = 0;
    while i < images.len()
        invariant
            0 <= i <= images.len(),
            shown@ == shown_images(*filter, images@.take(i as int)),
        decreases images.len() - i,
    {
        proof {
            assert(images@.take(i + 1) =~= images@.take(i as int).push(images@[i as int]));
            images@.take(i as int).lemma_filter_push(images@[i as int], shown_by(*filter));
        }
        if filter.keeps(&images[i]) {
            shown.push(images[i].duplicate());
        }
        i += 1;
    }
    proof {
        assert(images@.take(images.len() as int) =~= images@);
    }
    shown
}

/// The steps that a listing of images adds to a session.
pub fn expand_images(task: &ImageTask, images: &Vec<Image>) -> (steps: Vec<Step>)
    requires
        task matches ImageTask::Show(filter, _) ==> showable(*filter, images@),
    ensures
        views(steps@) == image_steps(*task, images@),
        all_sound(views(steps@)),
{
    if let ImageTask::Show(filter, width) = task {
        let shown = filter_images(filter, images);
        proof {
            let kept = shown_images(*filter, images@);
            assert forall|k: int| 0 <= k < kept.len() implies (#[trigger] kept[k]).displayable()
            by {
                images@.lemma_filter_contains_rev(shown_by(*filter), kept[k]);
            }
        }
        return one(Step::Zones { images: shown, width: *width });
    }
    let mut steps: Vec<Step> = nothing();
    let mut i: usize = 0;
    while i < images.len()
        invariant
            0 <= i <= images.len(),
            !(task is Show),
            views(steps@) == steps_of_images(*task, images@.take(i as int)),
            all_sound(views(steps@)),
        decreases images.len() - i,
    {
        let mut more = steps_for_image(task, &images[i]);
        proof {
            let next = images@.take(i + 1);
            assert(next.drop_last() =~= images@.take(i as int));
            lemma_views_add(steps@, more@);
        }
        steps.append(&mut more);
        i += 1;
    }
    proof {
        assert(images@.take(images.len() as int) =~= images@);
    }
    steps
}

fn steps_for_machine(task: &MachineTask, name: &str) -> (steps: Vec<Step>)
    requires
        executable_in(*task, name@),
    ensures
        views(steps@) == steps_of_machine(*task, name@),
        all_sound(views(steps@)),
{
    match task {
        MachineTask::Show(_, _) => nothing(),
        MachineTask::Stop(pick) => if pick.takes(name) {
            let before = match pick {
                Pick::All => join3("Error stopping machine ", name, ": "),
                Pick::Pattern(_) => join3("Error starting machine ", name, ": "),
            };
            one(Step::report(stop_machine(name), Some(join("Stopped machine: ", name)), before, ""))
        } else {
            nothing()
        },
        MachineTask::Kill(pick, signal) => if pick.takes(name) {
            one(
                Step::report(
                    kill_machine(name, signal.as_str()),
                    None,
                    join3("Error killing machine ", name, ": "),
                    "",
                ),
            )
        } else {
            nothing()
        },
        MachineTask::Exec { pick, user, command } => if pick.takes(name) {
            let user = match user {
                Some(user) => user.clone(),
                None => DEFAULT_USER.to_string(),
            };
            let command = command.as_str();
            let run = Step::report(
                exec_machine(name, user.as_str(), command),
                Some(join4("Executed command ", command, " on machine: ", name)),
                join3("Error executing command on machine ", name, ": "),
                "",
            );
            match pick {
                Pick::All => one(run),
                Pick::Pattern(_) => two(
                    Step::Say(Notice::success(join("Executing command on machine: ", name))),
                    run,
                ),
            }
        } else {
            nothing()
        },
        MachineTask::Terminate(pick) => if pick.takes(name) {
            one(
                Step::report(
                    terminate_machine(name),
                    Some(join("Terminated machine: ", name)),
                    join3("Error terminating machine ", name, ": "),
                    "",
                ),
            )
        } else {
            nothing()
        },
        MachineTask::Reboot(pick) => if pick.takes(name) {
            one(
                Step::report(
                    reboot_machine(name),
                    Some(join("Rebooted machine: ", name)),
                    join3("Error rebooting machine ", name, ": "),
                    "",
                ),
            )
        } else {
            nothing()
        },
        MachineTask::Network(pick) => if pick.takes(name) {
            one(Step::Inspect { machine: name.to_string(), fatal: false })
        } else {
            nothing()
        },
    }
}

/// The machines that a listing shows.
pub fn filter_machines(pattern: &Option<String>, machines: &Vec<Machine>) -> (shown: Vec<Machine>)
    ensures
        shown@ == shown_machines(*pattern, machines@),
{
    let mut shown: Vec<Machine> = Vec::new();
    let mut i: usize = 0;
    while i < machines.len()
        invariant
            0 <= i <= machines.len(),
            shown@ == shown_machines(*pattern, machines@.take(i as int)),
        decreases machines.len() - i,
    {
        let machine = &machines[i];
        proof {
            assert(machines@.take(i + 1) =~= machines@.take(i as int).push(*machine));
            if pattern is Some {
                machines@.take(i as int).lemma_filter_push(*machine, named_like(pattern->0));
            }
        }
        let keep = match pattern {
            Some(pattern) => name_matches(machine.name().as_str(), pattern.as_str()),
            None => true,
        };
        if keep {
            shown.push(machine.duplicate());
        }
        i += 1;
    }
    proof {
        assert(machines@.take(machines.len() as int) =~= machines@);
    }
    shown
}

/// The steps that a listing of machines adds to a session.
pub fn expand_machines(task: &MachineTask, machines: &Vec<Machine>) -> (steps: Vec<Step>)
    requires
        executable(*task, machines@),
    ensures
        views(steps@) == machine_steps(*task, machines@),
        all_sound(views(steps@)),
{
    if let MachineTask::Show(pattern, width) = task {
        let shown = filter_machines(pattern, machines);
        return one(Step::ShowMachines { machines: shown, width: *width });
    }
    let mut steps: Vec<Step> = nothing();
    let mut i: usize = 0;
    while i < machines.len()
        invariant
            0 <= i <= machines.len(),
            !(task is Show),
            executable(*task, machines@),
            views(steps@) == steps_of_machines(*task, machines@.take(i as int)),
            all_sound(views(steps@)),
        decreases machines.len() - i,
    {
        let name = machines[i].name();
        let mut more = steps_for_machine(task, name.as_str());
        proof {
            let next = machines@.take(i + 1);
            assert(next.drop_last() =~= machines@.take(i as int));
            lemma_views_add(steps@, more@);
        }
        steps.append(&mut more);
        i += 1;
    }
    proof {
        assert(machines@.take(machines.len() as int) =~= machines@);
    }
    steps
}

} // verus!
