//! What holds of every command and every listing.
use crate::args::images_args::ImageCommands;
use crate::args::machines_args::MachineCommands;
use crate::data_format::tables::{
    frame, is_images_table, is_machines_table, is_network_table,
};
use crate::data_structs::InterfaceConfig;
use crate::images::structs::{Image, Listed};
use crate::machines::structs::Machine;
use crate::manager::expand::{
    image_steps, named_like, remove_step, shown_by, shown_images, shown_machines, skip_step,
    steps_of_image, steps_of_images,
};
use crate::manager::handler::{next, Event, SessionView};
use crate::manager::scripts::{image_script, machine_script};
use crate::manager::steps::{
    selection, ImageTask, ListFilter, Pick, RecoveryView, Selection, StepView,
};
use crate::process::{write_call, InvocationView, OpError};
use crate::utilities::{error, NoticeView};
use comfy_table::Table;
use vstd::prelude::*;

verus! {

broadcast use vstd::seq::group_seq_axioms;

/// Whether `at` tells where each element of `part` stands in `whole`, the
/// places rising from one element to the next.
pub open spec fn places_in_order<A>(part: Seq<A>, whole: Seq<A>, at: Seq<int>) -> bool {
    &&& at.len() == part.len()
    &&& forall|k: int|
        0 <= k < at.len() ==> 0 <= #[trigger] at[k] < whole.len() && part[k] == whole[at[k]]
    &&& forall|j: int, k: int| 0 <= j < k < at.len() ==> #[trigger] at[j] < #[trigger] at[k]
}

/// Whether `part` is made of elements of `whole`, in the order in which they
/// stand there.
pub open spec fn is_subsequence<A>(part: Seq<A>, whole: Seq<A>) -> bool {
    exists|at: Seq<int>| places_in_order(part, whole, at)
}

/// What a test keeps of a sequence is a subsequence of it.
pub proof fn lemma_filter_keeps_order<A>(whole: Seq<A>, keep: spec_fn(A) -> bool)
    ensures
        is_subsequence(whole.filter(keep), whole),
    decreases whole.len(),
{
    reveal(Seq::filter);
    if whole.len() == 0 {
        assert(places_in_order(whole.filter(keep), whole, Seq::<int>::empty()));
    } else {
        let rest = whole.drop_last();
        lemma_filter_keeps_order(rest, keep);
        let at = choose|at: Seq<int>| places_in_order(rest.filter(keep), rest, at);
        if keep(whole.last()) {
            let more = at.push(whole.len() - 1);
            assert(places_in_order(whole.filter(keep), whole, more));
        } else {
            assert(places_in_order(whole.filter(keep), whole, at));
        }
    }
}

/// Whatever the filter, the images that a listing shows are images of the
/// listing, in the order of the listing.
pub proof fn lemma_shown_images_keep_order(filter: ListFilter, images: Seq<Image>)
    ensures
        is_subsequence(shown_images(filter, images), images),
        forall|k: int|
            0 <= k < shown_images(filter, images).len() ==> filter.shows(
                #[trigger] shown_images(filter, images)[k],
            ),
{
    lemma_filter_keeps_order(images, shown_by(filter));
    assert forall|k: int| 0 <= k < shown_images(filter, images).len() implies filter.shows(
        #[trigger] shown_images(filter, images)[k],
    ) by {
        images.lemma_filter_pred(shown_by(filter), k);
    }
}

/// With or without a pattern, the machines that a listing shows are
/// machines of the listing, in the order of the listing.
pub proof fn lemma_shown_machines_keep_order(pattern: Option<String>, machines: Seq<Machine>)
    ensures
        is_subsequence(shown_machines(pattern, machines), machines),
{
    match pattern {
        Some(pattern) => lemma_filter_keeps_order(machines, named_like(pattern)),
        None => {
            let at = Seq::new(machines.len(), |k: int| k);
            assert(places_in_order(machines, machines, at));
        },
    }
}

/// Whether a step passes a read-only image over.
pub open spec fn is_skip(step: StepView) -> bool {
    exists|name: Seq<char>| step == skip_step(name)
}

/// The number of steps that pass a read-only image over.
pub open spec fn skips(steps: Seq<StepView>) -> nat
    decreases steps.len(),
{
    if steps.len() == 0 {
        0
    } else {
        skips(steps.drop_last()) + if is_skip(steps.last()) {
            1nat
        } else {
            0nat
        }
    }
}

/// The number of steps that run the control utility.
pub open spec fn attempts(steps: Seq<StepView>) -> nat
    decreases steps.len(),
{
    if steps.len() == 0 {
        0
    } else {
        attempts(steps.drop_last()) + if steps.last() is Attempt {
            1nat
        } else {
            0nat
        }
    }
}

/// Removing all images has one step for each image of the listing, in the
/// order of the listing: a read-only image is passed over with a warning,
/// and any other image is removed. So the images passed over and the
/// removals attempted are as many as the images listed, and no removal is
/// of a read-only image.
pub proof fn lemma_remove_all_skips_read_only(images: Seq<Image>)
    ensures
        ({
            let steps = image_steps(ImageTask::Remove(Pick::All), images);
            &&& steps.len() == images.len()
            &&& forall|i: int|
                0 <= i < images.len() ==> #[trigger] steps[i] == if images[i].ro {
                    skip_step(images[i].name@)
                } else {
                    remove_step(images[i].name@)
                }
            &&& skips(steps) + attempts(steps) == images.len()
        }),
    decreases images.len(),
{
    let task = ImageTask::Remove(Pick::All);
    let steps = steps_of_images(task, images);
    if images.len() > 0 {
        let rest = images.drop_last();
        lemma_remove_all_skips_read_only(rest);
        let before = steps_of_images(task, rest);
        let last = steps_of_image(task, images.last());
        assert(steps.drop_last() =~= before);
        assert forall|i: int| 0 <= i < images.len() implies #[trigger] steps[i] == if images[i].ro {
            skip_step(images[i].name@)
        } else {
            remove_step(images[i].name@)
        } by {
            if i < rest.len() {
            } else {
            }
        }
    }
}

/// Whatever a removal picks, a read-only image is passed over and not
/// removed.
pub proof fn lemma_read_only_is_never_removed(pick: Pick, image: Image)
    requires
        image.ro,
    ensures
        steps_of_image(ImageTask::Remove(pick), image) == seq![skip_step(image.name@)],
        skip_step(image.name@) is Say,
{
}

/// A name goes before a pattern and before `--all`: where a command names
/// a record, that record is selected, whatever else the command says.
pub proof fn lemma_name_goes_first(name: String, pattern: Option<String>, all: bool)
    ensures
        selection(Some(name), pattern, all) == Selection::Named(name),
{
}

/// A pattern goes before `--all`.
pub proof fn lemma_pattern_goes_before_all(pattern: String, all: bool)
    ensures
        selection(None, Some(pattern), all) == Selection::Pattern(pattern),
{
}

/// Whether a step runs the control utility on a record.
pub open spec fn is_run(step: StepView) -> bool {
    step is Attempt || step is Inspect
}

/// Whether a step lists records.
pub open spec fn is_listing(step: StepView) -> bool {
    step is Images || step is Machines
}

/// Whether a script works on exactly one record: it lists nothing, and one
/// of its steps runs the control utility.
pub open spec fn has_one_target(script: Seq<StepView>) -> bool {
    &&& forall|i: int| 0 <= i < script.len() ==> !is_listing(#[trigger] script[i])
    &&& exists|i: int|
        0 <= i < script.len() && is_run(#[trigger] script[i]) && forall|j: int|
            0 <= j < script.len() && j != i ==> !is_run(#[trigger] script[j])
}

/// The image that a command names, if it names one.
pub open spec fn named_image(command: ImageCommands) -> Option<String> {
    match command {
        ImageCommands::Start(start) => start.machine,
        ImageCommands::Remove(remove) => remove.image,
        _ => None,
    }
}

/// The machine that a command names, if it names one.
pub open spec fn named_machine(command: MachineCommands) -> Option<String> {
    match command {
        MachineCommands::Stop(stop) => stop.machine,
        MachineCommands::Kill(kill) => kill.machine,
        MachineCommands::Exec(exec) => exec.machine,
        MachineCommands::Shell(shell) => shell.machine,
        MachineCommands::Terminate(terminate) => terminate.machine,
        MachineCommands::Reboot(reboot) => reboot.machine,
        MachineCommands::Network(network) => network.machine,
        MachineCommands::List(_) => None,
    }
}

/// A command that names an image works on that image alone, whether or not
/// it also gives a pattern or `--all`.
pub proof fn lemma_named_image_is_the_only_target(command: ImageCommands, width: Option<u16>)
    requires
        named_image(command) is Some,
    ensures
        has_one_target(image_script(command, width)),
{
    let script = image_script(command, width);
    match command {
        ImageCommands::Start(start) => {
            assert(is_run(script[0]));
        },
        ImageCommands::Remove(remove) => {
        },
        _ => {},
    }
}

/// A command that names a machine works on that machine alone, whether or
/// not it also gives a pattern or `--all`.
pub proof fn lemma_named_machine_is_the_only_target(command: MachineCommands, width: Option<u16>)
    requires
        named_machine(command) is Some,
    ensures
        has_one_target(machine_script(command, width)),
{
    let script = machine_script(command, width);
    assert(is_run(script[0]));
}

/// A failure that is reported does not end the session: the error is said
/// next, and every step that was left is still left.
pub proof fn lemma_reported_failure_goes_on(
    call: InvocationView,
    success: Option<NoticeView>,
    before: Seq<char>,
    after: Seq<char>,
    queue: Seq<StepView>,
    e: OpError,
)
    ensures
        next(
            SessionView::Waiting {
                step: StepView::Attempt {
                    call,
                    success,
                    recovery: RecoveryView::Report { before, after },
                },
                queue,
            },
            Event::Failed(e),
        ) == (SessionView::Waiting {
            step: StepView::Say(error(before + e.message@ + after)),
            queue,
        }),
{
    let said = seq![StepView::Say(error(before + e.message@ + after))];
    assert((said + queue).drop_first() =~= queue);
}

/// A failing exit status that is reported does not end the session either:
/// the message of the invocation is said as an error, and every step that
/// was left is still left.
pub proof fn lemma_reported_exit_goes_on(
    args: Seq<Seq<char>>,
    failure: Seq<char>,
    success: Option<NoticeView>,
    before: Seq<char>,
    after: Seq<char>,
    queue: Seq<StepView>,
)
    ensures
        next(
            SessionView::Waiting {
                step: StepView::Attempt {
                    call: write_call(args, failure),
                    success,
                    recovery: RecoveryView::Report { before, after },
                },
                queue,
            },
            Event::Exited(false),
        ) == (SessionView::Waiting {
            step: StepView::Say(error(before + failure + after)),
            queue,
        }),
{
    let said = seq![StepView::Say(error(before + failure + after))];
    assert((said + queue).drop_first() =~= queue);
}

/// Two tables of the same machines and the same width hold the same and
/// look the same: the records and the width fix the header, the rows, the
/// width, the borders, the arrangement and the weight of the header.
pub proof fn lemma_machines_table_is_determined(
    one: Table,
    other: Table,
    machines: Seq<Machine>,
    width: Option<u16>,
)
    requires
        is_machines_table(one, machines, width),
        is_machines_table(other, machines, width),
    ensures
        frame(one) == frame(other),
{
}

/// Two tables of the addresses of the same machine hold the same and look
/// the same.
pub proof fn lemma_network_table_is_determined(
    one: Table,
    other: Table,
    machine: Seq<char>,
    interfaces: Seq<InterfaceConfig>,
)
    requires
        is_network_table(one, machine, interfaces),
        is_network_table(other, machine, interfaces),
    ensures
        frame(one) == frame(other),
{
}

/// Two tables of the same images, shown in the same time zones and kept
/// to the same width, hold the same and look the same: the records, the
/// offsets of the zone and the width fix the header, the rows, the width,
/// the borders, the arrangement and the weight of the header.
pub proof fn lemma_images_table_is_determined(
    one: Table,
    other: Table,
    images: Seq<Listed>,
    width: Option<u16>,
)
    requires
        is_images_table(one, images, width),
        is_images_table(other, images, width),
    ensures
        frame(one) == frame(other),
{
}

} // verus!
