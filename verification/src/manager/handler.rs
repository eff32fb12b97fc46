//! Sessions: a script worked off one action at a time.
use crate::args::arguments::{Arguments, Commands, CompletionShell};
use crate::args::images_args::ImagesArgs;
use crate::args::machines_args::{MachineCommands, MachinesArgs};
use crate::data_format::tables::{
    all_showable, create_images_table, create_machines_table, create_network_configs_table,
    is_images_table, is_machines_table, is_network_table,
};
use crate::data_structs::InterfaceConfig;
use crate::images::images_ops::list_images_call;
use crate::images::list_local_images;
use crate::images::structs::{Image, Listed, Moments, Offsets};
use crate::machines::machines_ops::{list_machines_call, network_call};
use crate::machines::structs::Machine;
use crate::machines::{get_network_config, list_active_machines};
use crate::manager::expand::{
    expand_images, expand_machines, image_steps, lemma_views_add, machine_steps,
};
use crate::manager::scripts::{
    image_script, machine_script, plan_images, plan_machines, runnable,
};
use crate::manager::steps::{
    all_displayable, all_sound, answered, executable, listed_with, moments_of, nothing, one,
    showable, views, ImageTask, ListFilter, MachineTask, Recovery, RecoveryView, Step, StepView,
};
use crate::process::{ErrorKind, Invocation, OpError, OpErrorView};
use crate::text::{has_word, words};
use crate::utilities::{error, join, join3, Notice, NoticeView};
use comfy_table::Table;
use vstd::prelude::*;

verus! {

broadcast use vstd::seq::group_seq_axioms;

/// What came of an action.
pub enum Event {
    /// A notice, a table, a remote listing or a completion script was put
    /// out.
    Done,
    /// The control utility ran; whether its exit status says success.
    Exited(bool),
    /// The images that the control utility listed.
    Images(Vec<Image>),
    /// The machines that the control utility listed.
    Machines(Vec<Machine>),
    /// The interfaces that a machine reported.
    Interfaces(Vec<InterfaceConfig>),
    /// How far the time zone of the machine is ahead of UTC at the moments
    /// that were asked about: one entry for each entry of the question.
    Offsets(Vec<Offsets>),
    /// The action could not be done.
    Failed(OpError),
}

/// What a session asks to have done.
pub enum Action {
    /// Print a notice in the colour of its tone.
    Notify(Notice),
    /// Print a table.
    Show(Table),
    /// Run the control utility, and report its exit status.
    Run(Invocation),
    /// Run the control utility, and report the images it lists.
    ListImages(Invocation),
    /// Run the control utility, and report the machines it lists.
    ListMachines(Invocation),
    /// Run the control utility, and report the interfaces it lists.
    ListInterfaces(Invocation),
    /// Look up how many seconds the time zone of the machine is ahead of
    /// UTC at each of the moments, and report the offsets entry by entry.
    Offsets(Vec<Moments>),
    /// Get what the server holds at a URL, and print it as it is.
    Fetch(String),
    /// Write the completion script for a shell.
    Complete(CompletionShell),
    /// Nothing is left to do: leave with this result.
    Finish(Result<(), OpError>),
}

/// What an event means for the step that waited for it.
pub enum Effect {
    /// The session goes on, with these steps before what is left.
    Go(Seq<StepView>),
    /// The session ends with this error.
    Halt(OpErrorView),
}

/// The state of a session.
pub enum SessionView {
    /// The action of `step` was handed out; `queue` comes after it.
    Waiting { step: StepView, queue: Seq<StepView> },
    /// The session ended with this result.
    Finished(Result<(), OpErrorView>),
}

enum State {
    Waiting { step: Step, queue: Vec<Step> },
    Finished(Result<(), OpError>),
}

/// A command in the course of being carried out.
pub struct Session {
    state: State,
}

/// The view of a result.
pub open spec fn outcome(result: Result<(), OpError>) -> Result<(), OpErrorView> {
    match result {
        Ok(_) => Ok(()),
        Err(e) => Err(e@),
    }
}

impl View for Session {
    type V = SessionView;

    closed spec fn view(&self) -> SessionView {
        match self.state {
            State::Waiting { step, queue } => SessionView::Waiting {
                step: step@,
                queue: views(queue@),
            },
            State::Finished(result) => SessionView::Finished(outcome(result)),
        }
    }
}

/// The error of a session that is told of something it did not ask for.
pub open spec fn unexpected() -> OpErrorView {
    OpErrorView { kind: ErrorKind::Protocol, message: "unexpected event"@ }
}

/// What a failed invocation leads to: the end of the session, or a notice
/// of the error and the next step.
pub open spec fn recover(recovery: RecoveryView, e: OpErrorView) -> Effect {
    match recovery {
        RecoveryView::Abort => Effect::Halt(e),
        RecoveryView::Report { before, after } => Effect::Go(
            seq![StepView::Say(error(before + e.message + after))],
        ),
    }
}

/// What is said of a machine that does not tell its interfaces.
pub open spec fn no_network_info(machine: Seq<char>) -> NoticeView {
    error("Error getting network info for machine: "@ + machine)
}

/// What `event` means for `step`.
///
/// Output is acknowledged by `Done`. An invocation that ran is judged by
/// its exit status; one that failed, or could not be run at all, is handled
/// as the step says. A listing brings the steps for its records, and its
/// failure ends the session. Offsets that answer for the images bring the
/// table of the images. An event that does not answer the step ends the
/// session too.
pub open spec fn effect(step: StepView, event: Event) -> Effect {
    match step {
        StepView::Say(_) | StepView::ShowImages { .. } | StepView::ShowMachines { .. }
        | StepView::ShowNetwork { .. } | StepView::Complete(_) => match event {
            Event::Done => Effect::Go(Seq::empty()),
            _ => Effect::Halt(unexpected()),
        },
        StepView::Fetch(_) => match event {
            Event::Done => Effect::Go(Seq::empty()),
            Event::Failed(e) => Effect::Halt(e@),
            _ => Effect::Halt(unexpected()),
        },
        StepView::Zones { images, width } => match event {
            Event::Offsets(offsets) => if answered(images, offsets@) {
                Effect::Go(
                    seq![StepView::ShowImages { images: listed_with(images, offsets@), width }],
                )
            } else {
                Effect::Halt(unexpected())
            },
            Event::Failed(e) => Effect::Halt(e@),
            _ => Effect::Halt(unexpected()),
        },
        StepView::Attempt { call, success, recovery } => match event {
            Event::Exited(ok) => match Invocation::verdict(call, ok) {
                Ok(_) => Effect::Go(
                    match success {
                        Some(notice) => seq![StepView::Say(notice)],
                        None => Seq::empty(),
                    },
                ),
                Err(e) => recover(recovery, e),
            },
            Event::Failed(e) => recover(recovery, e@),
            _ => Effect::Halt(unexpected()),
        },
        StepView::Images(task) => match event {
            Event::Images(images) => Effect::Go(image_steps(task, images@)),
            Event::Failed(e) => Effect::Halt(e@),
            _ => Effect::Halt(unexpected()),
        },
        StepView::Machines(task) => match event {
            Event::Machines(machines) => Effect::Go(machine_steps(task, machines@)),
            Event::Failed(e) => Effect::Halt(e@),
            _ => Effect::Halt(unexpected()),
        },
        StepView::Inspect { machine, fatal } => match event {
            Event::Interfaces(interfaces) => Effect::Go(
                seq![StepView::ShowNetwork { machine, interfaces: interfaces@ }],
            ),
            Event::Failed(e) => if fatal {
                Effect::Halt(e@)
            } else {
                Effect::Go(seq![StepView::Say(no_network_info(machine))])
            },
            _ => Effect::Halt(unexpected()),
        },
    }
}

/// The state of a session that has `todo` before it: it waits on the first
/// step, or has ended well where no step is left.
pub open spec fn go_on(todo: Seq<StepView>) -> SessionView {
    if todo.len() == 0 {
        SessionView::Finished(Ok(()))
    } else {
        SessionView::Waiting { step: todo[0], queue: todo.drop_first() }
    }
}

/// The state that `event` brings a session to. A session that has ended
/// stays as it is.
pub open spec fn next(session: SessionView, event: Event) -> SessionView {
    match session {
        SessionView::Waiting { step, queue } => match effect(step, event) {
            Effect::Go(more) => go_on(more + queue),
            Effect::Halt(e) => SessionView::Finished(Err(e)),
        },
        SessionView::Finished(_) => session,
    }
}

/// Whether `action` is what `step` asks for.
pub open spec fn carries_out(action: Action, step: StepView) -> bool {
    match step {
        StepView::Say(notice) => action matches Action::Notify(said) && said@ == notice,
        StepView::Attempt { call, .. } => action matches Action::Run(run) && run@ == call,
        StepView::Images(_) => action matches Action::ListImages(run) && run@
            == list_images_call(),
        StepView::Machines(_) => action matches Action::ListMachines(run) && run@
            == list_machines_call(),
        StepView::Inspect { machine, .. } => action matches Action::ListInterfaces(run) && run@
            == network_call(machine),
        StepView::Zones { images, .. } => action matches Action::Offsets(asked) && asked@
            == moments_of(images),
        StepView::ShowImages { images, width } => action matches Action::Show(table)
            && is_images_table(table, images, width),
        StepView::ShowMachines { machines, width } => action matches Action::Show(table)
            && is_machines_table(table, machines, width),
        StepView::ShowNetwork { machine, interfaces } => action matches Action::Show(table)
            && is_network_table(table, machine, interfaces),
        StepView::Fetch(url) => action matches Action::Fetch(asked) && asked@ == url,
        StepView::Complete(shell) => action == Action::Complete(shell),
    }
}

/// Whether `action` is what a session in this state asks for: the action
/// of the step it waits on, or to leave with its result.
pub open spec fn announces(action: Action, session: SessionView) -> bool {
    match session {
        SessionView::Waiting { step, .. } => carries_out(action, step),
        SessionView::Finished(result) => action matches Action::Finish(left) && outcome(left)
            == result,
    }
}

/// Whether a session in this state can take `event`: the images that a
/// listing is to show need times that can be shown, and a command that is
/// to be executed in a machine of a listing has to hold a word.
pub open spec fn admits(session: SessionView, event: Event) -> bool {
    session matches SessionView::Waiting { step, .. } ==> match (step, event) {
        (StepView::Images(ImageTask::Show(filter, _)), Event::Images(images)) => showable(
            filter,
            images@,
        ),
        (StepView::Machines(task), Event::Machines(machines)) => executable(task, machines@),
        _ => true,
    }
}

/// The script of a command line: the completion script where one is asked
/// for, and nothing else then; else the script of the command; nothing
/// without either.
pub open spec fn script(arguments: Arguments) -> Seq<StepView> {
    match arguments.autocomplete {
        Some(shell) => seq![StepView::Complete(shell)],
        None => match arguments.cmd {
            Some(Commands::Images(images)) => image_script(images.commands, arguments.width),
            Some(Commands::Machines(machines)) => machine_script(
                machines.commands,
                arguments.width,
            ),
            None => Seq::empty(),
        },
    }
}

impl Arguments {
    /// Whether the command line can be carried out: unless a completion
    /// script is asked for, a command to execute in a machine has to hold a
    /// word.
    pub open spec fn runnable(self) -> bool {
        self.autocomplete is None ==> (self.cmd matches Some(Commands::Machines(machines))
            ==> runnable(machines.commands))
    }

    /// Tests [`Arguments::runnable`].
    pub fn is_runnable(&self) -> (ok: bool)
        ensures
            ok == self.runnable(),
    {
        if self.autocomplete.is_some() {
            return true;
        }
        match &self.cmd {
            Some(Commands::Machines(machines)) => machines.is_runnable(),
            _ => true,
        }
    }
}

impl MachinesArgs {
    /// Tests whether the command can be carried out: a command to execute
    /// in a machine has to hold a word.
    pub fn is_runnable(&self) -> (ok: bool)
        ensures
            ok == runnable(self.commands),
    {
        match &self.commands {
            MachineCommands::Exec(exec) => exec.machine.is_none() || has_word(
                exec.command.as_str(),
            ),
            _ => true,
        }
    }
}

fn copy_notice(notice: &Notice) -> (copy: Notice)
    ensures
        copy == *notice,
{
    Notice { tone: notice.tone, text: notice.text.clone() }
}

fn copy_texts(texts: &Vec<String>) -> (copy: Vec<String>)
    ensures
        copy@ == texts@,
{
    let mut copy: Vec<String> = Vec::new();
    let mut i: usize = 0;
    while i < texts.len()
        invariant
            0 <= i <= texts.len(),
            copy@ == texts@.take(i as int),
        decreases texts.len() - i,
    {
        copy.push(texts[i].clone());
        i += 1;
    }
    copy
}

fn copy_call(call: &Invocation) -> (copy: Invocation)
    ensures
        copy@ == call@,
{
    Invocation { args: copy_texts(&call.args), failure: call.failure.clone() }
}

fn copy_images(images: &Vec<Listed>) -> (copy: Vec<Listed>)
    ensures
        copy@ == images@,
{
    let mut copy: Vec<Listed> = Vec::new();
    let mut i: usize = 0;
    while i < images.len()
        invariant
            0 <= i <= images.len(),
            copy@ == images@.take(i as int),
        decreases images.len() - i,
    {
        copy.push(images[i].duplicate());
        i += 1;
    }
    copy
}

fn copy_machines(machines: &Vec<Machine>) -> (copy: Vec<Machine>)
    ensures
        copy@ == machines@,
{
    let mut copy: Vec<Machine> = Vec::new();
    let mut i: usize = 0;
    while i < machines.len()
        invariant
            0 <= i <= machines.len(),
            copy@ == machines@.take(i as int),
        decreases machines.len() - i,
    {
        copy.push(machines[i].duplicate());
        i += 1;
    }
    copy
}

fn copy_result(result: &Result<(), OpError>) -> (copy: Result<(), OpError>)
    ensures
        outcome(copy) == outcome(*result),
{
    match result {
        Ok(_) => Ok(()),
        Err(e) => Err(e.duplicate()),
    }
}

/// The action that `step` asks for.
fn perform(step: &Step) -> (action: Action)
    requires
        step@.sound(),
    ensures
        carries_out(action, step@),
{
    match step {
        Step::Say(notice) => Action::Notify(copy_notice(notice)),
        Step::Attempt { call, .. } => Action::Run(copy_call(call)),
        Step::Images(_) => Action::ListImages(list_local_images()),
        Step::Machines(_) => Action::ListMachines(list_active_machines()),
        Step::Inspect { machine, .. } => Action::ListInterfaces(
            get_network_config(machine.as_str()),
        ),
        Step::Zones { images, .. } => Action::Offsets(moments_to_look_up(images)),
        Step::ShowImages { images, width } => {
            let copy = copy_images(images);
            Action::Show(create_images_table(copy, *width))
        },
        Step::ShowMachines { machines, width } => Action::Show(
            create_machines_table(copy_machines(machines), *width),
        ),
        Step::ShowNetwork { machine, interfaces } => Action::Show(
            create_network_configs_table(machine.as_str(), interfaces),
        ),
        Step::Fetch(url) => Action::Fetch(url.clone()),
        Step::Complete(shell) => Action::Complete(*shell),
    }
}

/// The moments at which the time zone has to be known to show the images.
fn moments_to_look_up(images: &Vec<Image>) -> (asked: Vec<Moments>)
    ensures
        asked@ == moments_of(images@),
{
    let mut asked: Vec<Moments> = Vec::new();
    let mut i: usize = 0;
    while i < images.len()
        invariant
            0 <= i <= images.len(),
            asked@ == moments_of(images@.take(i as int)),
        decreases images.len() - i,
    {
        asked.push(images[i].to_look_up());
        proof {
            assert(images@.take(i + 1) =~= images@.take(i as int).push(images@[i as int]));
        }
        i += 1;
    }
    proof {
        assert(images@.take(images.len() as int) =~= images@);
    }
    asked
}

/// Tests whether `offsets` answer for the images.
fn are_answered(images: &Vec<Image>, offsets: &Vec<Offsets>) -> (ok: bool)
    ensures
        ok == answered(images@, offsets@),
{
    if offsets.len() != images.len() {
        return false;
    }
    let mut i: usize = 0;
    while i < images.len()
        invariant
            0 <= i <= images.len(),
            offsets.len() == images.len(),
            forall|k: int| 0 <= k < i ==> (#[trigger] images[k]).answered_by(offsets[k]),
        decreases images.len() - i,
    {
        if !images[i].is_answered_by(&offsets[i]) {
            return false;
        }
        i += 1;
    }
    true
}

/// The images with the offsets to show their times in.
fn list_with(images: Vec<Image>, offsets: &Vec<Offsets>) -> (shown: Vec<Listed>)
    requires
        all_displayable(images@),
        answered(images@, offsets@),
    ensures
        shown@ == listed_with(images@, offsets@),
        all_showable(shown@),
{
    let mut shown: Vec<Listed> = Vec::new();
    let mut i: usize = 0;
    while i < images.len()
        invariant
            0 <= i <= images.len(),
            all_displayable(images@),
            answered(images@, offsets@),
            shown@.len() == i,
            forall|k: int| 0 <= k < i ==> #[trigger] shown@[k] == images[k].listed(offsets[k]),
        decreases images.len() - i,
    {
        shown.push(images[i].duplicate().with_offsets(&offsets[i]));
        i += 1;
    }
    proof {
        assert(shown@ =~= listed_with(images@, offsets@));
        assert forall|k: int| 0 <= k < shown@.len() implies (#[trigger] shown@[k]).showable() by {
            assert(images@[k].displayable());
            assert(images@[k].answered_by(offsets@[k]));
        }
    }
    shown
}

fn out_of_turn() -> (e: OpError)
    ensures
        e@ == unexpected(),
{
    OpError::new(ErrorKind::Protocol, "unexpected event")
}

/// What a failed invocation leads to.
fn recover_from(recovery: Recovery, e: OpError) -> (r: Result<Vec<Step>, OpError>)
    ensures
        match r {
            Ok(more) => recover(recovery@, e@) == Effect::Go(views(more@)) && all_sound(
                views(more@),
            ),
            Err(x) => recover(recovery@, e@) == Effect::Halt(x@),
        },
{
    match recovery {
        Recovery::Abort => Err(e),
        Recovery::Report { before, after } => Ok(
            one(
                Step::Say(
                    Notice::error(join3(before.as_str(), e.message.as_str(), after.as_str())),
                ),
            ),
        ),
    }
}

/// What `event` means for `step`: the steps to go on with, or the error to
/// end with.
fn resolve(step: Step, event: Event) -> (r: Result<Vec<Step>, OpError>)
    requires
        step@.sound(),
        admits(SessionView::Waiting { step: step@, queue: Seq::empty() }, event),
    ensures
        match r {
            Ok(more) => effect(step@, event) == Effect::Go(views(more@)) && all_sound(views(more@)),
            Err(e) => effect(step@, event) == Effect::Halt(e@),
        },
{
    match step {
        Step::Say(_) | Step::ShowImages { .. } | Step::ShowMachines { .. } | Step::ShowNetwork {
            ..
        } | Step::Complete(_) => match event {
            Event::Done => Ok(nothing()),
            _ => Err(out_of_turn()),
        },
        Step::Fetch(_) => match event {
            Event::Done => Ok(nothing()),
            Event::Failed(e) => Err(e),
            _ => Err(out_of_turn()),
        },
        Step::Zones { images, width } => match event {
            Event::Offsets(offsets) => if are_answered(&images, &offsets) {
                Ok(one(Step::ShowImages { images: list_with(images, &offsets), width }))
            } else {
                Err(out_of_turn())
            },
            Event::Failed(e) => Err(e),
            _ => Err(out_of_turn()),
        },
        Step::Attempt { call, success, recovery } => match event {
            Event::Exited(ok) => match call.judge(ok) {
                Ok(_) => match success {
                    Some(notice) => Ok(one(Step::Say(notice))),
                    None => Ok(nothing()),
                },
                Err(e) => recover_from(recovery, e),
            },
            Event::Failed(e) => recover_from(recovery, e),
            _ => Err(out_of_turn()),
        },
        Step::Images(task) => match event {
            Event::Images(images) => Ok(expand_images(&task, &images)),
            Event::Failed(e) => Err(e),
            _ => Err(out_of_turn()),
        },
        Step::Machines(task) => match event {
            Event::Machines(machines) => Ok(expand_machines(&task, &machines)),
            Event::Failed(e) => Err(e),
            _ => Err(out_of_turn()),
        },
        Step::Inspect { machine, fatal } => match event {
            Event::Interfaces(interfaces) => Ok(one(Step::ShowNetwork { machine, interfaces })),
            Event::Failed(e) => if fatal {
                Err(e)
            } else {
                Ok(
                    one(
                        Step::Say(
                            Notice::error(
                                join("Error getting network info for machine: ", machine.as_str()),
                            ),
                        ),
                    ),
                )
            },
            _ => Err(out_of_turn()),
        },
    }
}

/// Tests whether each image that the filter shows has times that can be
/// shown.
fn can_show(filter: &ListFilter, images: &Vec<Image>) -> (ok: bool)
    ensures
        ok == showable(*filter, images@),
{
    let mut i: usize = 0;
    while i < images.len()
        invariant
            0 <= i <= images.len(),
            forall|k: int|
                0 <= k < i && filter.shows(images[k]) ==> (#[trigger] images[k]).displayable(),
        decreases images.len() - i,
    {
        if filter.keeps(&images[i]) && !images[i].is_displayable() {
            return false;
        }
        i += 1;
    }
    true
}

/// Tests whether the task can be carried out on each of the machines.
fn can_execute(task: &MachineTask, machines: &Vec<Machine>) -> (ok: bool)
    ensures
        ok == executable(*task, machines@),
{
    match task {
        MachineTask::Exec { pick, command, .. } => {
            if has_word(command.as_str()) {
                return true;
            }
            let mut i: usize = 0;
            while i < machines.len()
                invariant
                    0 <= i <= machines.len(),
                    *task matches MachineTask::Exec { pick: p, command: c, .. } && p == *pick && c
                        == *command,
                    words(command@).len() == 0,
                    forall|k: int| 0 <= k < i ==> !pick.picks((#[trigger] machines[k]).label()),
                decreases machines.len() - i,
            {
                if pick.takes(machines[i].name().as_str()) {
                    return false;
                }
                i += 1;
            }
            true
        },
        _ => true,
    }
}

impl Session {
    #[verifier::type_invariant]
    spec fn sound(self) -> bool {
        match self.state {
            State::Waiting { step, queue } => step@.sound() && all_sound(views(queue@)),
            State::Finished(_) => true,
        }
    }

    /// The session that has ended with `result`, and the action that says
    /// so.
    fn finish(result: Result<(), OpError>) -> (r: (Session, Action))
        ensures
            r.0@ == SessionView::Finished(outcome(result)),
            announces(r.1, r.0@),
    {
        let action = Action::Finish(copy_result(&result));
        (Session { state: State::Finished(result) }, action)
    }

    /// The session that has `todo` before it, and its first action.
    fn start(todo: Vec<Step>) -> (r: (Session, Action))
        requires
            all_sound(views(todo@)),
        ensures
            r.0@ == go_on(views(todo@)),
            announces(r.1, r.0@),
    {
        let mut queue = todo;
        if queue.len() == 0 {
            return Session::finish(Ok(()));
        }
        let ghost all = views(queue@);
        let step = queue.remove(0);
        proof {
            assert(views(queue@) =~= all.drop_first());
            let rest = views(queue@);
            assert forall|i: int| 0 <= i < rest.len() implies (#[trigger] rest[i]).sound() by {}
        }
        let action = perform(&step);
        (Session { state: State::Waiting { step, queue } }, action)
    }

    /// Tests whether the session can take `event`.
    pub fn admits(&self, event: &Event) -> (ok: bool)
        ensures
            ok == admits(self@, *event),
    {
        match &self.state {
            State::Waiting { step: Step::Images(ImageTask::Show(filter, _)), .. } => match event {
                Event::Images(images) => can_show(filter, images),
                _ => true,
            },
            State::Waiting { step: Step::Machines(task), .. } => match event {
                Event::Machines(machines) => can_execute(task, machines),
                _ => true,
            },
            _ => true,
        }
    }

    /// Takes the event that reports on the last action, and hands out the
    /// next action.
    pub fn step(self, event: Event) -> (r: (Session, Action))
        requires
            admits(self@, event),
        ensures
            r.0@ == next(self@, event),
            announces(r.1, r.0@),
    {
        proof {
            use_type_invariant(&self);
        }
        match self.state {
            State::Finished(result) => Session::finish(result),
            State::Waiting { step, queue } => match resolve(step, event) {
                Ok(more) => {
                    let mut todo = more;
                    let mut queue = queue;
                    proof {
                        lemma_views_add(todo@, queue@);
                    }
                    todo.append(&mut queue);
                    Session::start(todo)
                },
                Err(e) => Session::finish(Err(e)),
            },
        }
    }
}

/// Begins to carry out a command line: the session, and its first action.
pub fn handle_arguments(arguments: Arguments) -> (r: (Session, Action))
    requires
        arguments.runnable(),
    ensures
        r.0@ == go_on(script(arguments)),
        announces(r.1, r.0@),
{
    match arguments.autocomplete {
        Some(shell) => Session::start(one(Step::Complete(shell))),
        None => match arguments.cmd {
            Some(Commands::Images(images)) => manage_images(images, arguments.width),
            Some(Commands::Machines(machines)) => manage_machines(machines, arguments.width),
            None => Session::start(nothing()),
        },
    }
}

/// Begins to carry out a command on images: the session, and its first
/// action.
pub fn manage_images(imgs: ImagesArgs, width: Option<u16>) -> (r: (Session, Action))
    ensures
        r.0@ == go_on(image_script(imgs.commands, width)),
        announces(r.1, r.0@),
{
    Session::start(plan_images(imgs.commands, width))
}

/// Begins to carry out a command on machines: the session, and its first
/// action.
pub fn manage_machines(machines: MachinesArgs, width: Option<u16>) -> (r: (Session, Action))
    requires
        runnable(machines.commands),
    ensures
        r.0@ == go_on(machine_script(machines.commands, width)),
        announces(r.1, r.0@),
{
    Session::start(plan_machines(machines.commands, width))
}

} // verus!
