use crate::args::arguments::CompletionShell;
use crate::data_structs::InterfaceConfig;
use crate::data_format::tables::all_showable;
use crate::images::structs::{Image, Listed, Moments, Offsets};
use crate::machines::structs::Machine;
use crate::process::{Invocation, InvocationView};
use crate::text::{matches_pattern, name_matches, words};
use crate::utilities::{Notice, NoticeView};
use vstd::prelude::*;

verus! {

/// Which records a command is about.
pub enum Selection {
    /// The one record of this name.
    Named(String),
    /// Every record whose name matches the pattern.
    Pattern(String),
    /// Every record.
    All,
    /// The command does not say.
    Missing,
}

/// What the command line selects: a name goes before a pattern, and a
/// pattern before `--all`.
pub open spec fn selection(name: Option<String>, pattern: Option<String>, all: bool) -> Selection {
    match name {
        Some(name) => Selection::Named(name),
        None => match pattern {
            Some(pattern) => Selection::Pattern(pattern),
            None => if all {
                Selection::All
            } else {
                Selection::Missing
            },
        },
    }
}

/// Reads the selection off the command line.
pub fn select(name: Option<String>, pattern: Option<String>, all: bool) -> (chosen: Selection)
    ensures
        chosen == selection(name, pattern, all),
{
    match name {
        Some(name) => Selection::Named(name),
        None => match pattern {
            Some(pattern) => Selection::Pattern(pattern),
            None => if all {
                Selection::All
            } else {
                Selection::Missing
            },
        },
    }
}

/// Which records of a listing a command works on.
pub enum Pick {
    All,
    Pattern(String),
}

impl Pick {
    /// Whether a record of this name is picked.
    pub open spec fn picks(self, name: Seq<char>) -> bool {
        match self {
            Pick::All => true,
            Pick::Pattern(pattern) => matches_pattern(name, pattern@),
        }
    }

    /// Tests [`Pick::picks`].
    pub fn takes(&self, name: &str) -> (hit: bool)
        ensures
            hit == self.picks(name@),
    {
        match self {
            Pick::All => true,
            Pick::Pattern(pattern) => name_matches(name, pattern.as_str()),
        }
    }
}

/// Which images a listing shows.
pub enum ListFilter {
    /// The read-only ones.
    ReadOnly,
    /// Those of this type.
    Type(String),
    /// Those whose name matches the pattern.
    Pattern(String),
    /// All of them.
    Everything,
}

impl ListFilter {
    /// Whether the listing shows `image`.
    pub open spec fn shows(self, image: Image) -> bool {
        match self {
            ListFilter::ReadOnly => image.ro,
            ListFilter::Type(kind) => image.type_field@ == kind@,
            ListFilter::Pattern(pattern) => matches_pattern(image.name@, pattern@),
            ListFilter::Everything => true,
        }
    }

    /// Tests [`ListFilter::shows`].
    pub fn keeps(&self, image: &Image) -> (hit: bool)
        ensures
            hit == self.shows(*image),
    {
        match self {
            ListFilter::ReadOnly => image.ro,
            ListFilter::Type(kind) => image.type_field == *kind,
            ListFilter::Pattern(pattern) => name_matches(image.name.as_str(), pattern.as_str()),
            ListFilter::Everything => true,
        }
    }
}

/// Whether each of the images that a filter shows has times that can be
/// shown.
pub open spec fn showable(filter: ListFilter, images: Seq<Image>) -> bool {
    forall|i: int|
        0 <= i < images.len() && filter.shows(images[i]) ==> (#[trigger] images[i]).displayable()
}

/// What is done with the images once they are listed.
pub enum ImageTask {
    Show(ListFilter, Option<u16>),
    Start(Pick),
    Remove(Pick),
}

/// Whether the task can be carried out on the machine of this name: a
/// command that is to be executed in it has to hold a word.
pub open spec fn executable_in(task: MachineTask, name: Seq<char>) -> bool {
    task matches MachineTask::Exec { pick, command, .. } ==> (pick.picks(name) ==> words(
        command@,
    ).len() > 0)
}

/// Whether the task can be carried out on each of the machines.
pub open spec fn executable(task: MachineTask, machines: Seq<Machine>) -> bool {
    forall|i: int|
        0 <= i < machines.len() ==> executable_in(task, (#[trigger] machines[i]).label())
}

/// What is done with the machines once they are listed.
pub enum MachineTask {
    Show(Option<String>, Option<u16>),
    Stop(Pick),
    Kill(Pick, String),
    Exec { pick: Pick, user: Option<String>, command: String },
    Terminate(Pick),
    Reboot(Pick),
    Network(Pick),
}

/// What is done when an invocation fails.
pub enum Recovery {
    /// The failure ends the session.
    Abort,
    /// The failure is reported, its message between `before` and `after`,
    /// and the session goes on.
    Report { before: String, after: String },
}

/// The view of a [`Recovery`].
pub enum RecoveryView {
    Abort,
    Report { before: Seq<char>, after: Seq<char> },
}

impl View for Recovery {
    type V = RecoveryView;

    open spec fn view(&self) -> RecoveryView {
        match self {
            Recovery::Abort => RecoveryView::Abort,
            Recovery::Report { before, after } => RecoveryView::Report {
                before: before@,
                after: after@,
            },
        }
    }
}

/// One step of a session.
pub enum Step {
    /// Tell the user something.
    Say(Notice),
    /// Run the control utility. On success `success` is said, if there is
    /// one; on failure `recovery` decides.
    Attempt { call: Invocation, success: Option<Notice>, recovery: Recovery },
    /// List the images, and go on with the steps of the task.
    Images(ImageTask),
    /// List the machines, and go on with the steps of the task.
    Machines(MachineTask),
    /// Ask a machine for its interfaces, and show them. A failure ends the
    /// session where it is `fatal`, and is reported otherwise.
    Inspect { machine: String, fatal: bool },
    /// Learn how far the time zone of the machine is ahead of UTC at the
    /// times of these images, and show the images then.
    Zones { images: Vec<Image>, width: Option<u16> },
    /// Show a table of images.
    ShowImages { images: Vec<Listed>, width: Option<u16> },
    /// Show a table of machines.
    ShowMachines { machines: Vec<Machine>, width: Option<u16> },
    /// Show the table of the addresses of a machine.
    ShowNetwork { machine: String, interfaces: Vec<InterfaceConfig> },
    /// Print what the server holds at a URL.
    Fetch(String),
    /// Write the completion script for a shell.
    Complete(CompletionShell),
}

/// The view of a [`Step`].
pub enum StepView {
    Say(NoticeView),
    Attempt { call: InvocationView, success: Option<NoticeView>, recovery: RecoveryView },
    Images(ImageTask),
    Machines(MachineTask),
    Inspect { machine: Seq<char>, fatal: bool },
    Zones { images: Seq<Image>, width: Option<u16> },
    ShowImages { images: Seq<Listed>, width: Option<u16> },
    ShowMachines { machines: Seq<Machine>, width: Option<u16> },
    ShowNetwork { machine: Seq<char>, interfaces: Seq<InterfaceConfig> },
    Fetch(Seq<char>),
    Complete(CompletionShell),
}

impl View for Step {
    type V = StepView;

    open spec fn view(&self) -> StepView {
        match self {
            Step::Say(notice) => StepView::Say(notice@),
            Step::Attempt { call, success, recovery } => StepView::Attempt {
                call: call@,
                success: match success {
                    Some(notice) => Some(notice@),
                    None => None,
                },
                recovery: recovery@,
            },
            Step::Images(task) => StepView::Images(*task),
            Step::Machines(task) => StepView::Machines(*task),
            Step::Inspect { machine, fatal } => StepView::Inspect {
                machine: machine@,
                fatal: *fatal,
            },
            Step::Zones { images, width } => StepView::Zones { images: images@, width: *width },
            Step::ShowImages { images, width } => StepView::ShowImages {
                images: images@,
                width: *width,
            },
            Step::ShowMachines { machines, width } => StepView::ShowMachines {
                machines: machines@,
                width: *width,
            },
            Step::ShowNetwork { machine, interfaces } => StepView::ShowNetwork {
                machine: machine@,
                interfaces: interfaces@,
            },
            Step::Fetch(url) => StepView::Fetch(url@),
            Step::Complete(shell) => StepView::Complete(*shell),
        }
    }
}

/// Whether each of the images has times that can be shown.
pub open spec fn all_displayable(images: Seq<Image>) -> bool {
    forall|i: int| 0 <= i < images.len() ==> (#[trigger] images[i]).displayable()
}

/// The test that tells the moments of an image.
pub open spec fn moments_of_image() -> spec_fn(Image) -> Moments {
    |image: Image| image.moments()
}

/// The moments at which the time zone has to be known to show the images:
/// for each image, in their order, its times that are not zero.
pub open spec fn moments_of(images: Seq<Image>) -> Seq<Moments> {
    images.map_values(moments_of_image())
}

/// Whether `offsets` answer for the images: there is one entry for each
/// image, and it tells the time zone at each time of the image that is not
/// zero.
pub open spec fn answered(images: Seq<Image>, offsets: Seq<Offsets>) -> bool {
    &&& offsets.len() == images.len()
    &&& forall|i: int| 0 <= i < images.len() ==> (#[trigger] images[i]).answered_by(offsets[i])
}

/// The images with the offsets to show their times in.
pub open spec fn listed_with(images: Seq<Image>, offsets: Seq<Offsets>) -> Seq<Listed> {
    Seq::new(images.len(), |i: int| images[i].listed(offsets[i]))
}

impl StepView {
    /// Whether the step can be carried out: each image to show has times
    /// that can be shown, in a time zone that can be.
    pub open spec fn sound(self) -> bool {
        match self {
            StepView::Zones { images, .. } => all_displayable(images),
            StepView::ShowImages { images, .. } => all_showable(images),
            _ => true,
        }
    }
}

/// The views of a row of steps.
pub open spec fn views(steps: Seq<Step>) -> Seq<StepView> {
    steps.map_values(|step: Step| step@)
}

/// Whether each step of a script can be carried out.
pub open spec fn all_sound(script: Seq<StepView>) -> bool {
    forall|i: int| 0 <= i < script.len() ==> (#[trigger] script[i]).sound()
}

/// The step that tells the user a warning.
pub open spec fn warn(text: Seq<char>) -> StepView {
    StepView::Say(crate::utilities::warning(text))
}

/// The step that runs `call` for a record that the command names: nothing
/// is said of its success, and its failure ends the session.
pub open spec fn attempt(call: InvocationView) -> StepView {
    StepView::Attempt { call, success: None, recovery: RecoveryView::Abort }
}

/// The step that runs `call` and reports on it: `done` is said after a
/// success, if there is one, and a failure is said as an error, its message
/// between `before` and `after`. Either way the session goes on.
pub open spec fn report(
    call: InvocationView,
    done: Option<Seq<char>>,
    before: Seq<char>,
    after: Seq<char>,
) -> StepView {
    StepView::Attempt {
        call,
        success: match done {
            Some(text) => Some(crate::utilities::success(text)),
            None => None,
        },
        recovery: RecoveryView::Report { before, after },
    }
}

impl Step {
    /// The step that tells the user a warning.
    pub fn warn(text: String) -> (step: Step)
        ensures
            step@ == warn(text@),
    {
        Step::Say(Notice::warning(text))
    }

    /// The step that runs `call` for a record that the command names.
    pub fn attempt(call: Invocation) -> (step: Step)
        ensures
            step@ == attempt(call@),
    {
        Step::Attempt { call, success: None, recovery: Recovery::Abort }
    }

    /// The step that runs `call` and reports on it.
    pub fn report(call: Invocation, done: Option<String>, before: String, after: &str) -> (step:
        Step)
        ensures
            step@ == report(call@, done.deep_view(), before@, after@),
    {
        let success = match done {
            Some(text) => Some(Notice::success(text)),
            None => None,
        };
        Step::Attempt {
            call,
            success,
            recovery: Recovery::Report { before, after: after.to_string() },
        }
    }
}

/// A script without steps.
pub fn nothing() -> (script: Vec<Step>)
    ensures
        views(script@) == Seq::<StepView>::empty(),
{
    let script: Vec<Step> = Vec::new();
    script
}

/// A script of one step.
pub fn one(step: Step) -> (script: Vec<Step>)
    ensures
        views(script@) == seq![step@],
{
    let mut script: Vec<Step> = Vec::new();
    script.push(step);
    script
}

/// A script of two steps.
pub fn two(first: Step, second: Step) -> (script: Vec<Step>)
    ensures
        views(script@) == seq![first@, second@],
{
    let mut script: Vec<Step> = Vec::new();
    script.push(first);
    script.push(second);
    script
}

} // verus!
