//! What is handed to the control utility, and what can go wrong with it.
use vstd::prelude::*;

verus! {

/// The control utility that every invocation runs.
pub const MACHINECTL: &'static str = "machinectl";

/// Where the command of `exec` is looked up inside a machine.
pub const BIN_PATH: &'static str = "/usr/bin/";

/// The category of a failure.
#[derive(Clone, Copy, Debug, PartialEq, Eq, Structural)]
pub enum ErrorKind {
    /// The control utility could not be started.
    Spawn,
    /// The control utility ran and reported failure.
    Exit,
    /// What the control utility printed is not the expected JSON.
    Decode,
    /// The remote server could not be reached.
    Network,
    /// The command line asks for something that cannot be done.
    Usage,
    /// A session was told of something it had not asked for.
    Protocol,
}

/// A failure: its category and a message for the user.
#[derive(Clone, Debug, PartialEq, Eq)]
pub struct OpError {
    pub kind: ErrorKind,
    pub message: String,
}

/// The view of an [`OpError`].
pub struct OpErrorView {
    pub kind: ErrorKind,
    pub message: Seq<char>,
}

impl View for OpError {
    type V = OpErrorView;

    open spec fn view(&self) -> OpErrorView {
        OpErrorView { kind: self.kind, message: self.message@ }
    }
}

impl OpError {
    /// An error of this kind with this message.
    pub fn new(kind: ErrorKind, message: &str) -> (e: OpError)
        ensures
            e@ == (OpErrorView { kind, message: message@ }),
    {
        OpError { kind, message: message.to_string() }
    }

    /// A copy of this error.
    pub fn duplicate(&self) -> (copy: OpError)
        ensures
            copy == *self,
    {
        OpError { kind: self.kind, message: self.message.clone() }
    }
}

/// One run of the control utility: its arguments, and the message of the
/// error that a failing exit status stands for. Where `failure` is `None`
/// the exit status is not looked at.
#[derive(Clone, Debug, PartialEq, Eq)]
pub struct Invocation {
    pub args: Vec<String>,
    pub failure: Option<String>,
}

/// The view of an [`Invocation`].
pub struct InvocationView {
    pub args: Seq<Seq<char>>,
    pub failure: Option<Seq<char>>,
}

impl View for Invocation {
    type V = InvocationView;

    open spec fn view(&self) -> InvocationView {
        InvocationView { args: self.args.deep_view(), failure: self.failure.deep_view() }
    }
}

/// An invocation that changes something: a failing exit status is an error
/// with the message `failure`.
pub open spec fn write_call(args: Seq<Seq<char>>, failure: Seq<char>) -> InvocationView {
    InvocationView { args, failure: Some(failure) }
}

/// An invocation whose output is read.
pub open spec fn read_call(args: Seq<Seq<char>>) -> InvocationView {
    InvocationView { args, failure: None }
}

impl Invocation {
    /// An invocation that changes something, from its arguments and the
    /// message for its failure.
    pub fn write(args: Vec<String>, failure: &str) -> (call: Invocation)
        ensures
            call@ == write_call(args.deep_view(), failure@),
    {
        Invocation { args, failure: Some(failure.to_string()) }
    }

    /// An invocation whose output is read.
    pub fn read(args: Vec<String>) -> (call: Invocation)
        ensures
            call@ == read_call(args.deep_view()),
    {
        Invocation { args, failure: None }
    }

    /// What the exit status `success` of this invocation means.
    pub open spec fn verdict(call: InvocationView, success: bool) -> Result<(), OpErrorView> {
        match call.failure {
            Some(message) if !success => Err(OpErrorView { kind: ErrorKind::Exit, message }),
            _ => Ok(()),
        }
    }

    /// Judges the exit status of the control utility.
    pub fn judge(&self, success: bool) -> (r: Result<(), OpError>)
        ensures
            match r {
                Ok(_) => Self::verdict(self@, success) is Ok,
                Err(e) => Self::verdict(self@, success) == Err::<(), OpErrorView>(e@),
            },
    {
        match &self.failure {
            Some(message) => {
                if success {
                    Ok(())
                } else {
                    Err(OpError { kind: ErrorKind::Exit, message: message.clone() })
                }
            },
            None => Ok(()),
        }
    }
}

} // verus!
