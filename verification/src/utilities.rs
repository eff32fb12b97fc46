//! Notices for the user, and the placeholder for what a record lacks.
use vstd::prelude::*;

verus! {

/// How a notice is meant: it decides the colour it is printed in.
#[derive(Clone, Copy, Debug, PartialEq, Eq, Structural)]
pub enum Tone {
    Warning,
    Error,
    Success,
}

/// A line for the user.
#[derive(Clone, Debug, PartialEq, Eq)]
pub struct Notice {
    pub tone: Tone,
    pub text: String,
}

/// The view of a [`Notice`].
pub struct NoticeView {
    pub tone: Tone,
    pub text: Seq<char>,
}

impl View for Notice {
    type V = NoticeView;

    open spec fn view(&self) -> NoticeView {
        NoticeView { tone: self.tone, text: self.text@ }
    }
}

/// A warning.
pub open spec fn warning(text: Seq<char>) -> NoticeView {
    NoticeView { tone: Tone::Warning, text }
}

/// An error notice.
pub open spec fn error(text: Seq<char>) -> NoticeView {
    NoticeView { tone: Tone::Error, text }
}

/// A notice of success.
pub open spec fn success(text: Seq<char>) -> NoticeView {
    NoticeView { tone: Tone::Success, text }
}

impl Notice {
    /// A warning.
    pub fn warning(text: String) -> (n: Notice)
        ensures
            n@ == warning(text@),
    {
        Notice { tone: Tone::Warning, text }
    }

    /// An error notice.
    pub fn error(text: String) -> (n: Notice)
        ensures
            n@ == error(text@),
    {
        Notice { tone: Tone::Error, text }
    }

    /// A notice of success.
    pub fn success(text: String) -> (n: Notice)
        ensures
            n@ == success(text@),
    {
        Notice { tone: Tone::Success, text }
    }
}

/// What stands in for a value that a record lacks.
pub open spec fn placeholder() -> Seq<char> {
    "-"@
}

/// The text of an optional value: the value, or the placeholder.
pub open spec fn text_or_placeholder(value: Option<String>) -> Seq<char> {
    match value {
        Some(s) => s@,
        None => placeholder(),
    }
}

/// The text to show for an optional value.
pub fn opt_string_eval(value: &Option<String>) -> (text: String)
    ensures
        text@ == text_or_placeholder(*value),
{
    match value {
        Some(s) => s.clone(),
        None => "-".to_string(),
    }
}

/// What is said when a command names no machine to work on.
pub open spec fn no_machine() -> NoticeView {
    error("Error: specify a machine name to work with. See --help for more information."@)
}

/// What is said when a command names no image to work on.
pub open spec fn no_image() -> NoticeView {
    error("Error: specify a image name to work with. See --help for more information."@)
}

/// The notice for a command that names no machine.
pub fn invalid_machine() -> (n: Notice)
    ensures
        n@ == no_machine(),
{
    Notice::error(
        "Error: specify a machine name to work with. See --help for more information.".to_string(),
    )
}

/// The notice for a command that names no image.
pub fn invalid_image() -> (n: Notice)
    ensures
        n@ == no_image(),
{
    Notice::error(
        "Error: specify a image name to work with. See --help for more information.".to_string(),
    )
}

/// `a` followed by `b`.
pub fn join(a: &str, b: &str) -> (s: String)
    ensures
        s@ == a@ + b@,
{
    let mut s = a.to_string();
    s.append(b);
    s
}

/// `a`, `b` and `c` in a row.
pub fn join3(a: &str, b: &str, c: &str) -> (s: String)
    ensures
        s@ == a@ + b@ + c@,
{
    let mut s = a.to_string();
    s.append(b);
    s.append(c);
    s
}

/// `a`, `b`, `c` and `d` in a row.
pub fn join4(a: &str, b: &str, c: &str, d: &str) -> (s: String)
    ensures
        s@ == a@ + b@ + c@ + d@,
{
    let mut s = a.to_string();
    s.append(b);
    s.append(c);
    s.append(d);
    s
}

/// `a`, `b`, `c`, `d` and `e` in a row.
pub fn join5(a: &str, b: &str, c: &str, d: &str, e: &str) -> (s: String)
    ensures
        s@ == a@ + b@ + c@ + d@ + e@,
{
    let mut s = a.to_string();
    s.append(b);
    s.append(c);
    s.append(d);
    s.append(e);
    s
}

} // verus!
