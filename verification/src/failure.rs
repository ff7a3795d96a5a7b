//! What can end a run early.

use vstd::prelude::*;
use vstd::string::*;

verus! {

/// A reason to stop that the library itself finds.
#[derive(Debug, Clone, PartialEq, Eq)]
pub enum Failure {
    /// Nothing exists at the target path.
    TargetNotFound { path: String },
    /// The command that looks the formatter up could not be run.
    FormatterNotFound,
    /// What the lookup printed is no UTF-8 text.
    InvalidFormatterPath,
    /// The formatter ran and did not end well. `status` is how it ended.
    FormatterFailed { status: String },
}

/// A [`Failure`] as plain mathematical values.
pub enum FailureView {
    TargetNotFound { path: Seq<char> },
    FormatterNotFound,
    InvalidFormatterPath,
    FormatterFailed { status: Seq<char> },
}

/// The class of an error, as the operating system's errors are classed.
#[derive(Debug, Clone, Copy, PartialEq, Eq, Structural)]
pub enum FailureKind {
    /// Something that was looked for is not there.
    NotFound,
    /// Data that was read is not what it has to be.
    InvalidData,
    /// None of the other classes.
    Other,
}

/// A reason to stop: an error of the caller's own, handed back as it came in,
/// or one that the library found.
#[derive(Debug, PartialEq, Eq)]
pub enum RunError<E> {
    /// The error with which writing the file or starting the formatter failed.
    Io(E),
    /// A failure that the library found.
    Failure(Failure),
}

/// A [`RunError`] as plain mathematical values.
pub enum RunErrorView<E> {
    Io(E),
    Failure(FailureView),
}

impl View for Failure {
    type V = FailureView;

    open spec fn view(&self) -> FailureView {
        match *self {
            Failure::TargetNotFound { path } => FailureView::TargetNotFound { path: path@ },
            Failure::FormatterNotFound => FailureView::FormatterNotFound,
            Failure::InvalidFormatterPath => FailureView::InvalidFormatterPath,
            Failure::FormatterFailed { status } => FailureView::FormatterFailed {
                status: status@,
            },
        }
    }
}

impl<E> View for RunError<E> {
    type V = RunErrorView<E>;

    open spec fn view(&self) -> RunErrorView<E> {
        match *self {
            RunError::Io(e) => RunErrorView::Io(e),
            RunError::Failure(failure) => RunErrorView::Failure(failure@),
        }
    }
}

/// A path as the `Debug` form of `std::path::Path` shows it: between double
/// quotes, with what cannot stand there written as escapes.
pub uninterp spec fn path_debug_text(path: Seq<char>) -> Seq<char>;

/// Formats a `std::path::Path` with `{:?}`. Not proved: that the text
/// depends on the path alone, which [`path_debug_text`] names.
#[verifier::external_body]
fn path_debug(path: &str) -> (text: String)
    ensures
        text@ == path_debug_text(path@),
{
    format!("{:?}", std::path::Path::new(path))
}

impl FailureView {
    /// The class of the failure.
    pub open spec fn kind(self) -> FailureKind {
        match self {
            FailureView::TargetNotFound { .. } => FailureKind::NotFound,
            FailureView::FormatterNotFound => FailureKind::NotFound,
            FailureView::InvalidFormatterPath => FailureKind::InvalidData,
            FailureView::FormatterFailed { .. } => FailureKind::Other,
        }
    }

    /// The sentence that describes the failure.
    pub open spec fn message(self) -> Seq<char> {
        match self {
            FailureView::TargetNotFound { path } => "Target does not exist: "@ + path_debug_text(
                path,
            ),
            FailureView::FormatterNotFound => "Could not find rustfmt in PATH"@,
            FailureView::InvalidFormatterPath => "rustfmt path contains invalid UTF-8"@,
            FailureView::FormatterFailed { status } => "rustfmt failed with status: "@ + status,
        }
    }
}

impl Failure {
    /// The class of the failure.
    pub fn kind(&self) -> (kind: FailureKind)
        ensures
            kind == self@.kind(),
    {
        match self {
            Failure::TargetNotFound { .. } => FailureKind::NotFound,
            Failure::FormatterNotFound => FailureKind::NotFound,
            Failure::InvalidFormatterPath => FailureKind::InvalidData,
            Failure::FormatterFailed { .. } => FailureKind::Other,
        }
    }

    /// The sentence that describes the failure.
    pub fn message(&self) -> (message: String)
        ensures
            message@ == self@.message(),
    {
        match self {
            Failure::TargetNotFound { path } => {
                let quoted = path_debug(path.as_str());
                String::from_str("Target does not exist: ").concat(quoted.as_str())
            },
            Failure::FormatterNotFound => String::from_str("Could not find rustfmt in PATH"),
            Failure::InvalidFormatterPath => String::from_str(
                "rustfmt path contains invalid UTF-8",
            ),
            Failure::FormatterFailed { status } => String::from_str(
                "rustfmt failed with status: ",
            ).concat(status.as_str()),
        }
    }
}

} // verus!
