//! Why a run fails: the kind of failure, the branch it belongs to, and the
//! text of its cause.

use vstd::prelude::*;
use vstd::string::StringExecFns;

verus! {

/// The kinds of failure. Every one of them ends the run.
#[derive(Clone, Copy, Debug, PartialEq, Eq, Structural)]
pub enum ErrorKind {
    /// A reference name is not syntactically legal.
    InvalidReference,
    /// A reference names no commit of the repository.
    UnknownReference,
    /// The directory for a working copy exists and is not empty.
    PathConflict,
    /// The working copy could not be created or could not be removed.
    MaterializationFailed,
    /// The extraction engine ran and reported failure.
    ExtractionFailed,
    /// The extraction engine's output could not be read as a document.
    ExtractionOutputInvalid,
    /// A branch's task did not run to completion.
    TaskFailed,
    /// The template could not be rendered.
    RenderFailed,
    /// The rendered text could not be written to its destination.
    OutputWriteFailed,
}

/// The two revisions of a comparison.
#[derive(Clone, Copy, Debug, PartialEq, Eq, Structural)]
pub enum Branch {
    Base,
    Target,
}

/// The phases of a run in which a failure can arise.
#[derive(Clone, Copy, Debug, PartialEq, Eq, Structural)]
pub enum Phase {
    Validate,
    Materialize,
    Extract,
    Render,
    Write,
}

/// The phase in which a failure of the given kind arises. A task that did
/// not run to completion tells no phase.
pub open spec fn phase_of(kind: ErrorKind) -> Option<Phase> {
    match kind {
        ErrorKind::InvalidReference => Some(Phase::Validate),
        ErrorKind::UnknownReference => Some(Phase::Materialize),
        ErrorKind::PathConflict => Some(Phase::Materialize),
        ErrorKind::MaterializationFailed => Some(Phase::Materialize),
        ErrorKind::ExtractionFailed => Some(Phase::Extract),
        ErrorKind::ExtractionOutputInvalid => Some(Phase::Extract),
        ErrorKind::TaskFailed => None,
        ErrorKind::RenderFailed => Some(Phase::Render),
        ErrorKind::OutputWriteFailed => Some(Phase::Write),
    }
}

/// The words for a kind of failure.
pub open spec fn kind_text(kind: ErrorKind) -> Seq<char> {
    match kind {
        ErrorKind::InvalidReference => "invalid reference"@,
        ErrorKind::UnknownReference => "unknown reference"@,
        ErrorKind::PathConflict => "path conflict"@,
        ErrorKind::MaterializationFailed => "materialization failed"@,
        ErrorKind::ExtractionFailed => "extraction failed"@,
        ErrorKind::ExtractionOutputInvalid => "extraction output invalid"@,
        ErrorKind::TaskFailed => "task failed"@,
        ErrorKind::RenderFailed => "render failed"@,
        ErrorKind::OutputWriteFailed => "output write failed"@,
    }
}

/// The words for a branch.
pub open spec fn branch_text(branch: Branch) -> Seq<char> {
    match branch {
        Branch::Base => "base"@,
        Branch::Target => "target"@,
    }
}

impl Branch {
    /// The words for the branch, which also name its directory.
    pub fn name(&self) -> (name: &'static str)
        ensures
            name@ == branch_text(*self),
    {
        match self {
            Branch::Base => "base",
            Branch::Target => "target",
        }
    }
}

impl ErrorKind {
    /// The words for this kind of failure.
    pub fn text(&self) -> (text: &'static str)
        ensures
            text@ == kind_text(*self),
    {
        match self {
            ErrorKind::InvalidReference => "invalid reference",
            ErrorKind::UnknownReference => "unknown reference",
            ErrorKind::PathConflict => "path conflict",
            ErrorKind::MaterializationFailed => "materialization failed",
            ErrorKind::ExtractionFailed => "extraction failed",
            ErrorKind::ExtractionOutputInvalid => "extraction output invalid",
            ErrorKind::TaskFailed => "task failed",
            ErrorKind::RenderFailed => "render failed",
            ErrorKind::OutputWriteFailed => "output write failed",
        }
    }

    /// The phase in which a failure of this kind arises.
    pub fn phase(&self) -> (phase: Option<Phase>)
        ensures
            phase == phase_of(*self),
    {
        match self {
            ErrorKind::InvalidReference => Some(Phase::Validate),
            ErrorKind::UnknownReference => Some(Phase::Materialize),
            ErrorKind::PathConflict => Some(Phase::Materialize),
            ErrorKind::MaterializationFailed => Some(Phase::Materialize),
            ErrorKind::ExtractionFailed => Some(Phase::Extract),
            ErrorKind::ExtractionOutputInvalid => Some(Phase::Extract),
            ErrorKind::TaskFailed => None,
            ErrorKind::RenderFailed => Some(Phase::Render),
            ErrorKind::OutputWriteFailed => Some(Phase::Write),
        }
    }
}

/// The mathematical value of a [`Failure`].
pub struct FailureView {
    pub kind: ErrorKind,
    pub branch: Option<Branch>,
    pub detail: Seq<char>,
}

/// One failure: its kind, the branch it arose in where it belongs to one,
/// and the text of its cause, kept as it was reported.
#[derive(Debug, PartialEq, Eq)]
pub struct Failure {
    pub kind: ErrorKind,
    pub branch: Option<Branch>,
    pub detail: String,
}

impl View for Failure {
    type V = FailureView;

    open spec fn view(&self) -> FailureView {
        FailureView { kind: self.kind, branch: self.branch, detail: self.detail@ }
    }
}

impl Clone for Failure {
    fn clone(&self) -> (copy: Self)
        ensures
            copy@ == self@,
    {
        Failure { kind: self.kind, branch: self.branch, detail: self.detail.clone() }
    }
}

/// The line that names a failure: the words for its kind, followed by the
/// branch where it belongs to one.
pub open spec fn headline_of(failure: FailureView) -> Seq<char> {
    match failure.branch {
        Some(branch) => kind_text(failure.kind) + " in "@ + branch_text(branch),
        None => kind_text(failure.kind),
    }
}

/// The lines that tell a failure, the most specific first: the text of its
/// cause, where it has one, and then the line that names it.
pub open spec fn lines_of(failure: FailureView) -> Seq<Seq<char>> {
    if failure.detail.len() > 0 {
        seq![failure.detail, headline_of(failure)]
    } else {
        seq![headline_of(failure)]
    }
}

impl Failure {
    /// The line that names the failure.
    pub fn headline(&self) -> (line: String)
        ensures
            line@ == headline_of(self@),
    {
        let mut line = self.kind.text().to_owned();
        match self.branch {
            Some(branch) => {
                line.append(" in ");
                line.append(branch.name());
            },
            None => {},
        }
        line
    }

    /// A failure of the given kind.
    pub fn new(kind: ErrorKind, branch: Option<Branch>, detail: &str) -> (failure: Failure)
        ensures
            failure@ == (FailureView { kind, branch, detail: detail@ }),
    {
        Failure { kind, branch, detail: detail.to_owned() }
    }
}

} // verus!
