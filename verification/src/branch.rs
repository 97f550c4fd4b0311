//! The task of one branch: create the working copy, extract the document
//! from it, and release the working copy whatever the extraction gave.
//!
//! The task decides; the caller acts. [`BranchTask::action`] says what is to
//! be done next, the caller does it and reports what came of it as a
//! [`BranchEvent`], and [`BranchTask::advance`] takes the task on from there.
//! An event that the task does not await leaves it as it is.

use vstd::prelude::*;

use crate::error::{Branch, ErrorKind, Failure, FailureView};
use crate::symbol::{SymbolDocument, SymbolView};
use crate::working_copy::{WorkingCopy, WorkingCopyView};

verus! {

/// What is found at the place of a working copy.
#[derive(Clone, Copy, Debug, PartialEq, Eq, Structural)]
pub enum Destination {
    /// Nothing is there.
    Absent,
    /// An empty directory is there.
    Empty,
    /// Something else is there.
    Occupied,
}

/// What the extraction engine gave.
#[derive(Debug, PartialEq, Eq)]
pub enum Extraction {
    /// The engine succeeded and its output was read.
    Document(SymbolDocument),
    /// The engine reported failure, with this diagnostic output.
    EngineFailed(String),
    /// The engine succeeded and its output could not be read, for this
    /// reason.
    OutputInvalid(String),
}

/// The mathematical value of an [`Extraction`].
pub enum ExtractionView {
    Document(Seq<SymbolView>),
    EngineFailed(Seq<char>),
    OutputInvalid(Seq<char>),
}

impl View for Extraction {
    type V = ExtractionView;

    open spec fn view(&self) -> ExtractionView {
        match self {
            Extraction::Document(doc) => ExtractionView::Document(doc@),
            Extraction::EngineFailed(text) => ExtractionView::EngineFailed(text@),
            Extraction::OutputInvalid(text) => ExtractionView::OutputInvalid(text@),
        }
    }
}

/// What the caller reports to a task.
#[derive(Debug, PartialEq, Eq)]
pub enum BranchEvent {
    /// Whether the reference names a commit, or why that could not be
    /// found out.
    Resolved(Result<bool, String>),
    /// What is at the place of the working copy, or why that could not be
    /// found out.
    Inspected(Result<Destination, String>),
    /// The working copy was created, or why it was not.
    CheckedOut(Option<String>),
    /// What the extraction gave.
    Extracted(Extraction),
    /// The working copy was removed, or why it was not.
    Released(Option<String>),
}

/// The mathematical value of a [`BranchEvent`].
pub enum EventView {
    Resolved(Result<bool, Seq<char>>),
    Inspected(Result<Destination, Seq<char>>),
    CheckedOut(Option<Seq<char>>),
    Extracted(ExtractionView),
    Released(Option<Seq<char>>),
}

/// The characters of a text that may be missing.
pub open spec fn text_option_view(text: Option<String>) -> Option<Seq<char>> {
    match text {
        Some(text) => Some(text@),
        None => None,
    }
}

impl View for BranchEvent {
    type V = EventView;

    open spec fn view(&self) -> EventView {
        match self {
            BranchEvent::Resolved(Ok(found)) => EventView::Resolved(Ok(*found)),
            BranchEvent::Resolved(Err(cause)) => EventView::Resolved(Err(cause@)),
            BranchEvent::Inspected(Ok(found)) => EventView::Inspected(Ok(*found)),
            BranchEvent::Inspected(Err(cause)) => EventView::Inspected(Err(cause@)),
            BranchEvent::CheckedOut(failure) => EventView::CheckedOut(text_option_view(*failure)),
            BranchEvent::Extracted(extraction) => EventView::Extracted(extraction@),
            BranchEvent::Released(failure) => EventView::Released(text_option_view(*failure)),
        }
    }
}

/// How a task ended.
#[derive(Debug, PartialEq, Eq)]
pub enum BranchOutcome {
    /// The document was extracted and the working copy released.
    Succeeded(SymbolDocument),
    /// The task failed. Where the release failed after the extraction had
    /// failed, the failure is that of the release and the failure of the
    /// extraction is kept beside it.
    Failed { failure: Failure, suppressed: Option<Failure> },
}

/// The mathematical value of a [`BranchOutcome`].
pub enum OutcomeView {
    Succeeded(Seq<SymbolView>),
    Failed { failure: FailureView, suppressed: Option<FailureView> },
}

/// The value of a failure that may be missing.
pub open spec fn failure_option_view(failure: Option<Failure>) -> Option<FailureView> {
    match failure {
        Some(failure) => Some(failure@),
        None => None,
    }
}

impl View for BranchOutcome {
    type V = OutcomeView;

    open spec fn view(&self) -> OutcomeView {
        match self {
            BranchOutcome::Succeeded(doc) => OutcomeView::Succeeded(doc@),
            BranchOutcome::Failed { failure, suppressed } => OutcomeView::Failed {
                failure: failure@,
                suppressed: failure_option_view(*suppressed),
            },
        }
    }
}

/// How far a task has come.
#[derive(Debug, PartialEq, Eq)]
pub enum Stage {
    /// Awaits whether the reference names a commit.
    Resolving,
    /// Awaits what is at the place of the working copy.
    Inspecting,
    /// Awaits the creation of the working copy.
    CheckingOut,
    /// The working copy exists. Awaits the extraction.
    Extracting,
    /// The working copy exists. Awaits its removal, with the outcome of the
    /// extraction in hand.
    Releasing(BranchOutcome),
    /// The task has ended.
    Done(BranchOutcome),
}

/// The mathematical value of a [`Stage`].
pub enum StageView {
    Resolving,
    Inspecting,
    CheckingOut,
    Extracting,
    Releasing(OutcomeView),
    Done(OutcomeView),
}

impl View for Stage {
    type V = StageView;

    open spec fn view(&self) -> StageView {
        match self {
            Stage::Resolving => StageView::Resolving,
            Stage::Inspecting => StageView::Inspecting,
            Stage::CheckingOut => StageView::CheckingOut,
            Stage::Extracting => StageView::Extracting,
            Stage::Releasing(outcome) => StageView::Releasing(outcome@),
            Stage::Done(outcome) => StageView::Done(outcome@),
        }
    }
}

/// What the caller is to do next.
#[derive(Clone, Copy, Debug, PartialEq, Eq, Structural)]
pub enum BranchAction {
    /// Find out whether the reference names a commit.
    Resolve,
    /// Find out what is at the place of the working copy.
    Inspect,
    /// Create the working copy.
    CheckOut,
    /// Run the extraction on the working copy.
    Extract,
    /// Remove the working copy.
    Release,
    /// Nothing: the task has ended.
    Finish,
}

/// The mathematical value of a [`BranchTask`].
pub struct TaskView {
    pub copy: WorkingCopyView,
    pub stage: StageView,
}

/// The task of one branch.
#[derive(Debug, PartialEq, Eq)]
pub struct BranchTask {
    pub copy: WorkingCopy,
    pub stage: Stage,
}

impl View for BranchTask {
    type V = TaskView;

    open spec fn view(&self) -> TaskView {
        TaskView { copy: self.copy@, stage: self.stage@ }
    }
}

/// The failure of the given kind in the given branch, alone.
pub open spec fn failed(kind: ErrorKind, branch: Branch, detail: Seq<char>) -> OutcomeView {
    OutcomeView::Failed {
        failure: FailureView { kind, branch: Some(branch), detail },
        suppressed: None,
    }
}

/// The outcome that an extraction stands for.
pub open spec fn extraction_outcome(extraction: ExtractionView, branch: Branch) -> OutcomeView {
    match extraction {
        ExtractionView::Document(doc) => OutcomeView::Succeeded(doc),
        ExtractionView::EngineFailed(text) => failed(ErrorKind::ExtractionFailed, branch, text),
        ExtractionView::OutputInvalid(text) => failed(
            ErrorKind::ExtractionOutputInvalid,
            branch,
            text,
        ),
    }
}

/// The failure of an outcome, where it is one.
pub open spec fn failure_of(outcome: OutcomeView) -> Option<FailureView> {
    match outcome {
        OutcomeView::Succeeded(_) => None,
        OutcomeView::Failed { failure, suppressed } => Some(failure),
    }
}

/// The outcome of a task whose release failed for `cause` after its
/// extraction had ended in `outcome`.
pub open spec fn release_failed(outcome: OutcomeView, branch: Branch, cause: Seq<char>) -> OutcomeView {
    OutcomeView::Failed {
        failure: FailureView {
            kind: ErrorKind::MaterializationFailed,
            branch: Some(branch),
            detail: cause,
        },
        suppressed: failure_of(outcome),
    }
}

/// The stage that follows `stage` of the task on `copy` when `event` is
/// reported.
pub open spec fn next_stage(copy: WorkingCopyView, stage: StageView, event: EventView) -> StageView {
    match (stage, event) {
        (StageView::Resolving, EventView::Resolved(Ok(found))) => if found {
            StageView::Inspecting
        } else {
            StageView::Done(failed(ErrorKind::UnknownReference, copy.branch, copy.reference))
        },
        (StageView::Resolving, EventView::Resolved(Err(cause))) => StageView::Done(
            failed(ErrorKind::MaterializationFailed, copy.branch, cause),
        ),
        (StageView::Inspecting, EventView::Inspected(Ok(found))) => if found
            == Destination::Occupied {
            StageView::Done(failed(ErrorKind::PathConflict, copy.branch, copy.dir))
        } else {
            StageView::CheckingOut
        },
        (StageView::Inspecting, EventView::Inspected(Err(cause))) => StageView::Done(
            failed(ErrorKind::MaterializationFailed, copy.branch, cause),
        ),
        (StageView::CheckingOut, EventView::CheckedOut(None)) => StageView::Extracting,
        (StageView::CheckingOut, EventView::CheckedOut(Some(cause))) => StageView::Done(
            failed(ErrorKind::MaterializationFailed, copy.branch, cause),
        ),
        (StageView::Extracting, EventView::Extracted(extraction)) => StageView::Releasing(
            extraction_outcome(extraction, copy.branch),
        ),
        (StageView::Releasing(outcome), EventView::Released(None)) => StageView::Done(outcome),
        (StageView::Releasing(outcome), EventView::Released(Some(cause))) => StageView::Done(
            release_failed(outcome, copy.branch, cause),
        ),
        (stage, _) => stage,
    }
}

/// The task that `task` becomes when `event` is reported.
pub open spec fn advance_of(task: TaskView, event: EventView) -> TaskView {
    TaskView { copy: task.copy, stage: next_stage(task.copy, task.stage, event) }
}

/// What is to be done at `stage`.
pub open spec fn action_of(stage: StageView) -> BranchAction {
    match stage {
        StageView::Resolving => BranchAction::Resolve,
        StageView::Inspecting => BranchAction::Inspect,
        StageView::CheckingOut => BranchAction::CheckOut,
        StageView::Extracting => BranchAction::Extract,
        StageView::Releasing(_) => BranchAction::Release,
        StageView::Done(_) => BranchAction::Finish,
    }
}

/// The failure of the given kind in the given branch, alone.
fn fail(kind: ErrorKind, branch: Branch, detail: String) -> (outcome: BranchOutcome)
    ensures
        outcome@ == failed(kind, branch, detail@),
{
    BranchOutcome::Failed {
        failure: Failure { kind, branch: Some(branch), detail },
        suppressed: None,
    }
}

impl BranchTask {
    /// The task for the given working copy, before anything was done.
    pub fn new(copy: WorkingCopy) -> (task: BranchTask)
        ensures
            task@ == (TaskView { copy: copy@, stage: StageView::Resolving }),
    {
        BranchTask { copy, stage: Stage::Resolving }
    }

    /// What the caller is to do next.
    pub fn action(&self) -> (action: BranchAction)
        ensures
            action == action_of(self@.stage),
    {
        match &self.stage {
            Stage::Resolving => BranchAction::Resolve,
            Stage::Inspecting => BranchAction::Inspect,
            Stage::CheckingOut => BranchAction::CheckOut,
            Stage::Extracting => BranchAction::Extract,
            Stage::Releasing(_) => BranchAction::Release,
            Stage::Done(_) => BranchAction::Finish,
        }
    }

    /// Whether the task has ended.
    pub fn is_done(&self) -> (done: bool)
        ensures
            done == (self@.stage is Done),
    {
        match &self.stage {
            Stage::Done(_) => true,
            _ => false,
        }
    }

    /// Takes the task on by one event.
    pub fn advance(self, event: BranchEvent) -> (next: BranchTask)
        ensures
            next@ == advance_of(self@, event@),
    {
        let copy = self.copy;
        let branch = copy.branch;
        let stage = match (self.stage, event) {
            (Stage::Resolving, BranchEvent::Resolved(Ok(found))) => {
                if found {
                    Stage::Inspecting
                } else {
                    let name = copy.reference.as_str().to_owned();
                    Stage::Done(fail(ErrorKind::UnknownReference, branch, name))
                }
            },
            (Stage::Resolving, BranchEvent::Resolved(Err(cause))) => Stage::Done(
                fail(ErrorKind::MaterializationFailed, branch, cause),
            ),
            (Stage::Inspecting, BranchEvent::Inspected(Ok(found))) => {
                match found {
                    Destination::Occupied => Stage::Done(
                        fail(ErrorKind::PathConflict, branch, copy.dir.clone()),
                    ),
                    _ => Stage::CheckingOut,
                }
            },
            (Stage::Inspecting, BranchEvent::Inspected(Err(cause))) => Stage::Done(
                fail(ErrorKind::MaterializationFailed, branch, cause),
            ),
            (Stage::CheckingOut, BranchEvent::CheckedOut(None)) => Stage::Extracting,
            (Stage::CheckingOut, BranchEvent::CheckedOut(Some(cause))) => Stage::Done(
                fail(ErrorKind::MaterializationFailed, branch, cause),
            ),
            (Stage::Extracting, BranchEvent::Extracted(extraction)) => {
                let outcome = match extraction {
                    Extraction::Document(doc) => BranchOutcome::Succeeded(doc),
                    Extraction::EngineFailed(text) => fail(
                        ErrorKind::ExtractionFailed,
                        branch,
                        text,
                    ),
                    Extraction::OutputInvalid(text) => fail(
                        ErrorKind::ExtractionOutputInvalid,
                        branch,
                        text,
                    ),
                };
                Stage::Releasing(outcome)
            },
            (Stage::Releasing(outcome), BranchEvent::Released(None)) => Stage::Done(outcome),
            (Stage::Releasing(outcome), BranchEvent::Released(Some(cause))) => {
                let suppressed = match outcome {
                    BranchOutcome::Succeeded(_) => None,
                    BranchOutcome::Failed { failure, suppressed } => Some(failure),
                };
                Stage::Done(
                    BranchOutcome::Failed {
                        failure: Failure {
                            kind: ErrorKind::MaterializationFailed,
                            branch: Some(branch),
                            detail: cause,
                        },
                        suppressed,
                    },
                )
            },
            (stage, _) => stage,
        };
        BranchTask { copy, stage }
    }

    /// The outcome of the task, once it has ended.
    pub fn into_outcome(self) -> (outcome: Option<BranchOutcome>)
        ensures
            match outcome {
                Some(outcome) => self@.stage == StageView::Done(outcome@),
                None => !(self@.stage is Done),
            },
    {
        match self.stage {
            Stage::Done(outcome) => Some(outcome),
            _ => None,
        }
    }
}

} // verus!
