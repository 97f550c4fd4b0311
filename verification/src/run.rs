//! The run as a whole: validate the references, load the template, reserve
//! the output, prepare the temporary root, run the two branches, compare
//! what they extracted, render and write.
//!
//! The run decides; the caller acts. [`Run::action`] says what is to be done
//! next, the caller does it and reports what came of it as a [`RunEvent`],
//! and [`Run::advance`] takes the run on from there. An event that the run
//! does not await leaves it as it is.

use vstd::prelude::*;

use crate::diff::{diff, diff_between};
use crate::error::{Branch, ErrorKind, Failure, FailureView};
use crate::join::{join, joined, RunError, RunErrorView, TaskOutcome, TaskOutcomeView};
use crate::projection::{project, projection_of, ModelView, RenderableModel};
use crate::reference::{is_legal_reference, Reference};
use crate::working_copy::{copy_dir, Tempdir, WorkingCopy, WorkingCopyView};

verus! {

/// What the caller reports to a run.
#[derive(Debug, PartialEq, Eq)]
pub enum RunEvent {
    /// The template was read and accepted, or why it was not.
    TemplateLoaded(Option<String>),
    /// The output destination was created anew, or why it was not: among
    /// the reasons, that it exists already.
    OutputReserved(Option<String>),
    /// The temporary root, or why there is none.
    RootPrepared(Result<Tempdir, String>),
    /// What became of the tasks of the base and of the target.
    BranchesJoined(TaskOutcome, TaskOutcome),
    /// The rendered text, or why the template could not be rendered.
    Rendered(Result<String, String>),
    /// The text was written, or why it was not.
    Written(Option<String>),
    /// The output destination that this run had created is gone again.
    OutputDiscarded,
}

/// The mathematical value of a [`RunEvent`].
pub enum RunEventView {
    TemplateLoaded(Option<Seq<char>>),
    OutputReserved(Option<Seq<char>>),
    RootPrepared(Result<Seq<char>, Seq<char>>),
    BranchesJoined(TaskOutcomeView, TaskOutcomeView),
    Rendered(Result<Seq<char>, Seq<char>>),
    Written(Option<Seq<char>>),
    OutputDiscarded,
}

impl View for RunEvent {
    type V = RunEventView;

    open spec fn view(&self) -> RunEventView {
        match self {
            RunEvent::TemplateLoaded(Some(cause)) => RunEventView::TemplateLoaded(Some(cause@)),
            RunEvent::TemplateLoaded(None) => RunEventView::TemplateLoaded(None),
            RunEvent::OutputReserved(Some(cause)) => RunEventView::OutputReserved(Some(cause@)),
            RunEvent::OutputReserved(None) => RunEventView::OutputReserved(None),
            RunEvent::RootPrepared(Ok(root)) => RunEventView::RootPrepared(Ok(root.path_view())),
            RunEvent::RootPrepared(Err(cause)) => RunEventView::RootPrepared(Err(cause@)),
            RunEvent::BranchesJoined(base, target) => RunEventView::BranchesJoined(
                base@,
                target@,
            ),
            RunEvent::Rendered(Ok(text)) => RunEventView::Rendered(Ok(text@)),
            RunEvent::Rendered(Err(cause)) => RunEventView::Rendered(Err(cause@)),
            RunEvent::Written(Some(cause)) => RunEventView::Written(Some(cause@)),
            RunEvent::Written(None) => RunEventView::Written(None),
            RunEvent::OutputDiscarded => RunEventView::OutputDiscarded,
        }
    }
}

/// What the caller is to do next.
#[derive(Clone, Copy, Debug, PartialEq, Eq, Structural)]
pub enum RunAction {
    /// Read the template and hand it to the renderer.
    LoadTemplate,
    /// Create the output destination anew, failing if it exists.
    ReserveOutput,
    /// Take the temporary root that was named, or make a fresh one.
    PrepareRoot,
    /// Run the tasks of both branches, side by side, and wait for both.
    RunBranches,
    /// Render the template with the model of the run.
    Render,
    /// Write the text of the run to the output.
    Write,
    /// Remove the output destination that this run created.
    DiscardOutput,
    /// Nothing: the run has ended.
    Finish,
}

/// How far a run has come.
#[derive(Debug, PartialEq, Eq)]
pub enum RunStage {
    /// Awaits the template.
    LoadingTemplate { base: Reference, target: Reference },
    /// Awaits the creation of the output destination.
    ReservingOutput { base: Reference, target: Reference },
    /// Awaits the temporary root.
    PreparingRoot { base: Reference, target: Reference },
    /// Awaits the two branches, whose working copies are these.
    Extracting { base_copy: WorkingCopy, target_copy: WorkingCopy },
    /// Awaits the rendering of this model.
    Rendering { model: RenderableModel },
    /// Awaits the writing of this text.
    Writing { text: String },
    /// The run has failed. Awaits the removal of the output destination
    /// that it had created.
    Discarding { error: RunError },
    /// The run has ended.
    Done { outcome: Result<(), RunError> },
}

/// The mathematical value of a [`RunStage`].
pub enum RunStageView {
    LoadingTemplate { base: Seq<char>, target: Seq<char> },
    ReservingOutput { base: Seq<char>, target: Seq<char> },
    PreparingRoot { base: Seq<char>, target: Seq<char> },
    Extracting { base_copy: WorkingCopyView, target_copy: WorkingCopyView },
    Rendering { model: ModelView },
    Writing { text: Seq<char> },
    Discarding { error: RunErrorView },
    Done { outcome: Result<(), RunErrorView> },
}

impl View for RunStage {
    type V = RunStageView;

    open spec fn view(&self) -> RunStageView {
        match self {
            RunStage::LoadingTemplate { base, target } => RunStageView::LoadingTemplate {
                base: base@,
                target: target@,
            },
            RunStage::ReservingOutput { base, target } => RunStageView::ReservingOutput {
                base: base@,
                target: target@,
            },
            RunStage::PreparingRoot { base, target } => RunStageView::PreparingRoot {
                base: base@,
                target: target@,
            },
            RunStage::Extracting { base_copy, target_copy } => RunStageView::Extracting {
                base_copy: base_copy@,
                target_copy: target_copy@,
            },
            RunStage::Rendering { model } => RunStageView::Rendering { model: model@ },
            RunStage::Writing { text } => RunStageView::Writing { text: text@ },
            RunStage::Discarding { error } => RunStageView::Discarding { error: error@ },
            RunStage::Done { outcome: Ok(_) } => RunStageView::Done { outcome: Ok(()) },
            RunStage::Done { outcome: Err(error) } => RunStageView::Done { outcome: Err(error@) },
        }
    }
}

/// The mathematical value of a [`Run`].
pub struct RunView {
    pub writes_file: bool,
    pub reserved: bool,
    pub stage: RunStageView,
}

/// One run of the comparison.
#[derive(Debug, PartialEq, Eq)]
pub struct Run {
    /// Whether the output goes to a destination of its own, and not to the
    /// standard output.
    pub writes_file: bool,
    /// Whether the output destination that this run created is there.
    pub reserved: bool,
    /// How far the run has come.
    pub stage: RunStage,
}

impl View for Run {
    type V = RunView;

    open spec fn view(&self) -> RunView {
        RunView { writes_file: self.writes_file, reserved: self.reserved, stage: self.stage@ }
    }
}

/// The failure of the given kind, alone and outside the branches.
pub open spec fn run_failure(kind: ErrorKind, detail: Seq<char>) -> RunErrorView {
    RunErrorView {
        primary: FailureView { kind, branch: None, detail },
        secondary: Seq::empty(),
    }
}

/// The failure that an illegal reference name gives.
pub open spec fn invalid_reference(branch: Branch, name: Seq<char>) -> FailureView {
    FailureView { kind: ErrorKind::InvalidReference, branch: Some(branch), detail: name }
}

/// The stage at which a run for the given reference names begins: it ends
/// at once where a name is illegal, the base's name reported first.
pub open spec fn first_stage(base: Seq<char>, target: Seq<char>) -> RunStageView {
    if !is_legal_reference(base) {
        RunStageView::Done {
            outcome: Err(
                RunErrorView {
                    primary: invalid_reference(Branch::Base, base),
                    secondary: if is_legal_reference(target) {
                        Seq::empty()
                    } else {
                        seq![invalid_reference(Branch::Target, target)]
                    },
                },
            ),
        }
    } else if !is_legal_reference(target) {
        RunStageView::Done {
            outcome: Err(
                RunErrorView {
                    primary: invalid_reference(Branch::Target, target),
                    secondary: Seq::empty(),
                },
            ),
        }
    } else {
        RunStageView::LoadingTemplate { base, target }
    }
}

/// The run for the given reference names, before anything was done.
pub open spec fn start_of(base: Seq<char>, target: Seq<char>, writes_file: bool) -> RunView {
    RunView { writes_file, reserved: false, stage: first_stage(base, target) }
}

/// The stage of a run that fails with `error`: it ends at once, unless it
/// has created the output destination, which is then removed first.
pub open spec fn failing_stage(reserved: bool, error: RunErrorView) -> RunStageView {
    if reserved {
        RunStageView::Discarding { error }
    } else {
        RunStageView::Done { outcome: Err(error) }
    }
}

/// The run that fails with `error`.
pub open spec fn failing(run: RunView, error: RunErrorView) -> RunView {
    RunView {
        writes_file: run.writes_file,
        reserved: run.reserved,
        stage: failing_stage(run.reserved, error),
    }
}

/// The run at another stage.
pub open spec fn at_stage(run: RunView, stage: RunStageView) -> RunView {
    RunView { writes_file: run.writes_file, reserved: run.reserved, stage }
}

/// The run that `run` becomes when `event` is reported.
pub open spec fn run_advance_of(run: RunView, event: RunEventView) -> RunView {
    match (run.stage, event) {
        (RunStageView::LoadingTemplate { base, target }, RunEventView::TemplateLoaded(None)) => {
            if run.writes_file {
                at_stage(run, RunStageView::ReservingOutput { base, target })
            } else {
                at_stage(run, RunStageView::PreparingRoot { base, target })
            }
        },
        (RunStageView::LoadingTemplate { base, target }, RunEventView::TemplateLoaded(Some(cause))) => {
            failing(run, run_failure(ErrorKind::RenderFailed, cause))
        },
        (RunStageView::ReservingOutput { base, target }, RunEventView::OutputReserved(None)) => {
            RunView {
                writes_file: run.writes_file,
                reserved: true,
                stage: RunStageView::PreparingRoot { base, target },
            }
        },
        (RunStageView::ReservingOutput { base, target }, RunEventView::OutputReserved(Some(cause))) => {
            failing(run, run_failure(ErrorKind::OutputWriteFailed, cause))
        },
        (RunStageView::PreparingRoot { base, target }, RunEventView::RootPrepared(Ok(root))) => {
            at_stage(
                run,
                RunStageView::Extracting {
                    base_copy: WorkingCopyView {
                        branch: Branch::Base,
                        reference: base,
                        dir: copy_dir(root, Branch::Base),
                    },
                    target_copy: WorkingCopyView {
                        branch: Branch::Target,
                        reference: target,
                        dir: copy_dir(root, Branch::Target),
                    },
                },
            )
        },
        (RunStageView::PreparingRoot { base, target }, RunEventView::RootPrepared(Err(cause))) => {
            failing(run, run_failure(ErrorKind::MaterializationFailed, cause))
        },
        (RunStageView::Extracting { .. }, RunEventView::BranchesJoined(first, second)) => {
            match joined(first, second) {
                Ok((old, new)) => at_stage(
                    run,
                    RunStageView::Rendering { model: projection_of(diff_between(old, new)) },
                ),
                Err(error) => failing(run, error),
            }
        },
        (RunStageView::Rendering { model }, RunEventView::Rendered(Ok(text))) => at_stage(
            run,
            RunStageView::Writing { text },
        ),
        (RunStageView::Rendering { model }, RunEventView::Rendered(Err(cause))) => failing(
            run,
            run_failure(ErrorKind::RenderFailed, cause),
        ),
        (RunStageView::Writing { text }, RunEventView::Written(None)) => at_stage(
            run,
            RunStageView::Done { outcome: Ok(()) },
        ),
        (RunStageView::Writing { text }, RunEventView::Written(Some(cause))) => failing(
            run,
            run_failure(ErrorKind::OutputWriteFailed, cause),
        ),
        (RunStageView::Discarding { error }, RunEventView::OutputDiscarded) => RunView {
            writes_file: run.writes_file,
            reserved: false,
            stage: RunStageView::Done { outcome: Err(error) },
        },
        _ => run,
    }
}

/// What is to be done at `stage`.
pub open spec fn run_action_of(stage: RunStageView) -> RunAction {
    match stage {
        RunStageView::LoadingTemplate { .. } => RunAction::LoadTemplate,
        RunStageView::ReservingOutput { .. } => RunAction::ReserveOutput,
        RunStageView::PreparingRoot { .. } => RunAction::PrepareRoot,
        RunStageView::Extracting { .. } => RunAction::RunBranches,
        RunStageView::Rendering { .. } => RunAction::Render,
        RunStageView::Writing { .. } => RunAction::Write,
        RunStageView::Discarding { .. } => RunAction::DiscardOutput,
        RunStageView::Done { .. } => RunAction::Finish,
    }
}

/// The failure of the given kind, alone and outside the branches.
fn failure(kind: ErrorKind, detail: String) -> (error: RunError)
    ensures
        error@ == run_failure(kind, detail@),
{
    let error = RunError {
        primary: Failure { kind, branch: None, detail },
        secondary: Vec::new(),
    };
    assert(error@.secondary =~= Seq::<FailureView>::empty());
    error
}

/// The failure that an illegal reference name gives.
fn invalid(branch: Branch, name: &str) -> (failure: Failure)
    ensures
        failure@ == invalid_reference(branch, name@),
{
    Failure { kind: ErrorKind::InvalidReference, branch: Some(branch), detail: name.to_owned() }
}

impl Run {
    /// Begins a run that compares the revision named `target` with the one
    /// named `base`.
    ///
    /// Both names are checked before anything else is done. Where one of
    /// them is illegal the run has ended as it begins, with the kind
    /// `InvalidReference`, and asks for nothing to be done.
    pub fn start(base: &str, target: &str, writes_file: bool) -> (run: Run)
        ensures
            run@ == start_of(base@, target@, writes_file),
    {
        let stage = match (Reference::parse(base), Reference::parse(target)) {
            (Some(base), Some(target)) => RunStage::LoadingTemplate { base, target },
            (Some(_), None) => {
                let error = RunError {
                    primary: invalid(Branch::Target, target),
                    secondary: Vec::new(),
                };
                assert(error@.secondary =~= Seq::<FailureView>::empty());
                RunStage::Done { outcome: Err(error) }
            },
            (None, Some(_)) => {
                let error = RunError {
                    primary: invalid(Branch::Base, base),
                    secondary: Vec::new(),
                };
                assert(error@.secondary =~= Seq::<FailureView>::empty());
                RunStage::Done { outcome: Err(error) }
            },
            (None, None) => {
                let mut secondary: Vec<Failure> = Vec::new();
                secondary.push(invalid(Branch::Target, target));
                let error = RunError { primary: invalid(Branch::Base, base), secondary };
                assert(error@.secondary =~= seq![invalid_reference(Branch::Target, target@)]);
                RunStage::Done { outcome: Err(error) }
            },
        };
        Run { writes_file, reserved: false, stage }
    }

    /// What the caller is to do next.
    pub fn action(&self) -> (action: RunAction)
        ensures
            action == run_action_of(self@.stage),
    {
        match &self.stage {
            RunStage::LoadingTemplate { .. } => RunAction::LoadTemplate,
            RunStage::ReservingOutput { .. } => RunAction::ReserveOutput,
            RunStage::PreparingRoot { .. } => RunAction::PrepareRoot,
            RunStage::Extracting { .. } => RunAction::RunBranches,
            RunStage::Rendering { .. } => RunAction::Render,
            RunStage::Writing { .. } => RunAction::Write,
            RunStage::Discarding { .. } => RunAction::DiscardOutput,
            RunStage::Done { .. } => RunAction::Finish,
        }
    }

    /// The run that has failed with `error`.
    fn fail(writes_file: bool, reserved: bool, error: RunError) -> (run: Run)
        ensures
            run@ == (RunView { writes_file, reserved, stage: failing_stage(reserved, error@) }),
    {
        let stage = if reserved {
            RunStage::Discarding { error }
        } else {
            RunStage::Done { outcome: Err(error) }
        };
        Run { writes_file, reserved, stage }
    }

    /// Takes the run on by one event.
    pub fn advance(self, event: RunEvent) -> (next: Run)
        ensures
            next@ == run_advance_of(self@, event@),
    {
        let writes_file = self.writes_file;
        let reserved = self.reserved;
        match (self.stage, event) {
            (RunStage::LoadingTemplate { base, target }, RunEvent::TemplateLoaded(None)) => {
                let stage = if writes_file {
                    RunStage::ReservingOutput { base, target }
                } else {
                    RunStage::PreparingRoot { base, target }
                };
                Run { writes_file, reserved, stage }
            },
            (RunStage::LoadingTemplate { .. }, RunEvent::TemplateLoaded(Some(cause))) => {
                Run::fail(writes_file, reserved, failure(ErrorKind::RenderFailed, cause))
            },
            (RunStage::ReservingOutput { base, target }, RunEvent::OutputReserved(None)) => {
                Run { writes_file, reserved: true, stage: RunStage::PreparingRoot { base, target } }
            },
            (RunStage::ReservingOutput { .. }, RunEvent::OutputReserved(Some(cause))) => {
                Run::fail(writes_file, reserved, failure(ErrorKind::OutputWriteFailed, cause))
            },
            (RunStage::PreparingRoot { base, target }, RunEvent::RootPrepared(Ok(root))) => {
                let base_copy = WorkingCopy::under(&root, Branch::Base, base);
                let target_copy = WorkingCopy::under(&root, Branch::Target, target);
                Run { writes_file, reserved, stage: RunStage::Extracting { base_copy, target_copy } }
            },
            (RunStage::PreparingRoot { .. }, RunEvent::RootPrepared(Err(cause))) => {
                Run::fail(writes_file, reserved, failure(ErrorKind::MaterializationFailed, cause))
            },
            (RunStage::Extracting { .. }, RunEvent::BranchesJoined(first, second)) => {
                match join(first, second) {
                    Ok((old, new)) => {
                        let model = project(&diff(&old, &new));
                        Run { writes_file, reserved, stage: RunStage::Rendering { model } }
                    },
                    Err(error) => Run::fail(writes_file, reserved, error),
                }
            },
            (RunStage::Rendering { .. }, RunEvent::Rendered(Ok(text))) => {
                Run { writes_file, reserved, stage: RunStage::Writing { text } }
            },
            (RunStage::Rendering { .. }, RunEvent::Rendered(Err(cause))) => {
                Run::fail(writes_file, reserved, failure(ErrorKind::RenderFailed, cause))
            },
            (RunStage::Writing { .. }, RunEvent::Written(None)) => {
                Run { writes_file, reserved, stage: RunStage::Done { outcome: Ok(()) } }
            },
            (RunStage::Writing { .. }, RunEvent::Written(Some(cause))) => {
                Run::fail(writes_file, reserved, failure(ErrorKind::OutputWriteFailed, cause))
            },
            (RunStage::Discarding { error }, RunEvent::OutputDiscarded) => {
                Run { writes_file, reserved: false, stage: RunStage::Done { outcome: Err(error) } }
            },
            (stage, _) => Run { writes_file, reserved, stage },
        }
    }

    /// The outcome of the run, once it has ended.
    pub fn into_outcome(self) -> (outcome: Option<Result<(), RunError>>)
        ensures
            match outcome {
                Some(Ok(_)) => self@.stage == (RunStageView::Done { outcome: Ok(()) }),
                Some(Err(error)) => self@.stage == (RunStageView::Done { outcome: Err(error@) }),
                None => !(self@.stage is Done),
            },
    {
        match self.stage {
            RunStage::Done { outcome } => Some(outcome),
            _ => None,
        }
    }
}

} // verus!
