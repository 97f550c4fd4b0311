//! What holds of every run, whatever the caller reports: an illegal
//! reference name ends it before anything is done, an output destination
//! that exists is left alone, a failed run leaves no output behind, and the
//! documents are compared only once both are there.

use vstd::prelude::*;

use crate::branch::OutcomeView;
use crate::diff::diff_between;
use crate::error::ErrorKind;
use crate::join::TaskOutcomeView;
use crate::projection::projection_of;
use crate::reference::is_legal_reference;
use crate::run::{
    run_action_of, run_advance_of, start_of, RunAction, RunEventView, RunStageView, RunView,
};

verus! {

/// The run that `run` becomes when `events` are reported in their order.
pub open spec fn run_trace(run: RunView, events: Seq<RunEventView>) -> RunView
    decreases events.len(),
{
    if events.len() == 0 {
        run
    } else {
        run_trace(run_advance_of(run, events[0]), events.drop_first())
    }
}

/// A run that has ended stays as it is.
proof fn lemma_done_stays(run: RunView, events: Seq<RunEventView>)
    requires
        run.stage is Done,
    ensures
        run_trace(run, events) == run,
    decreases events.len(),
{
    if events.len() > 0 {
        lemma_done_stays(run_advance_of(run, events[0]), events.drop_first());
    }
}

/// An illegal reference name ends the run before anything is done: the run
/// begins ended, with the kind `InvalidReference`, it asks for nothing, and
/// nothing that is reported to it changes that. No temporary root is asked
/// for, and no file is touched.
pub proof fn law_invalid_reference_fails_first(
    base: Seq<char>,
    target: Seq<char>,
    writes_file: bool,
    events: Seq<RunEventView>,
)
    requires
        !is_legal_reference(base) || !is_legal_reference(target),
    ensures
        run_trace(start_of(base, target, writes_file), events) == start_of(
            base,
            target,
            writes_file,
        ),
        run_action_of(start_of(base, target, writes_file).stage) == RunAction::Finish,
        start_of(base, target, writes_file).stage matches RunStageView::Done { outcome: Err(error) }
            && error.primary.kind == ErrorKind::InvalidReference,
{
    lemma_done_stays(start_of(base, target, writes_file), events);
}

/// The flag of the run agrees with its stage: before the output
/// destination is created the run has none; from then on it has one exactly
/// where the output goes to a destination of its own; it removes one only
/// where it has one; and it ends without one where it failed.
pub open spec fn settled(run: RunView) -> bool {
    match run.stage {
        RunStageView::LoadingTemplate { .. } => !run.reserved,
        RunStageView::ReservingOutput { .. } => !run.reserved && run.writes_file,
        RunStageView::PreparingRoot { .. } => run.reserved == run.writes_file,
        RunStageView::Extracting { .. } => run.reserved == run.writes_file,
        RunStageView::Rendering { .. } => run.reserved == run.writes_file,
        RunStageView::Writing { .. } => run.reserved == run.writes_file,
        RunStageView::Discarding { .. } => run.reserved,
        RunStageView::Done { outcome: Ok(_) } => run.reserved == run.writes_file,
        RunStageView::Done { outcome: Err(_) } => !run.reserved,
    }
}

/// One event keeps a run settled.
proof fn lemma_settled_step(run: RunView, event: RunEventView)
    requires
        settled(run),
    ensures
        settled(run_advance_of(run, event)),
{
}

/// Events keep a run settled, and leave where its output goes.
proof fn lemma_settled_trace(run: RunView, events: Seq<RunEventView>)
    requires
        settled(run),
    ensures
        settled(run_trace(run, events)),
        run_trace(run, events).writes_file == run.writes_file,
    decreases events.len(),
{
    if events.len() > 0 {
        lemma_settled_step(run, events[0]);
        lemma_settled_trace(run_advance_of(run, events[0]), events.drop_first());
    }
}

/// A failed run leaves no output behind: whatever is reported to a run,
/// where it has ended in failure the output destination that it may have
/// created has been removed again, and where it has ended well the
/// destination is there exactly where the output goes to one.
pub proof fn law_failed_run_leaves_no_output(
    base: Seq<char>,
    target: Seq<char>,
    writes_file: bool,
    events: Seq<RunEventView>,
)
    ensures
        settled(run_trace(start_of(base, target, writes_file), events)),
        run_trace(start_of(base, target, writes_file), events).stage matches RunStageView::Done {
            outcome: Err(_),
        } ==> !run_trace(start_of(base, target, writes_file), events).reserved,
        run_trace(start_of(base, target, writes_file), events).stage matches RunStageView::Done {
            outcome: Ok(_),
        } ==> run_trace(start_of(base, target, writes_file), events).reserved == writes_file,
{
    lemma_settled_trace(start_of(base, target, writes_file), events);
}

/// An output destination that exists is left alone: where the destination
/// could not be created the run ends at once with the kind
/// `OutputWriteFailed`, having created nothing, and asks neither for a
/// write nor for a removal.
pub proof fn law_existing_output_is_left_alone(run: RunView, cause: Seq<char>)
    requires
        settled(run),
        run.stage is ReservingOutput,
    ensures
        run_advance_of(run, RunEventView::OutputReserved(Some(cause))).stage
            matches RunStageView::Done { outcome: Err(error) } && error.primary.kind
            == ErrorKind::OutputWriteFailed && error.primary.detail == cause,
        !run_advance_of(run, RunEventView::OutputReserved(Some(cause))).reserved,
        run_action_of(run_advance_of(run, RunEventView::OutputReserved(Some(cause))).stage)
            == RunAction::Finish,
{
}

/// The documents are compared only once both are there: a run goes from
/// the extraction to the rendering exactly where both tasks succeeded, and
/// the model it then holds is the projection of the diff of the two
/// documents. In every other case it fails and holds no model.
pub proof fn law_diff_sees_both_documents(
    run: RunView,
    base: TaskOutcomeView,
    target: TaskOutcomeView,
)
    requires
        run.stage is Extracting,
    ensures
        match (base, target) {
            (
                TaskOutcomeView::Finished(OutcomeView::Succeeded(old)),
                TaskOutcomeView::Finished(OutcomeView::Succeeded(new)),
            ) => run_advance_of(run, RunEventView::BranchesJoined(base, target)).stage == (
            RunStageView::Rendering { model: projection_of(diff_between(old, new)) }),
            _ => {
                let next = run_advance_of(run, RunEventView::BranchesJoined(base, target));
                next.stage is Discarding || next.stage matches RunStageView::Done {
                    outcome: Err(_),
                }
            },
        },
{
}

/// The event is the answer to what the run asked for at this stage.
pub open spec fn run_awaits(stage: RunStageView, event: RunEventView) -> bool {
    match (stage, event) {
        (RunStageView::LoadingTemplate { .. }, RunEventView::TemplateLoaded(_)) => true,
        (RunStageView::ReservingOutput { .. }, RunEventView::OutputReserved(_)) => true,
        (RunStageView::PreparingRoot { .. }, RunEventView::RootPrepared(_)) => true,
        (RunStageView::Extracting { .. }, RunEventView::BranchesJoined(_, _)) => true,
        (RunStageView::Rendering { .. }, RunEventView::Rendered(_)) => true,
        (RunStageView::Writing { .. }, RunEventView::Written(_)) => true,
        (RunStageView::Discarding { .. }, RunEventView::OutputDiscarded) => true,
        _ => false,
    }
}

/// The number of answers that a run at this stage can still await.
pub open spec fn run_steps_left(stage: RunStageView) -> nat {
    match stage {
        RunStageView::LoadingTemplate { .. } => 7,
        RunStageView::ReservingOutput { .. } => 6,
        RunStageView::PreparingRoot { .. } => 5,
        RunStageView::Extracting { .. } => 4,
        RunStageView::Rendering { .. } => 3,
        RunStageView::Writing { .. } => 2,
        RunStageView::Discarding { .. } => 1,
        RunStageView::Done { .. } => 0,
    }
}

/// An awaited event takes the run forward, any other leaves it as it is:
/// so a run ends after at most seven answers.
pub proof fn law_run_advances(run: RunView, event: RunEventView)
    ensures
        run_awaits(run.stage, event) ==> run_steps_left(run_advance_of(run, event).stage)
            < run_steps_left(run.stage),
        !run_awaits(run.stage, event) ==> run_advance_of(run, event) == run,
        run_advance_of(run, event).writes_file == run.writes_file,
{
}

} // verus!
