//! What holds of every branch task, whatever the caller reports: a working
//! copy that was created is released before the task ends, an awaited event
//! takes the task forward, and two tasks do not interfere.

use vstd::prelude::*;

use crate::branch::{action_of, advance_of, BranchAction, EventView, StageView, TaskView};
use crate::error::Branch;
use crate::working_copy::WorkingCopyView;

verus! {

/// The task that `task` becomes when `events` are reported in their order.
pub open spec fn run_of(task: TaskView, events: Seq<EventView>) -> TaskView
    decreases events.len(),
{
    if events.len() == 0 {
        task
    } else {
        run_of(advance_of(task, events[0]), events.drop_first())
    }
}

/// The task before anything was done.
pub open spec fn fresh(copy: WorkingCopyView) -> TaskView {
    TaskView { copy, stage: StageView::Resolving }
}

/// At this stage the working copy exists.
pub open spec fn holds_copy(stage: StageView) -> bool {
    stage is Extracting || stage is Releasing
}

/// The number of working copies that exist at this stage.
pub open spec fn held(stage: StageView) -> nat {
    if holds_copy(stage) {
        1
    } else {
        0
    }
}

/// The event tells that the working copy was created.
pub open spec fn creates_copy(stage: StageView, event: EventView) -> bool {
    stage is CheckingOut && event == EventView::CheckedOut(None)
}

/// The event answers the release of the working copy.
pub open spec fn releases_copy(stage: StageView, event: EventView) -> bool {
    stage is Releasing && event is Released
}

/// How often a working copy is created while `events` are reported.
pub open spec fn created_in(task: TaskView, events: Seq<EventView>) -> nat
    decreases events.len(),
{
    if events.len() == 0 {
        0
    } else {
        let rest = created_in(advance_of(task, events[0]), events.drop_first());
        if creates_copy(task.stage, events[0]) {
            rest + 1
        } else {
            rest
        }
    }
}

/// How often a working copy is released while `events` are reported.
pub open spec fn released_in(task: TaskView, events: Seq<EventView>) -> nat
    decreases events.len(),
{
    if events.len() == 0 {
        0
    } else {
        let rest = released_in(advance_of(task, events[0]), events.drop_first());
        if releases_copy(task.stage, events[0]) {
            rest + 1
        } else {
            rest
        }
    }
}

/// Creations and releases balance with the working copies held before and
/// after.
proof fn lemma_copies_balance(task: TaskView, events: Seq<EventView>)
    ensures
        created_in(task, events) + held(task.stage) == released_in(task, events) + held(
            run_of(task, events).stage,
        ),
    decreases events.len(),
{
    if events.len() > 0 {
        lemma_copies_balance(advance_of(task, events[0]), events.drop_first());
    }
}

/// Every working copy is released: whatever is reported to a task, it
/// creates at most one working copy, and once it has ended it has released
/// what it created. While it has not, it holds a working copy exactly where
/// it has created one and not yet released it.
pub proof fn law_every_working_copy_is_released(copy: WorkingCopyView, events: Seq<EventView>)
    ensures
        run_of(fresh(copy), events).stage is Done ==> created_in(fresh(copy), events)
            == released_in(fresh(copy), events),
        created_in(fresh(copy), events) == released_in(fresh(copy), events) + held(
            run_of(fresh(copy), events).stage,
        ),
        created_in(fresh(copy), events) <= 1,
{
    lemma_copies_balance(fresh(copy), events);
    lemma_creates_once(fresh(copy), events);
}

/// How many working copies a task can still create.
spec fn creations_left(stage: StageView) -> nat {
    match stage {
        StageView::Resolving => 1,
        StageView::Inspecting => 1,
        StageView::CheckingOut => 1,
        _ => 0,
    }
}

/// A task creates no more working copies than its stage leaves it.
proof fn lemma_creates_once(task: TaskView, events: Seq<EventView>)
    ensures
        created_in(task, events) <= creations_left(task.stage),
    decreases events.len(),
{
    if events.len() > 0 {
        lemma_creates_once(advance_of(task, events[0]), events.drop_first());
    }
}

/// The extraction runs on a working copy that exists, and the task does not
/// end while it holds one: it asks for the extraction only at a stage that
/// holds a working copy, and from such a stage the only way on is the
/// release.
pub proof fn law_release_follows_extraction(task: TaskView, event: EventView)
    ensures
        action_of(task.stage) == BranchAction::Extract ==> holds_copy(task.stage),
        task.stage is Extracting ==> advance_of(task, event).stage is Extracting || advance_of(
            task,
            event,
        ).stage is Releasing,
        task.stage is Releasing ==> action_of(task.stage) == BranchAction::Release,
        holds_copy(task.stage) && advance_of(task, event).stage is Done ==> releases_copy(
            task.stage,
            event,
        ),
{
}

/// The event is the answer to what the task asked for at this stage.
pub open spec fn awaits(stage: StageView, event: EventView) -> bool {
    match (stage, event) {
        (StageView::Resolving, EventView::Resolved(_)) => true,
        (StageView::Inspecting, EventView::Inspected(_)) => true,
        (StageView::CheckingOut, EventView::CheckedOut(_)) => true,
        (StageView::Extracting, EventView::Extracted(_)) => true,
        (StageView::Releasing(_), EventView::Released(_)) => true,
        _ => false,
    }
}

/// The number of answers that a task at this stage can still await.
pub open spec fn steps_left(stage: StageView) -> nat {
    match stage {
        StageView::Resolving => 5,
        StageView::Inspecting => 4,
        StageView::CheckingOut => 3,
        StageView::Extracting => 2,
        StageView::Releasing(_) => 1,
        StageView::Done(_) => 0,
    }
}

/// An awaited event takes the task forward, any other leaves it as it is,
/// and a task that has ended stays ended: so a task ends after at most five
/// answers.
pub proof fn law_task_advances(task: TaskView, event: EventView)
    ensures
        awaits(task.stage, event) ==> steps_left(advance_of(task, event).stage) < steps_left(
            task.stage,
        ),
        !awaits(task.stage, event) ==> advance_of(task, event) == task,
        task.stage is Done ==> advance_of(task, event) == task,
        advance_of(task, event).copy == task.copy,
{
}

/// The tasks of the two branches, side by side.
pub struct PairView {
    pub base: TaskView,
    pub target: TaskView,
}

/// The pair after `event` was reported to the task of `branch`.
pub open spec fn deliver(pair: PairView, branch: Branch, event: EventView) -> PairView {
    match branch {
        Branch::Base => PairView { base: advance_of(pair.base, event), target: pair.target },
        Branch::Target => PairView { base: pair.base, target: advance_of(pair.target, event) },
    }
}

/// The pair after the events of `schedule` were reported, each to the task
/// of its branch, in the order of `schedule`.
pub open spec fn run_pair(pair: PairView, schedule: Seq<(Branch, EventView)>) -> PairView
    decreases schedule.len(),
{
    if schedule.len() == 0 {
        pair
    } else {
        run_pair(deliver(pair, schedule[0].0, schedule[0].1), schedule.drop_first())
    }
}

/// The events of `schedule` that belong to `branch`, in their order.
pub open spec fn events_for(schedule: Seq<(Branch, EventView)>, branch: Branch) -> Seq<EventView>
    decreases schedule.len(),
{
    if schedule.len() == 0 {
        Seq::empty()
    } else if schedule[0].0 == branch {
        seq![schedule[0].1] + events_for(schedule.drop_first(), branch)
    } else {
        events_for(schedule.drop_first(), branch)
    }
}

/// The two branches do not interfere: however the events of the two tasks
/// are interleaved, each task ends up where its own events alone take it.
/// So every schedule gives what running one branch after the other gives.
pub proof fn law_branches_do_not_interfere(pair: PairView, schedule: Seq<(Branch, EventView)>)
    ensures
        run_pair(pair, schedule) == (PairView {
            base: run_of(pair.base, events_for(schedule, Branch::Base)),
            target: run_of(pair.target, events_for(schedule, Branch::Target)),
        }),
    decreases schedule.len(),
{
    if schedule.len() > 0 {
        let branch = schedule[0].0;
        let event = schedule[0].1;
        let rest = schedule.drop_first();
        law_branches_do_not_interfere(deliver(pair, branch, event), rest);
        let own = events_for(schedule, branch);
        assert(own[0] == event);
        assert(own.drop_first() =~= events_for(rest, branch));
    }
}

} // verus!
