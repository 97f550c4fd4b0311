//! Joining the two branches: both documents, or the failure of the run.

use vstd::prelude::*;

use crate::branch::{BranchOutcome, OutcomeView};
use crate::error::{lines_of, Branch, ErrorKind, Failure, FailureView};
use crate::symbol::{SymbolDocument, SymbolView};

verus! {

/// What became of the task of one branch.
#[derive(Debug, PartialEq, Eq)]
pub enum TaskOutcome {
    /// The task did not run to completion, for this reason.
    Aborted(String),
    /// The task ran to completion, with this outcome.
    Finished(BranchOutcome),
}

/// The mathematical value of a [`TaskOutcome`].
pub enum TaskOutcomeView {
    Aborted(Seq<char>),
    Finished(OutcomeView),
}

impl View for TaskOutcome {
    type V = TaskOutcomeView;

    open spec fn view(&self) -> TaskOutcomeView {
        match self {
            TaskOutcome::Aborted(cause) => TaskOutcomeView::Aborted(cause@),
            TaskOutcome::Finished(outcome) => TaskOutcomeView::Finished(outcome@),
        }
    }
}

/// The mathematical value of a [`RunError`].
pub struct RunErrorView {
    pub primary: FailureView,
    pub secondary: Seq<FailureView>,
}

/// Why a run failed: the failure that is reported, and the further failures
/// that arose beside it, in the order in which they would have been
/// reported.
#[derive(Debug, PartialEq, Eq)]
pub struct RunError {
    pub primary: Failure,
    pub secondary: Vec<Failure>,
}

/// The values of a sequence of failures, in its order.
pub open spec fn failure_views(failures: Seq<Failure>) -> Seq<FailureView> {
    Seq::new(failures.len(), |i: int| failures[i]@)
}

impl View for RunError {
    type V = RunErrorView;

    open spec fn view(&self) -> RunErrorView {
        RunErrorView { primary: self.primary@, secondary: failure_views(self.secondary@) }
    }
}

/// The lines that tell the first `n` of `failures`, in their order.
pub open spec fn lines_of_all(failures: Seq<FailureView>, n: int) -> Seq<Seq<char>>
    decreases n,
{
    if n <= 0 {
        Seq::empty()
    } else {
        lines_of_all(failures, n - 1) + lines_of(failures[n - 1])
    }
}

/// The message chain of a failed run: the lines of the failure that is
/// reported, then those of the failures beside it, each failure with its
/// most specific line first.
pub open spec fn chain_of(error: RunErrorView) -> Seq<Seq<char>> {
    lines_of(error.primary) + lines_of_all(error.secondary, error.secondary.len() as int)
}

/// The values of a sequence of lines, in its order.
pub open spec fn line_views(lines: Seq<String>) -> Seq<Seq<char>> {
    Seq::new(lines.len(), |i: int| lines[i]@)
}

/// Appends the lines that tell `failure`.
fn push_lines(failure: &Failure, lines: &mut Vec<String>)
    ensures
        line_views(final(lines)@) == line_views(old(lines)@) + lines_of(failure@),
{
    let ghost before = line_views(lines@);
    if !failure.detail.as_str().is_empty() {
        lines.push(failure.detail.clone());
    }
    lines.push(failure.headline());
    assert(line_views(lines@) =~= before + lines_of(failure@));
}

impl RunError {
    /// The message chain of the failed run, the most specific cause first.
    pub fn chain(&self) -> (lines: Vec<String>)
        ensures
            line_views(lines@) == chain_of(self@),
    {
        let mut lines: Vec<String> = Vec::new();
        assert(line_views(lines@) =~= Seq::<Seq<char>>::empty());
        push_lines(&self.primary, &mut lines);
        let mut i: usize = 0;
        assert(line_views(lines@) =~= lines_of(self@.primary) + lines_of_all(
            self@.secondary,
            0,
        ));
        while i < self.secondary.len()
            invariant
                i <= self.secondary@.len(),
                self@.secondary.len() == self.secondary@.len(),
                line_views(lines@) == lines_of(self@.primary) + lines_of_all(
                    self@.secondary,
                    i as int,
                ),
            decreases self.secondary@.len() - i,
        {
            let ghost before = line_views(lines@);
            push_lines(&self.secondary[i], &mut lines);
            assert(self@.secondary[i as int] == self.secondary@[i as int]@);
            assert(line_views(lines@) =~= lines_of(self@.primary) + lines_of_all(
                self@.secondary,
                i + 1,
            ));
            i += 1;
        }
        lines
    }
}

/// The failures that the task of `branch` contributes, first the one it
/// reports.
pub open spec fn failures_of(outcome: TaskOutcomeView, branch: Branch) -> Seq<FailureView> {
    match outcome {
        TaskOutcomeView::Aborted(cause) => seq![
            FailureView { kind: ErrorKind::TaskFailed, branch: Some(branch), detail: cause },
        ],
        TaskOutcomeView::Finished(OutcomeView::Succeeded(_)) => Seq::empty(),
        TaskOutcomeView::Finished(OutcomeView::Failed { failure, suppressed }) => match suppressed {
            Some(other) => seq![failure, other],
            None => seq![failure],
        },
    }
}

/// The document of a task that succeeded.
pub open spec fn document_of(outcome: TaskOutcomeView) -> Seq<SymbolView> {
    match outcome {
        TaskOutcomeView::Finished(OutcomeView::Succeeded(doc)) => doc,
        _ => Seq::empty(),
    }
}

/// The result of joining the two branches: both documents where both tasks
/// succeeded; otherwise the failures of the base followed by those of the
/// target, the first of them reported and the others kept beside it.
pub open spec fn joined(base: TaskOutcomeView, target: TaskOutcomeView) -> Result<
    (Seq<SymbolView>, Seq<SymbolView>),
    RunErrorView,
> {
    let failures = failures_of(base, Branch::Base) + failures_of(target, Branch::Target);
    if failures.len() == 0 {
        Ok((document_of(base), document_of(target)))
    } else {
        Err(RunErrorView { primary: failures[0], secondary: failures.drop_first() })
    }
}

/// The value of the result of a join.
pub open spec fn join_view(result: Result<(SymbolDocument, SymbolDocument), RunError>) -> Result<
    (Seq<SymbolView>, Seq<SymbolView>),
    RunErrorView,
> {
    match result {
        Ok((base, target)) => Ok((base@, target@)),
        Err(error) => Err(error@),
    }
}

/// Appends the failures that the task of `branch` contributes, and hands
/// back its document where it has one.
fn collect(outcome: TaskOutcome, branch: Branch, failures: &mut Vec<Failure>) -> (doc: Option<
    SymbolDocument,
>)
    ensures
        failure_views(final(failures)@) == failure_views(old(failures)@) + failures_of(
            outcome@,
            branch,
        ),
        doc.is_some() == (failures_of(outcome@, branch).len() == 0),
        doc.is_some() ==> doc.unwrap()@ == document_of(outcome@),
{
    let ghost before = failure_views(failures@);
    match outcome {
        TaskOutcome::Aborted(cause) => {
            failures.push(Failure { kind: ErrorKind::TaskFailed, branch: Some(branch), detail: cause });
            assert(failure_views(failures@) =~= before + failures_of(outcome@, branch));
            None
        },
        TaskOutcome::Finished(BranchOutcome::Succeeded(doc)) => {
            assert(failure_views(failures@) =~= before + failures_of(outcome@, branch));
            Some(doc)
        },
        TaskOutcome::Finished(BranchOutcome::Failed { failure, suppressed }) => {
            failures.push(failure);
            match suppressed {
                Some(other) => {
                    failures.push(other);
                },
                None => {},
            }
            assert(failure_views(failures@) =~= before + failures_of(outcome@, branch));
            None
        },
    }
}

/// Joins the two branches.
///
/// Both documents are handed back where both tasks succeeded, and nothing
/// of them otherwise. A task that did not run to completion counts as
/// failed, with the kind `TaskFailed`. Where both tasks failed the failure
/// of the base is the one reported, and that of the target is kept as a
/// secondary cause.
pub fn join(base: TaskOutcome, target: TaskOutcome) -> (result: Result<
    (SymbolDocument, SymbolDocument),
    RunError,
>)
    ensures
        join_view(result) == joined(base@, target@),
{
    let mut failures: Vec<Failure> = Vec::new();
    assert(failure_views(failures@) =~= Seq::<FailureView>::empty());
    let base_doc = collect(base, Branch::Base, &mut failures);
    let target_doc = collect(target, Branch::Target, &mut failures);
    let ghost all = failure_views(failures@);
    assert(all =~= failures_of(base@, Branch::Base) + failures_of(target@, Branch::Target));
    if failures.len() == 0 {
        Ok((base_doc.unwrap(), target_doc.unwrap()))
    } else {
        let primary = failures.remove(0);
        assert(failure_views(failures@) =~= all.drop_first());
        Err(RunError { primary, secondary: failures })
    }
}

} // verus!
