use pubapi_diff::branch::BranchOutcome;
use pubapi_diff::error::{Branch, ErrorKind, Failure};
use pubapi_diff::join::{join, RunError, TaskOutcome};
use pubapi_diff::symbol::{Symbol, SymbolDocument};

fn doc(path: &str) -> SymbolDocument {
    SymbolDocument::from_symbols(vec![Symbol::new(path, "sig")])
}

fn ok(path: &str) -> TaskOutcome {
    TaskOutcome::Finished(BranchOutcome::Succeeded(doc(path)))
}

fn failed(kind: ErrorKind, branch: Branch, detail: &str) -> TaskOutcome {
    TaskOutcome::Finished(BranchOutcome::Failed {
        failure: Failure::new(kind, Some(branch), detail),
        suppressed: None,
    })
}

#[test]
fn both_documents_come_back_in_their_places() {
    assert_eq!(join(ok("b"), ok("t")), Ok((doc("b"), doc("t"))));
}

#[test]
fn failure_of_the_base_fails_the_join() {
    let result = join(failed(ErrorKind::ExtractionFailed, Branch::Base, "boom"), ok("t"));
    assert_eq!(
        result,
        Err(RunError {
            primary: Failure::new(ErrorKind::ExtractionFailed, Some(Branch::Base), "boom"),
            secondary: vec![],
        })
    );
}

#[test]
fn failure_of_the_target_fails_the_join() {
    let result = join(ok("b"), failed(ErrorKind::UnknownReference, Branch::Target, "v9"));
    assert_eq!(
        result,
        Err(RunError {
            primary: Failure::new(ErrorKind::UnknownReference, Some(Branch::Target), "v9"),
            secondary: vec![],
        })
    );
}

#[test]
fn base_failure_is_reported_and_target_failure_kept() {
    let result = join(
        failed(ErrorKind::ExtractionFailed, Branch::Base, "first"),
        failed(ErrorKind::PathConflict, Branch::Target, "second"),
    );
    assert_eq!(
        result,
        Err(RunError {
            primary: Failure::new(ErrorKind::ExtractionFailed, Some(Branch::Base), "first"),
            secondary: vec![Failure::new(ErrorKind::PathConflict, Some(Branch::Target), "second")],
        })
    );
}

#[test]
fn task_that_did_not_finish_is_a_task_failure() {
    let result = join(TaskOutcome::Aborted("Failed to join thread".to_string()), ok("t"));
    assert_eq!(
        result,
        Err(RunError {
            primary: Failure::new(ErrorKind::TaskFailed, Some(Branch::Base), "Failed to join thread"),
            secondary: vec![],
        })
    );
    let result = join(ok("b"), TaskOutcome::Aborted("panicked".to_string()));
    assert_eq!(
        result,
        Err(RunError {
            primary: Failure::new(ErrorKind::TaskFailed, Some(Branch::Target), "panicked"),
            secondary: vec![],
        })
    );
}

#[test]
fn every_failure_is_kept_in_order() {
    let base = TaskOutcome::Finished(BranchOutcome::Failed {
        failure: Failure::new(ErrorKind::MaterializationFailed, Some(Branch::Base), "remove failed"),
        suppressed: Some(Failure::new(ErrorKind::ExtractionFailed, Some(Branch::Base), "boom")),
    });
    let result = join(base, TaskOutcome::Aborted("gone".to_string()));
    assert_eq!(
        result,
        Err(RunError {
            primary: Failure::new(ErrorKind::MaterializationFailed, Some(Branch::Base), "remove failed"),
            secondary: vec![
                Failure::new(ErrorKind::ExtractionFailed, Some(Branch::Base), "boom"),
                Failure::new(ErrorKind::TaskFailed, Some(Branch::Target), "gone"),
            ],
        })
    );
}
