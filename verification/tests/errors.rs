use pubapi_diff::error::{Branch, ErrorKind, Failure, Phase};
use pubapi_diff::join::RunError;

#[test]
fn every_kind_has_its_words_and_its_phase() {
    let table = [
        (ErrorKind::InvalidReference, "invalid reference", Some(Phase::Validate)),
        (ErrorKind::UnknownReference, "unknown reference", Some(Phase::Materialize)),
        (ErrorKind::PathConflict, "path conflict", Some(Phase::Materialize)),
        (ErrorKind::MaterializationFailed, "materialization failed", Some(Phase::Materialize)),
        (ErrorKind::ExtractionFailed, "extraction failed", Some(Phase::Extract)),
        (ErrorKind::ExtractionOutputInvalid, "extraction output invalid", Some(Phase::Extract)),
        (ErrorKind::TaskFailed, "task failed", None),
        (ErrorKind::RenderFailed, "render failed", Some(Phase::Render)),
        (ErrorKind::OutputWriteFailed, "output write failed", Some(Phase::Write)),
    ];
    for (kind, text, phase) in table {
        assert_eq!(kind.text(), text);
        assert_eq!(kind.phase(), phase);
    }
}

#[test]
fn failure_keeps_what_it_is_given() {
    let f = Failure::new(ErrorKind::ExtractionFailed, Some(Branch::Target), "error[E0308]: mismatched types");
    assert_eq!(f.kind, ErrorKind::ExtractionFailed);
    assert_eq!(f.branch, Some(Branch::Target));
    assert_eq!(f.detail, "error[E0308]: mismatched types");
    assert_eq!(f.clone(), f);
}

#[test]
fn headline_names_kind_and_branch() {
    let f = Failure::new(ErrorKind::ExtractionFailed, Some(Branch::Base), "boom");
    assert_eq!(f.headline(), "extraction failed in base");
    let g = Failure::new(ErrorKind::PathConflict, Some(Branch::Target), "");
    assert_eq!(g.headline(), "path conflict in target");
    let h = Failure::new(ErrorKind::RenderFailed, None, "boom");
    assert_eq!(h.headline(), "render failed");
}

#[test]
fn chain_puts_the_most_specific_cause_first() {
    let error = RunError {
        primary: Failure::new(ErrorKind::ExtractionFailed, Some(Branch::Base), "could not compile `x`"),
        secondary: vec![
            Failure::new(ErrorKind::TaskFailed, Some(Branch::Target), ""),
            Failure::new(ErrorKind::MaterializationFailed, Some(Branch::Target), "disk full"),
        ],
    };
    assert_eq!(
        error.chain(),
        vec![
            "could not compile `x`",
            "extraction failed in base",
            "task failed in target",
            "disk full",
            "materialization failed in target",
        ]
    );
}

#[test]
fn chain_of_a_single_failure_without_cause() {
    let error = RunError {
        primary: Failure::new(ErrorKind::OutputWriteFailed, None, ""),
        secondary: vec![],
    };
    assert_eq!(error.chain(), vec!["output write failed"]);
}
