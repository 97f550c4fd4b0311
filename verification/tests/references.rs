use pubapi_diff::error::Branch;
use pubapi_diff::reference::{is_legal, Reference};
use pubapi_diff::working_copy::{Tempdir, WorkingCopy};

#[test]
fn empty_name_is_not_a_reference() {
    assert!(!is_legal(""));
    assert_eq!(Reference::parse(""), None);
}

#[test]
fn name_with_nul_is_not_a_reference() {
    assert!(!is_legal("\0"));
    assert!(!is_legal("main\0"));
    assert!(!is_legal("\0main"));
    assert!(!is_legal("ma\0in"));
    assert_eq!(Reference::parse("ma\0in"), None);
}

#[test]
fn other_names_are_references() {
    for name in ["main", "v1.2.3", "feature/x", "HEAD~2", "0", "h\u{e9}ad", " "] {
        assert!(is_legal(name));
        let reference = Reference::parse(name).unwrap();
        assert_eq!(reference.as_str(), name);
        assert_eq!(reference.clone(), reference);
    }
}

#[test]
fn tempdir_tells_its_path_and_its_owner() {
    let provided = Tempdir::Provided("/var/work".to_string());
    let generated = Tempdir::Generated("/tmp/.tmpA1b2".to_string());
    assert_eq!(provided.path(), "/var/work");
    assert_eq!(generated.path(), "/tmp/.tmpA1b2");
    assert!(!provided.is_generated());
    assert!(generated.is_generated());
}

#[test]
fn working_copies_lie_side_by_side_below_the_root() {
    let root = Tempdir::Provided("/var/work".to_string());
    let base = WorkingCopy::under(&root, Branch::Base, Reference::parse("v1").unwrap());
    let target = WorkingCopy::under(&root, Branch::Target, Reference::parse("v2").unwrap());
    assert_eq!(base.dir, "/var/work/base");
    assert_eq!(target.dir, "/var/work/target");
    assert_eq!(base.branch, Branch::Base);
    assert_eq!(target.branch, Branch::Target);
    assert_eq!(base.reference.as_str(), "v1");
    assert_eq!(target.reference.as_str(), "v2");
    assert_ne!(base.dir, target.dir);
    assert!(!base.dir.starts_with(target.dir.as_str()));
    assert!(!target.dir.starts_with(base.dir.as_str()));
    assert_eq!(base.clone(), base);
}

#[test]
fn working_copies_below_an_empty_root() {
    let root = Tempdir::Generated(String::new());
    let base = WorkingCopy::under(&root, Branch::Base, Reference::parse("a").unwrap());
    let target = WorkingCopy::under(&root, Branch::Target, Reference::parse("a").unwrap());
    assert_eq!(base.dir, "/base");
    assert_eq!(target.dir, "/target");
}

#[test]
fn branches_have_names() {
    assert_eq!(Branch::Base.name(), "base");
    assert_eq!(Branch::Target.name(), "target");
}
