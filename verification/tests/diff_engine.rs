use pubapi_diff::diff::{diff, ChangedSymbol, DiffResult};
use pubapi_diff::symbol::{Symbol, SymbolDocument};

fn doc(symbols: &[(&str, &str)]) -> SymbolDocument {
    SymbolDocument::from_symbols(symbols.iter().map(|(p, s)| Symbol::new(p, s)).collect())
}

fn signatures(symbols: &[Symbol]) -> Vec<String> {
    symbols.iter().map(|s| s.signature.clone()).collect()
}

fn pairs(changes: &[ChangedSymbol]) -> Vec<(String, String)> {
    changes.iter().map(|c| (c.old.signature.clone(), c.new.signature.clone())).collect()
}

fn is_empty(d: &DiffResult) -> bool {
    d.added.is_empty() && d.removed.is_empty() && d.changed.is_empty()
}

#[test]
fn added_removed_and_changed_are_told_apart() {
    let base = doc(&[("foo::bar", "foo::bar(i32)->i32"), ("foo::baz", "foo::baz()->()")]);
    let target = doc(&[("foo::bar", "foo::bar(i32,i32)->i32"), ("foo::qux", "foo::qux()->()")]);
    let d = diff(&base, &target);
    assert_eq!(d.added, vec![Symbol::new("foo::qux", "foo::qux()->()")]);
    assert_eq!(d.removed, vec![Symbol::new("foo::baz", "foo::baz()->()")]);
    assert_eq!(
        d.changed,
        vec![ChangedSymbol {
            old: Symbol::new("foo::bar", "foo::bar(i32)->i32"),
            new: Symbol::new("foo::bar", "foo::bar(i32,i32)->i32"),
        }]
    );
}

#[test]
fn identical_documents_do_not_differ() {
    let a = doc(&[("a", "fn a()"), ("b", "fn b()"), ("c::d", "struct c::d")]);
    let b = doc(&[("a", "fn a()"), ("b", "fn b()"), ("c::d", "struct c::d")]);
    assert!(is_empty(&diff(&a, &a)));
    assert!(is_empty(&diff(&a, &b)));
}

#[test]
fn identical_documents_with_repeated_paths_do_not_differ() {
    let a = doc(&[("a", "fn a()"), ("a", "fn a(u8)"), ("b", "fn b()")]);
    assert!(is_empty(&diff(&a, &a)));
}

#[test]
fn empty_documents_do_not_differ() {
    let a = SymbolDocument::new();
    let b = SymbolDocument::new();
    assert!(is_empty(&diff(&a, &b)));
}

#[test]
fn empty_base_adds_everything() {
    let base = SymbolDocument::new();
    let target = doc(&[("z", "fn z()"), ("a", "fn a()"), ("m", "fn m()")]);
    let d = diff(&base, &target);
    assert_eq!(d.added, target.symbols);
    assert!(d.removed.is_empty());
    assert!(d.changed.is_empty());
}

#[test]
fn empty_target_removes_everything() {
    let base = doc(&[("z", "fn z()"), ("a", "fn a()"), ("m", "fn m()")]);
    let target = SymbolDocument::new();
    let d = diff(&base, &target);
    assert!(d.added.is_empty());
    assert_eq!(d.removed, base.symbols);
    assert!(d.changed.is_empty());
}

#[test]
fn lists_keep_the_order_of_their_document() {
    let base = doc(&[
        ("z", "fn z()"),
        ("k", "fn k()"),
        ("y", "fn y()"),
        ("b", "fn b()"),
        ("x", "fn x()"),
    ]);
    let target = doc(&[
        ("q", "fn q()"),
        ("x", "fn x(u8)"),
        ("k", "fn k()"),
        ("c", "fn c()"),
        ("z", "fn z(u8)"),
        ("a", "fn a()"),
    ]);
    let d = diff(&base, &target);
    assert_eq!(signatures(&d.added), vec!["fn q()", "fn c()", "fn a()"]);
    assert_eq!(signatures(&d.removed), vec!["fn y()", "fn b()"]);
    assert_eq!(
        pairs(&d.changed),
        vec![
            ("fn z()".to_string(), "fn z(u8)".to_string()),
            ("fn x()".to_string(), "fn x(u8)".to_string()),
        ]
    );
}

#[test]
fn changed_symbol_is_neither_added_nor_removed() {
    let base = doc(&[("a", "fn a()")]);
    let target = doc(&[("a", "fn a(u8)")]);
    let d = diff(&base, &target);
    assert!(d.added.is_empty());
    assert!(d.removed.is_empty());
    assert_eq!(pairs(&d.changed), vec![("fn a()".to_string(), "fn a(u8)".to_string())]);
}

#[test]
fn diff_the_other_way_round_swaps_the_lists() {
    let a = doc(&[("p", "fn p()"), ("q", "fn q()"), ("r", "fn r()"), ("s", "fn s()")]);
    let b = doc(&[("s", "fn s(u8)"), ("t", "fn t()"), ("q", "fn q(u8)"), ("p", "fn p()")]);
    let forth = diff(&a, &b);
    let back = diff(&b, &a);
    assert_eq!(forth.added, back.removed);
    assert_eq!(forth.removed, back.added);
    assert_eq!(forth.changed.len(), back.changed.len());
    for change in forth.changed.iter() {
        assert!(back.changed.iter().any(|c| c.old == change.new && c.new == change.old));
    }
    for change in back.changed.iter() {
        assert!(forth.changed.iter().any(|c| c.old == change.new && c.new == change.old));
    }
    assert_eq!(
        pairs(&forth.changed),
        vec![
            ("fn q()".to_string(), "fn q(u8)".to_string()),
            ("fn s()".to_string(), "fn s(u8)".to_string()),
        ]
    );
    assert_eq!(
        pairs(&back.changed),
        vec![
            ("fn s(u8)".to_string(), "fn s()".to_string()),
            ("fn q(u8)".to_string(), "fn q()".to_string()),
        ]
    );
}

#[test]
fn paths_of_the_lists_are_classified() {
    let base = doc(&[("a", "fn a()"), ("b", "fn b()"), ("c", "fn c()")]);
    let target = doc(&[("b", "fn b(u8)"), ("c", "fn c()"), ("d", "fn d()")]);
    let d = diff(&base, &target);
    for s in d.added.iter() {
        assert!(!base.contains_path(s.path()));
        assert!(target.contains_path(s.path()));
    }
    for s in d.removed.iter() {
        assert!(base.contains_path(s.path()));
        assert!(!target.contains_path(s.path()));
    }
    for c in d.changed.iter() {
        assert_eq!(c.old.path, c.new.path);
        assert_ne!(c.old.signature, c.new.signature);
        assert!(base.contains_path(c.old.path()));
        assert!(target.contains_path(c.new.path()));
    }
    assert_eq!(signatures(&d.added), vec!["fn d()"]);
    assert_eq!(signatures(&d.removed), vec!["fn a()"]);
    assert_eq!(pairs(&d.changed), vec![("fn b()".to_string(), "fn b(u8)".to_string())]);
}

#[test]
fn repeated_path_is_matched_by_its_first_symbol() {
    let base = doc(&[("f", "fn f(u8)"), ("f", "fn f(u16)"), ("g", "fn g()"), ("g", "fn g(u8)")]);
    let target = doc(&[("f", "fn f(u32)"), ("f", "fn f(u8)"), ("h", "fn h()"), ("h", "fn h(u8)")]);
    let d = diff(&base, &target);
    assert_eq!(signatures(&d.added), vec!["fn h()", "fn h(u8)"]);
    assert_eq!(signatures(&d.removed), vec!["fn g()", "fn g(u8)"]);
    assert_eq!(pairs(&d.changed), vec![("fn f(u8)".to_string(), "fn f(u32)".to_string())]);
}

#[test]
fn every_symbol_of_a_repeated_path_is_added_or_removed() {
    let empty = SymbolDocument::new();
    let twice = doc(&[("p", "a"), ("q", "c"), ("p", "b")]);
    let d = diff(&empty, &twice);
    assert_eq!(d.added, twice.symbols);
    assert!(d.removed.is_empty());
    assert!(d.changed.is_empty());
    let d = diff(&twice, &empty);
    assert!(d.added.is_empty());
    assert_eq!(d.removed, twice.symbols);
    assert!(d.changed.is_empty());
}

#[test]
fn later_symbols_of_a_shared_path_are_not_compared() {
    let base = doc(&[("p", "a"), ("p", "b")]);
    let target = doc(&[("p", "a"), ("p", "c")]);
    assert!(is_empty(&diff(&base, &target)));
}

#[test]
fn same_signature_under_another_path_is_added_and_removed() {
    let base = doc(&[("old::f", "fn()")]);
    let target = doc(&[("new::f", "fn()")]);
    let d = diff(&base, &target);
    assert_eq!(d.added, vec![Symbol::new("new::f", "fn()")]);
    assert_eq!(d.removed, vec![Symbol::new("old::f", "fn()")]);
    assert!(d.changed.is_empty());
}

#[test]
fn diff_is_the_same_on_every_call() {
    let base = doc(&[("a", "fn a()"), ("b", "fn b()")]);
    let target = doc(&[("b", "fn b(u8)"), ("c", "fn c()")]);
    assert_eq!(diff(&base, &target), diff(&base, &target));
}
