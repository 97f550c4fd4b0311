use pubapi_diff::diff::diff;
use pubapi_diff::symbol::Symbol;
use pubapi_diff::tokens::{document_from_items, symbol_from_tokens, Token, TokenKind};

fn t(kind: TokenKind, text: &str) -> Token {
    Token::new(kind, text)
}

fn function_item() -> Vec<Token> {
    vec![
        t(TokenKind::Qualifier, "pub"),
        t(TokenKind::Whitespace, " "),
        t(TokenKind::Kind, "fn"),
        t(TokenKind::Whitespace, " "),
        t(TokenKind::Identifier, "foo"),
        t(TokenKind::Symbol, "::"),
        t(TokenKind::Function, "bar"),
        t(TokenKind::Symbol, "("),
        t(TokenKind::Primitive, "i32"),
        t(TokenKind::Symbol, ")"),
        t(TokenKind::Symbol, " -> "),
        t(TokenKind::Primitive, "i32"),
    ]
}

#[test]
fn function_is_named_by_its_path() {
    let s = symbol_from_tokens(&function_item());
    assert_eq!(s.path, "foo::bar");
    assert_eq!(s.signature, "pub fn foo::bar(i32) -> i32");
}

#[test]
fn path_ends_before_generic_arguments() {
    let item = vec![
        t(TokenKind::Qualifier, "pub"),
        t(TokenKind::Whitespace, " "),
        t(TokenKind::Kind, "struct"),
        t(TokenKind::Whitespace, " "),
        t(TokenKind::Identifier, "a"),
        t(TokenKind::Symbol, "::"),
        t(TokenKind::Type, "B"),
        t(TokenKind::Symbol, "<"),
        t(TokenKind::Generic, "T"),
        t(TokenKind::Symbol, ">"),
    ];
    let s = symbol_from_tokens(&item);
    assert_eq!(s.path, "a::B");
    assert_eq!(s.signature, "pub struct a::B<T>");
}

#[test]
fn path_may_run_to_the_last_token() {
    let item = vec![
        t(TokenKind::Annotation, "#[non_exhaustive]"),
        t(TokenKind::Whitespace, " "),
        t(TokenKind::Qualifier, "pub"),
        t(TokenKind::Whitespace, " "),
        t(TokenKind::Kind, "mod"),
        t(TokenKind::Whitespace, " "),
        t(TokenKind::Identifier, "a"),
        t(TokenKind::Symbol, "::"),
        t(TokenKind::Identifier, "b"),
    ];
    let s = symbol_from_tokens(&item);
    assert_eq!(s.path, "a::b");
    assert_eq!(s.signature, "#[non_exhaustive] pub mod a::b");
}

#[test]
fn implementation_block_is_named_by_its_rendering() {
    let item = vec![
        t(TokenKind::Keyword, "impl"),
        t(TokenKind::Whitespace, " "),
        t(TokenKind::Identifier, "core"),
        t(TokenKind::Symbol, "::"),
        t(TokenKind::Type, "Clone"),
        t(TokenKind::Whitespace, " "),
        t(TokenKind::Keyword, "for"),
        t(TokenKind::Whitespace, " "),
        t(TokenKind::Identifier, "a"),
        t(TokenKind::Symbol, "::"),
        t(TokenKind::Type, "B"),
    ];
    let s = symbol_from_tokens(&item);
    assert_eq!(s.path, "impl core::Clone for a::B");
    assert_eq!(s.signature, "impl core::Clone for a::B");
}

#[test]
fn keyword_after_the_name_does_not_count() {
    let item = vec![
        t(TokenKind::Qualifier, "pub"),
        t(TokenKind::Whitespace, " "),
        t(TokenKind::Kind, "fn"),
        t(TokenKind::Whitespace, " "),
        t(TokenKind::Function, "f"),
        t(TokenKind::Symbol, "("),
        t(TokenKind::Keyword, "impl"),
        t(TokenKind::Whitespace, " "),
        t(TokenKind::Type, "Copy"),
        t(TokenKind::Symbol, ")"),
    ];
    let s = symbol_from_tokens(&item);
    assert_eq!(s.path, "f");
    assert_eq!(s.signature, "pub fn f(impl Copy)");
}

#[test]
fn item_without_a_name_is_named_by_its_rendering() {
    let item = vec![t(TokenKind::Qualifier, "pub"), t(TokenKind::Whitespace, " "), t(TokenKind::Primitive, "u8")];
    let s = symbol_from_tokens(&item);
    assert_eq!(s.path, "pub u8");
    assert_eq!(s.signature, "pub u8");
    let nothing = symbol_from_tokens(&vec![]);
    assert_eq!(nothing, Symbol::new("", ""));
}

#[test]
fn other_symbols_end_the_path() {
    let item = vec![
        t(TokenKind::Identifier, "a"),
        t(TokenKind::Symbol, "::<"),
        t(TokenKind::Identifier, "b"),
    ];
    assert_eq!(symbol_from_tokens(&item).path, "a");
    let other = vec![
        t(TokenKind::Identifier, "a"),
        t(TokenKind::Qualifier, "::"),
        t(TokenKind::Identifier, "b"),
    ];
    assert_eq!(symbol_from_tokens(&other).path, "a");
}

#[test]
fn token_kinds_that_spell_names() {
    assert!(TokenKind::Identifier.is_name());
    assert!(TokenKind::Function.is_name());
    assert!(TokenKind::Type.is_name());
    for kind in [
        TokenKind::Symbol,
        TokenKind::Qualifier,
        TokenKind::Kind,
        TokenKind::Whitespace,
        TokenKind::Annotation,
        TokenKind::SelfWord,
        TokenKind::Lifetime,
        TokenKind::Keyword,
        TokenKind::Generic,
        TokenKind::Primitive,
    ] {
        assert!(!kind.is_name());
    }
    assert!(t(TokenKind::Symbol, "::").continues_path());
    assert!(!t(TokenKind::Symbol, ":").continues_path());
    assert!(t(TokenKind::Type, "X").continues_path());
    assert!(!t(TokenKind::Whitespace, " ").continues_path());
}

#[test]
fn document_holds_one_symbol_for_each_item_in_order() {
    let items = vec![
        function_item(),
        vec![t(TokenKind::Qualifier, "pub"), t(TokenKind::Whitespace, " "), t(TokenKind::Kind, "mod"), t(TokenKind::Whitespace, " "), t(TokenKind::Identifier, "foo")],
    ];
    let doc = document_from_items(&items);
    assert_eq!(
        doc.symbols,
        vec![
            Symbol::new("foo::bar", "pub fn foo::bar(i32) -> i32"),
            Symbol::new("foo", "pub mod foo"),
        ]
    );
    assert!(document_from_items(&vec![]).is_empty());
}

fn generic_type() -> Vec<Token> {
    vec![
        t(TokenKind::Qualifier, "pub"),
        t(TokenKind::Whitespace, " "),
        t(TokenKind::Kind, "struct"),
        t(TokenKind::Whitespace, " "),
        t(TokenKind::Identifier, "a"),
        t(TokenKind::Symbol, "::"),
        t(TokenKind::Type, "S"),
        t(TokenKind::Symbol, "<"),
        t(TokenKind::Lifetime, "'b"),
        t(TokenKind::Symbol, ","),
        t(TokenKind::Whitespace, " "),
        t(TokenKind::Generic, "T"),
        t(TokenKind::Symbol, ">"),
    ]
}

fn method_of_generic_type(name: &str, argument: &str) -> Vec<Token> {
    vec![
        t(TokenKind::Qualifier, "pub"),
        t(TokenKind::Whitespace, " "),
        t(TokenKind::Kind, "fn"),
        t(TokenKind::Whitespace, " "),
        t(TokenKind::Identifier, "a"),
        t(TokenKind::Symbol, "::"),
        t(TokenKind::Type, "S"),
        t(TokenKind::Symbol, "<"),
        t(TokenKind::Lifetime, "'b"),
        t(TokenKind::Symbol, ","),
        t(TokenKind::Whitespace, " "),
        t(TokenKind::Generic, "T"),
        t(TokenKind::Symbol, ">"),
        t(TokenKind::Symbol, "::"),
        t(TokenKind::Function, name),
        t(TokenKind::Symbol, "("),
        t(TokenKind::Primitive, argument),
        t(TokenKind::Symbol, ")"),
    ]
}

#[test]
fn member_of_a_generic_type_is_named_apart_from_the_type() {
    let ty = symbol_from_tokens(&generic_type());
    assert_eq!(ty.path, "a::S");
    assert_eq!(ty.signature, "pub struct a::S<'b, T>");
    let f = symbol_from_tokens(&method_of_generic_type("f", "u8"));
    assert_eq!(f.path, "a::S<'b, T>::f");
    assert_eq!(f.signature, "pub fn a::S<'b, T>::f(u8)");
    let g = symbol_from_tokens(&method_of_generic_type("g", "u8"));
    assert_eq!(g.path, "a::S<'b, T>::g");
    assert_ne!(f.path, ty.path);
    assert_ne!(f.path, g.path);
}

#[test]
fn nested_arguments_are_passed_over_as_one() {
    let item = vec![
        t(TokenKind::Identifier, "a"),
        t(TokenKind::Symbol, "::"),
        t(TokenKind::Type, "S"),
        t(TokenKind::Symbol, "<"),
        t(TokenKind::Type, "Vec"),
        t(TokenKind::Symbol, "<"),
        t(TokenKind::Generic, "T"),
        t(TokenKind::Symbol, ">"),
        t(TokenKind::Symbol, ">"),
        t(TokenKind::Symbol, "::"),
        t(TokenKind::Type, "U"),
        t(TokenKind::Symbol, "<"),
        t(TokenKind::Primitive, "u8"),
        t(TokenKind::Symbol, ">"),
        t(TokenKind::Symbol, "::"),
        t(TokenKind::Function, "f"),
        t(TokenKind::Symbol, "("),
        t(TokenKind::Symbol, ")"),
    ];
    let s = symbol_from_tokens(&item);
    assert_eq!(s.path, "a::S<Vec<T>>::U<u8>::f");
    assert_eq!(s.signature, "a::S<Vec<T>>::U<u8>::f()");
}

#[test]
fn arguments_that_nothing_follows_are_not_part_of_the_path() {
    let inner_only = vec![
        t(TokenKind::Type, "S"),
        t(TokenKind::Symbol, "<"),
        t(TokenKind::Type, "Vec"),
        t(TokenKind::Symbol, "<"),
        t(TokenKind::Generic, "T"),
        t(TokenKind::Symbol, ">"),
        t(TokenKind::Symbol, "::"),
        t(TokenKind::Function, "f"),
    ];
    assert_eq!(symbol_from_tokens(&inner_only).path, "S");
    let not_closed = vec![
        t(TokenKind::Type, "S"),
        t(TokenKind::Symbol, "<"),
        t(TokenKind::Generic, "T"),
        t(TokenKind::Symbol, "::"),
        t(TokenKind::Function, "f"),
    ];
    assert_eq!(symbol_from_tokens(&not_closed).path, "S");
    let other_follows = vec![
        t(TokenKind::Type, "S"),
        t(TokenKind::Symbol, "<"),
        t(TokenKind::Generic, "T"),
        t(TokenKind::Symbol, ">"),
        t(TokenKind::Symbol, "("),
        t(TokenKind::Primitive, "u8"),
        t(TokenKind::Symbol, ")"),
    ];
    assert_eq!(symbol_from_tokens(&other_follows).path, "S");
    let closed_at_the_end = vec![
        t(TokenKind::Type, "S"),
        t(TokenKind::Symbol, "<"),
        t(TokenKind::Generic, "T"),
        t(TokenKind::Symbol, ">"),
    ];
    assert_eq!(symbol_from_tokens(&closed_at_the_end).path, "S");
    let arrow_is_no_bracket = vec![
        t(TokenKind::Type, "S"),
        t(TokenKind::Symbol, "<"),
        t(TokenKind::Kind, "fn"),
        t(TokenKind::Symbol, "("),
        t(TokenKind::Symbol, ")"),
        t(TokenKind::Whitespace, " "),
        t(TokenKind::Symbol, "->"),
        t(TokenKind::Whitespace, " "),
        t(TokenKind::Primitive, "u8"),
        t(TokenKind::Symbol, ">"),
        t(TokenKind::Symbol, "::"),
        t(TokenKind::Function, "f"),
    ];
    assert_eq!(symbol_from_tokens(&arrow_is_no_bracket).path, "S<fn() -> u8>::f");
}

#[test]
fn brackets_are_symbols_of_their_text() {
    assert!(t(TokenKind::Symbol, "<").is_open());
    assert!(!t(TokenKind::Symbol, ">").is_open());
    assert!(!t(TokenKind::Symbol, "::<").is_open());
    assert!(!t(TokenKind::Generic, "<").is_open());
    assert!(t(TokenKind::Symbol, ">").is_close());
    assert!(!t(TokenKind::Symbol, "->").is_close());
    assert!(!t(TokenKind::Symbol, "<").is_close());
    assert!(t(TokenKind::Symbol, "::").is_separator());
    assert!(!t(TokenKind::Symbol, ":").is_separator());
    assert!(!t(TokenKind::Identifier, "::").is_separator());
}

#[test]
fn changes_to_members_of_a_generic_type_are_reported() {
    let base = document_from_items(&vec![
        generic_type(),
        method_of_generic_type("f", "u8"),
        method_of_generic_type("g", "u8"),
    ]);
    let target = document_from_items(&vec![
        generic_type(),
        method_of_generic_type("f", "u16"),
        method_of_generic_type("h", "u8"),
    ]);
    let d = diff(&base, &target);
    assert_eq!(d.added, vec![Symbol::new("a::S<'b, T>::h", "pub fn a::S<'b, T>::h(u8)")]);
    assert_eq!(d.removed, vec![Symbol::new("a::S<'b, T>::g", "pub fn a::S<'b, T>::g(u8)")]);
    assert_eq!(d.changed.len(), 1);
    assert_eq!(d.changed[0].old, Symbol::new("a::S<'b, T>::f", "pub fn a::S<'b, T>::f(u8)"));
    assert_eq!(d.changed[0].new, Symbol::new("a::S<'b, T>::f", "pub fn a::S<'b, T>::f(u16)"));
}
