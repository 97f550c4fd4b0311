//! From rendered items to symbols.
//!
//! The extraction engine renders every exported item as a list of tokens.
//! The text of all its tokens, in their order, is the signature of the
//! symbol. Its path is the text of the item's full name: the names joined
//! by `::` that begin at the first name token. Where a name in it carries
//! arguments in angle brackets and `::` follows their closing bracket, the
//! arguments belong to the path and the path goes on behind them, so that a
//! member of a generic type is named apart from the type and from its other
//! members. Arguments that nothing follows are not part of the path. An
//! item without a name, or one that a keyword introduces (an implementation
//! block), is identified by its whole rendering.

use vstd::prelude::*;
use vstd::string::StringExecFns;

use crate::symbol::{Symbol, SymbolDocument, SymbolView};
use crate::text::text_eq;

verus! {

/// What a token is.
#[derive(Clone, Copy, Debug, PartialEq, Eq, Structural)]
pub enum TokenKind {
    /// A symbol, like `=` or `::<`.
    Symbol,
    /// A qualifier, like `pub` or `const`.
    Qualifier,
    /// The kind of an item, like `fn` or `trait`.
    Kind,
    /// A single space.
    Whitespace,
    /// An identifier, like a part of the path of an item.
    Identifier,
    /// An annotation, like an attribute.
    Annotation,
    /// The identifier `self` or `Self`.
    SelfWord,
    /// The name of a function.
    Function,
    /// A lifetime, with its apostrophe.
    Lifetime,
    /// A keyword, like `impl`, `where` or `dyn`.
    Keyword,
    /// A generic parameter.
    Generic,
    /// A primitive type.
    Primitive,
    /// The name of a type that is not primitive.
    Type,
}

/// The mathematical value of a [`Token`].
pub struct TokenView {
    pub kind: TokenKind,
    pub text: Seq<char>,
}

/// One token of a rendered item.
#[derive(Debug, PartialEq, Eq)]
pub struct Token {
    pub kind: TokenKind,
    pub text: String,
}

impl View for Token {
    type V = TokenView;

    open spec fn view(&self) -> TokenView {
        TokenView { kind: self.kind, text: self.text@ }
    }
}

/// The values of a sequence of tokens, in its order.
pub open spec fn token_views(tokens: Seq<Token>) -> Seq<TokenView> {
    Seq::new(tokens.len(), |i: int| tokens[i]@)
}

/// Tokens of this kind spell names.
pub open spec fn is_name(kind: TokenKind) -> bool {
    kind == TokenKind::Identifier || kind == TokenKind::Function || kind == TokenKind::Type
}

/// The token is the separator `::`.
pub open spec fn is_separator(token: TokenView) -> bool {
    token.kind == TokenKind::Symbol && token.text == "::"@
}

/// The token can stand within a path by itself: it is a name, or the
/// separator `::`.
pub open spec fn continues_path(token: TokenView) -> bool {
    is_name(token.kind) || is_separator(token)
}

/// The text of the tokens from position `from` up to position `to`.
pub open spec fn text_between(tokens: Seq<TokenView>, from: int, to: int) -> Seq<char>
    decreases to - from,
{
    if to <= from {
        Seq::empty()
    } else {
        text_between(tokens, from, to - 1) + tokens[to - 1].text
    }
}

/// The text of all tokens.
pub open spec fn rendering(tokens: Seq<TokenView>) -> Seq<char> {
    text_between(tokens, 0, tokens.len() as int)
}

/// The position of the first name token at or after `i`, or the number of
/// tokens where there is none.
pub open spec fn first_name_from(tokens: Seq<TokenView>, i: int) -> int
    decreases tokens.len() - i,
{
    if i < 0 || i >= tokens.len() {
        tokens.len() as int
    } else if is_name(tokens[i].kind) {
        i
    } else {
        first_name_from(tokens, i + 1)
    }
}

/// The token opens a list of arguments.
pub open spec fn is_open(token: TokenView) -> bool {
    token.kind == TokenKind::Symbol && token.text == "<"@
}

/// The token closes a list of arguments.
pub open spec fn is_close(token: TokenView) -> bool {
    token.kind == TokenKind::Symbol && token.text == ">"@
}

/// The position behind the bracket that closes the outermost of `depth`
/// open lists of arguments, looking from position `i` on; nothing where the
/// tokens end before that.
pub open spec fn closing_from(tokens: Seq<TokenView>, i: int, depth: int) -> Option<int>
    decreases tokens.len() - i,
{
    if i < 0 || i >= tokens.len() {
        None
    } else if is_close(tokens[i]) {
        if depth <= 1 {
            Some(i + 1)
        } else {
            closing_from(tokens, i + 1, depth - 1)
        }
    } else if is_open(tokens[i]) {
        closing_from(tokens, i + 1, depth + 1)
    } else {
        closing_from(tokens, i + 1, depth)
    }
}

/// The position behind the list of arguments that opens at position `i`,
/// where the list is closed and `::` follows it: there the path goes on.
pub open spec fn resumes_behind(tokens: Seq<TokenView>, i: int) -> Option<int> {
    match closing_from(tokens, i + 1, 1) {
        Some(behind) => if i < behind < tokens.len() && is_separator(tokens[behind]) {
            Some(behind)
        } else {
            None
        },
        None => None,
    }
}

/// The position at which the path that runs through `i` ends. The path
/// runs on over names and `::`, and over a list of arguments that `::`
/// follows; it ends before any other token, or with the last token.
pub open spec fn path_end_from(tokens: Seq<TokenView>, i: int) -> int
    decreases tokens.len() - i,
{
    if i < 0 || i >= tokens.len() {
        tokens.len() as int
    } else if continues_path(tokens[i]) {
        path_end_from(tokens, i + 1)
    } else if is_open(tokens[i]) {
        match resumes_behind(tokens, i) {
            Some(behind) => path_end_from(tokens, behind),
            None => i,
        }
    } else {
        i
    }
}

/// A keyword stands among the first `n` tokens.
pub open spec fn keyword_before(tokens: Seq<TokenView>, n: int) -> bool {
    exists|k: int| 0 <= k < n && k < tokens.len() && (#[trigger] tokens[k]).kind == TokenKind::Keyword
}

/// The path of a rendered item.
pub open spec fn path_of(tokens: Seq<TokenView>) -> Seq<char> {
    let start = first_name_from(tokens, 0);
    if start >= tokens.len() || keyword_before(tokens, start) {
        rendering(tokens)
    } else {
        text_between(tokens, start, path_end_from(tokens, start))
    }
}

/// The symbol that a rendered item stands for.
pub open spec fn symbol_of(tokens: Seq<TokenView>) -> SymbolView {
    SymbolView { path: path_of(tokens), signature: rendering(tokens) }
}

/// The symbols that rendered items stand for, in their order.
pub open spec fn symbols_of(items: Seq<Vec<Token>>) -> Seq<SymbolView> {
    Seq::new(items.len(), |i: int| symbol_of(token_views(items[i]@)))
}

impl TokenKind {
    /// Whether tokens of this kind spell names.
    pub fn is_name(&self) -> (name: bool)
        ensures
            name == is_name(*self),
    {
        match self {
            TokenKind::Identifier => true,
            TokenKind::Function => true,
            TokenKind::Type => true,
            _ => false,
        }
    }
}

impl Token {
    /// A token of the given kind and text.
    pub fn new(kind: TokenKind, text: &str) -> (token: Token)
        ensures
            token@ == (TokenView { kind, text: text@ }),
    {
        Token { kind, text: text.to_owned() }
    }

    /// Whether the token is the symbol of the given text.
    fn is_symbol(&self, text: &str) -> (is: bool)
        ensures
            is == (self@.kind == TokenKind::Symbol && self@.text == text@),
    {
        match self.kind {
            TokenKind::Symbol => text_eq(self.text.as_str(), text),
            _ => false,
        }
    }

    /// Whether the token is the separator `::`.
    pub fn is_separator(&self) -> (is: bool)
        ensures
            is == is_separator(self@),
    {
        self.is_symbol("::")
    }

    /// Whether the token opens a list of arguments.
    pub fn is_open(&self) -> (is: bool)
        ensures
            is == is_open(self@),
    {
        self.is_symbol("<")
    }

    /// Whether the token closes a list of arguments.
    pub fn is_close(&self) -> (is: bool)
        ensures
            is == is_close(self@),
    {
        self.is_symbol(">")
    }

    /// Whether the token can stand within a path by itself.
    pub fn continues_path(&self) -> (continues: bool)
        ensures
            continues == continues_path(self@),
    {
        self.kind.is_name() || self.is_separator()
    }
}

/// The text of the tokens from position `from` up to position `to`.
fn join_texts(tokens: &Vec<Token>, from: usize, to: usize) -> (text: String)
    requires
        from <= to <= tokens@.len(),
    ensures
        text@ == text_between(token_views(tokens@), from as int, to as int),
{
    let mut text = String::new();
    let mut i: usize = from;
    assert(text@ =~= text_between(token_views(tokens@), from as int, from as int));
    while i < to
        invariant
            from <= i <= to <= tokens@.len(),
            text@ == text_between(token_views(tokens@), from as int, i as int),
        decreases to - i,
    {
        text.append(tokens[i].text.as_str());
        i += 1;
    }
    text
}

/// The position behind the list of arguments that opens at position
/// `open`, where the list is closed and `::` follows it.
fn resume_behind(tokens: &Vec<Token>, open: usize) -> (found: Option<usize>)
    requires
        open < tokens@.len(),
    ensures
        match found {
            Some(behind) => resumes_behind(token_views(tokens@), open as int) == Some(
                behind as int,
            ),
            None => resumes_behind(token_views(tokens@), open as int) is None,
        },
{
    let ghost views = token_views(tokens@);
    let n = tokens.len();
    let mut i: usize = open + 1;
    let mut depth: usize = 1;
    while i < n
        invariant
            open < i <= n == tokens@.len(),
            views == token_views(tokens@),
            1 <= depth <= i - open,
            closing_from(views, open + 1, 1) == closing_from(views, i as int, depth as int),
        decreases n - i,
    {
        if tokens[i].is_close() {
            if depth <= 1 {
                let behind = i + 1;
                if behind < n && tokens[behind].is_separator() {
                    return Some(behind);
                } else {
                    return None;
                }
            }
            depth -= 1;
        } else if tokens[i].is_open() {
            depth += 1;
        }
        i += 1;
    }
    None
}

/// The symbol that a rendered item stands for.
pub fn symbol_from_tokens(tokens: &Vec<Token>) -> (symbol: Symbol)
    ensures
        symbol@ == symbol_of(token_views(tokens@)),
{
    let ghost views = token_views(tokens@);
    let n = tokens.len();
    let signature = join_texts(tokens, 0, n);
    let mut start: usize = 0;
    let mut keyword = false;
    while start < n && !tokens[start].kind.is_name()
        invariant
            start <= n == tokens@.len(),
            views == token_views(tokens@),
            first_name_from(views, 0) == first_name_from(views, start as int),
            keyword == keyword_before(views, start as int),
        decreases n - start,
    {
        match tokens[start].kind {
            TokenKind::Keyword => {
                keyword = true;
            },
            _ => {},
        }
        assert(views[start as int].kind == tokens@[start as int].kind);
        start += 1;
    }
    if start >= n || keyword {
        let path = signature.clone();
        return Symbol { path, signature };
    }
    let mut end: usize = start;
    let mut open = true;
    while open && end < n
        invariant
            start <= end <= n == tokens@.len(),
            views == token_views(tokens@),
            path_end_from(views, start as int) == path_end_from(views, end as int),
            !open ==> path_end_from(views, end as int) == end,
        decreases n - end, open as int,
    {
        if tokens[end].continues_path() {
            end += 1;
        } else if tokens[end].is_open() {
            match resume_behind(tokens, end) {
                Some(behind) => {
                    end = behind;
                },
                None => {
                    open = false;
                },
            }
        } else {
            open = false;
        }
    }
    let path = join_texts(tokens, start, end);
    Symbol { path, signature }
}

/// The document of the symbols that rendered items stand for, in their
/// order.
pub fn document_from_items(items: &Vec<Vec<Token>>) -> (doc: SymbolDocument)
    ensures
        doc@ == symbols_of(items@),
{
    let mut symbols: Vec<Symbol> = Vec::new();
    let mut i: usize = 0;
    while i < items.len()
        invariant
            i <= items@.len(),
            symbols@.len() == i,
            forall|k: int|
                0 <= k < i ==> (#[trigger] symbols@[k])@ == symbol_of(token_views(items@[k]@)),
        decreases items@.len() - i,
    {
        symbols.push(symbol_from_tokens(&items[i]));
        i += 1;
    }
    let doc = SymbolDocument::from_symbols(symbols);
    assert(doc@ =~= symbols_of(items@));
    doc
}

} // verus!
