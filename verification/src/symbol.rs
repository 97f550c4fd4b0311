//! Symbols and symbol documents.
//!
//! A symbol is identified by its path and carries the textual representation
//! of its signature. A document is the ordered list of the symbols that one
//! revision exports.

use vstd::prelude::*;

use crate::text::text_eq;

verus! {

/// The mathematical value of a [`Symbol`].
pub struct SymbolView {
    pub path: Seq<char>,
    pub signature: Seq<char>,
}

/// One exported interface element.
#[derive(Debug, PartialEq, Eq)]
pub struct Symbol {
    /// Fully-qualified name: the identity of the symbol.
    pub path: String,
    /// Textual representation of the whole signature.
    pub signature: String,
}

impl View for Symbol {
    type V = SymbolView;

    open spec fn view(&self) -> SymbolView {
        SymbolView { path: self.path@, signature: self.signature@ }
    }
}

/// The canonical display string of a symbol: the text of its signature,
/// which spells the path out in full.
pub open spec fn display_of(symbol: SymbolView) -> Seq<char> {
    symbol.signature
}

/// Two symbols name the same interface element.
pub open spec fn same_identity(a: SymbolView, b: SymbolView) -> bool {
    a.path == b.path
}

/// Two symbols name the same interface element and have the same shape.
pub open spec fn same_content(a: SymbolView, b: SymbolView) -> bool {
    a.path == b.path && a.signature == b.signature
}

impl Clone for Symbol {
    fn clone(&self) -> (copy: Self)
        ensures
            copy@ == self@,
    {
        Symbol { path: self.path.clone(), signature: self.signature.clone() }
    }
}

impl Symbol {
    /// A symbol with the given path and signature text.
    pub fn new(path: &str, signature: &str) -> (symbol: Symbol)
        ensures
            symbol@.path == path@,
            symbol@.signature == signature@,
    {
        Symbol { path: path.to_owned(), signature: signature.to_owned() }
    }

    /// The path that identifies the symbol.
    pub fn path(&self) -> (path: &str)
        ensures
            path@ == self@.path,
    {
        self.path.as_str()
    }

    /// The signature text of the symbol.
    pub fn signature(&self) -> (signature: &str)
        ensures
            signature@ == self@.signature,
    {
        self.signature.as_str()
    }

    /// Whether both symbols have the same path.
    pub fn same_identity(&self, other: &Symbol) -> (same: bool)
        ensures
            same == same_identity(self@, other@),
    {
        self.path == other.path
    }

    /// Whether both symbols have the same path and the same signature.
    pub fn same_content(&self, other: &Symbol) -> (same: bool)
        ensures
            same == same_content(self@, other@),
    {
        self.path == other.path && self.signature == other.signature
    }

    /// The canonical display string of the symbol.
    pub fn display(&self) -> (text: String)
        ensures
            text@ == display_of(self@),
    {
        self.signature.clone()
    }
}

/// The complete public interface of one revision, in extraction order.
#[derive(Debug, PartialEq, Eq)]
pub struct SymbolDocument {
    pub symbols: Vec<Symbol>,
}

/// The values of a sequence of symbols, in its order.
pub open spec fn symbol_views(symbols: Seq<Symbol>) -> Seq<SymbolView> {
    Seq::new(symbols.len(), |i: int| symbols[i]@)
}

impl View for SymbolDocument {
    type V = Seq<SymbolView>;

    open spec fn view(&self) -> Seq<SymbolView> {
        symbol_views(self.symbols@)
    }
}

/// Some symbol of `doc` has the path `path`.
pub open spec fn has_path(doc: Seq<SymbolView>, path: Seq<char>) -> bool {
    exists|i: int| 0 <= i < doc.len() && #[trigger] doc[i].path == path
}

/// `i` is the index of the first symbol of `doc` with the path `path`.
pub open spec fn is_first_index(doc: Seq<SymbolView>, path: Seq<char>, i: int) -> bool {
    &&& 0 <= i < doc.len()
    &&& doc[i].path == path
    &&& forall|j: int| 0 <= j < i ==> #[trigger] doc[j].path != path
}

/// `doc[i]` is the first symbol of `doc` with its path.
pub open spec fn leads(doc: Seq<SymbolView>, i: int) -> bool {
    0 <= i < doc.len() && is_first_index(doc, doc[i].path, i)
}

/// The index of the first symbol of `doc` with the path `path`. It is
/// meaningful where `has_path(doc, path)` holds.
pub open spec fn first_index(doc: Seq<SymbolView>, path: Seq<char>) -> int {
    choose|i: int| is_first_index(doc, path, i)
}

/// The first symbol of `doc` with the path `path`: the one that stands for
/// the path when a document holds it more than once.
pub open spec fn first_with_path(doc: Seq<SymbolView>, path: Seq<char>) -> SymbolView {
    doc[first_index(doc, path)]
}

/// The path does not occur among the first `n` symbols of `doc`.
pub open spec fn absent_before(doc: Seq<SymbolView>, path: Seq<char>, n: int) -> bool {
    forall|j: int| 0 <= j < n && j < doc.len() ==> #[trigger] doc[j].path != path
}

/// A path that occurs in a document has a first occurrence there.
pub proof fn lemma_first_index_exists(doc: Seq<SymbolView>, path: Seq<char>)
    requires
        has_path(doc, path),
    ensures
        is_first_index(doc, path, first_index(doc, path)),
{
    let k = choose|i: int| 0 <= i < doc.len() && #[trigger] doc[i].path == path;
    lemma_first_index_below(doc, path, k);
}

/// Below any occurrence of a path stands its first occurrence.
proof fn lemma_first_index_below(doc: Seq<SymbolView>, path: Seq<char>, k: int)
    requires
        0 <= k < doc.len(),
        doc[k].path == path,
    ensures
        is_first_index(doc, path, first_index(doc, path)),
        first_index(doc, path) <= k,
    decreases k,
{
    if exists|j: int| 0 <= j < k && #[trigger] doc[j].path == path {
        let j = choose|j: int| 0 <= j < k && #[trigger] doc[j].path == path;
        lemma_first_index_below(doc, path, j);
    } else {
        assert(is_first_index(doc, path, k));
        lemma_first_index_unique(doc, path, k, first_index(doc, path));
    }
}

/// A path has at most one first occurrence.
pub proof fn lemma_first_index_unique(doc: Seq<SymbolView>, path: Seq<char>, i: int, j: int)
    requires
        is_first_index(doc, path, i),
        is_first_index(doc, path, j),
    ensures
        i == j,
{
    if i < j {
        assert(doc[i].path == path);
    } else if j < i {
        assert(doc[j].path == path);
    }
}

/// The first occurrence of a path is the index that `first_index` names.
pub proof fn lemma_first_index_is(doc: Seq<SymbolView>, path: Seq<char>, i: int)
    requires
        is_first_index(doc, path, i),
    ensures
        first_index(doc, path) == i,
        has_path(doc, path),
{
    assert(doc[i].path == path);
    lemma_first_index_unique(doc, path, i, first_index(doc, path));
}

impl SymbolDocument {
    /// The document without symbols.
    pub fn new() -> (doc: SymbolDocument)
        ensures
            doc@ == Seq::<SymbolView>::empty(),
    {
        let doc = SymbolDocument { symbols: Vec::new() };
        assert(doc@ =~= Seq::<SymbolView>::empty());
        doc
    }

    /// The document that holds `symbols` in their order.
    pub fn from_symbols(symbols: Vec<Symbol>) -> (doc: SymbolDocument)
        ensures
            doc@ == symbol_views(symbols@),
    {
        SymbolDocument { symbols }
    }

    /// The number of symbols.
    pub fn len(&self) -> (n: usize)
        ensures
            n == self@.len(),
    {
        self.symbols.len()
    }

    /// Whether the document holds no symbol.
    pub fn is_empty(&self) -> (empty: bool)
        ensures
            empty == (self@.len() == 0),
    {
        self.symbols.len() == 0
    }

    /// The symbol at position `i`, where there is one.
    pub fn get(&self, i: usize) -> (found: Option<&Symbol>)
        ensures
            i < self@.len() ==> found.is_some() && found.unwrap()@ == self@[i as int],
            i >= self@.len() ==> found.is_none(),
    {
        if i < self.symbols.len() {
            Some(&self.symbols[i])
        } else {
            None
        }
    }

    /// The position of the first of the first `limit` symbols that has the
    /// path `path`. A limit beyond the end counts as the end.
    pub fn position_before(&self, path: &str, limit: usize) -> (found: Option<usize>)
        ensures
            match found {
                Some(i) => i < limit && is_first_index(self@, path@, i as int),
                None => absent_before(self@, path@, limit as int),
            },
    {
        let end = if limit < self.symbols.len() {
            limit
        } else {
            self.symbols.len()
        };
        let mut i: usize = 0;
        while i < end
            invariant
                i <= end <= self.symbols.len(),
                end <= limit,
                end == limit || end == self.symbols@.len(),
                absent_before(self@, path@, i as int),
            decreases end - i,
        {
            assert(self@[i as int] == self.symbols@[i as int]@);
            if text_eq(self.symbols[i].path.as_str(), path) {
                return Some(i);
            }
            i += 1;
        }
        None
    }

    /// The position of the first symbol that has the path `path`.
    pub fn position(&self, path: &str) -> (found: Option<usize>)
        ensures
            found.is_some() == has_path(self@, path@),
            found.is_some() ==> is_first_index(self@, path@, found.unwrap() as int),
    {
        let found = self.position_before(path, self.symbols.len());
        proof {
            if found.is_some() {
                assert(self@[found.unwrap() as int].path == path@);
            }
        }
        found
    }

    /// Whether some symbol has the path `path`.
    pub fn contains_path(&self, path: &str) -> (found: bool)
        ensures
            found == has_path(self@, path@),
    {
        self.position(path).is_some()
    }
}

} // verus!
