//! The diff engine: which symbols a target document adds to a base document,
//! which it removes, and which keep their path but change their signature.
//!
//! Symbols are matched by path. Every symbol whose path the other document
//! lacks is listed, as added or as removed. Where both documents have a
//! path, the first symbol with that path stands for it on either side, and
//! the two are compared; later symbols with that path are not.

use vstd::prelude::*;

use crate::symbol::{
    first_with_path, has_path, leads, lemma_first_index_is, symbol_views, Symbol, SymbolDocument,
    SymbolView,
};

verus! {

/// The mathematical value of a [`ChangedSymbol`].
pub struct ChangeView {
    pub old: SymbolView,
    pub new: SymbolView,
}

/// A symbol whose signature differs between base and target.
#[derive(Debug, PartialEq, Eq)]
pub struct ChangedSymbol {
    /// The symbol as the base document has it.
    pub old: Symbol,
    /// The symbol as the target document has it.
    pub new: Symbol,
}

impl View for ChangedSymbol {
    type V = ChangeView;

    open spec fn view(&self) -> ChangeView {
        ChangeView { old: self.old@, new: self.new@ }
    }
}

/// The values of a sequence of changed symbols, in its order.
pub open spec fn change_views(changes: Seq<ChangedSymbol>) -> Seq<ChangeView> {
    Seq::new(changes.len(), |i: int| changes[i]@)
}

/// The mathematical value of a [`DiffResult`].
pub struct DiffView {
    pub added: Seq<SymbolView>,
    pub removed: Seq<SymbolView>,
    pub changed: Seq<ChangeView>,
}

/// The difference between two documents.
#[derive(Debug, PartialEq, Eq)]
pub struct DiffResult {
    /// Every symbol whose path only the target has, in the target's order.
    pub added: Vec<Symbol>,
    /// Every symbol whose path only the base has, in the base's order.
    pub removed: Vec<Symbol>,
    /// Symbols whose path both have, with differing signatures, in the
    /// base's order.
    pub changed: Vec<ChangedSymbol>,
}

impl View for DiffResult {
    type V = DiffView;

    open spec fn view(&self) -> DiffView {
        DiffView {
            added: symbol_views(self.added@),
            removed: symbol_views(self.removed@),
            changed: change_views(self.changed@),
        }
    }
}

/// `doc[i]` is a symbol whose path `other` does not have.
pub open spec fn is_exclusive(doc: Seq<SymbolView>, other: Seq<SymbolView>, i: int) -> bool {
    0 <= i < doc.len() && !has_path(other, doc[i].path)
}

/// `base[i]` stands for a path that `target` has with another signature.
pub open spec fn is_changed(base: Seq<SymbolView>, target: Seq<SymbolView>, i: int) -> bool {
    &&& leads(base, i)
    &&& has_path(target, base[i].path)
    &&& first_with_path(target, base[i].path).signature != base[i].signature
}

/// The change that `base[i]` takes part in.
pub open spec fn change_at(base: Seq<SymbolView>, target: Seq<SymbolView>, i: int) -> ChangeView {
    ChangeView { old: base[i], new: first_with_path(target, base[i].path) }
}

/// Among the first `n` symbols of `doc`, those whose path `other` does not
/// have, in the order of `doc`.
pub open spec fn only_in(doc: Seq<SymbolView>, other: Seq<SymbolView>, n: int) -> Seq<SymbolView>
    decreases n,
{
    if n <= 0 {
        Seq::empty()
    } else if is_exclusive(doc, other, n - 1) {
        only_in(doc, other, n - 1).push(doc[n - 1])
    } else {
        only_in(doc, other, n - 1)
    }
}

/// The changes that the first `n` symbols of `base` take part in, in the
/// order of `base`.
pub open spec fn changes_in(base: Seq<SymbolView>, target: Seq<SymbolView>, n: int) -> Seq<
    ChangeView,
>
    decreases n,
{
    if n <= 0 {
        Seq::empty()
    } else if is_changed(base, target, n - 1) {
        changes_in(base, target, n - 1).push(change_at(base, target, n - 1))
    } else {
        changes_in(base, target, n - 1)
    }
}

/// The symbols that `target` adds to `base`.
pub open spec fn added_between(base: Seq<SymbolView>, target: Seq<SymbolView>) -> Seq<SymbolView> {
    only_in(target, base, target.len() as int)
}

/// The symbols that `target` removes from `base`.
pub open spec fn removed_between(base: Seq<SymbolView>, target: Seq<SymbolView>) -> Seq<
    SymbolView,
> {
    only_in(base, target, base.len() as int)
}

/// The symbols that `target` changes with respect to `base`.
pub open spec fn changed_between(base: Seq<SymbolView>, target: Seq<SymbolView>) -> Seq<
    ChangeView,
> {
    changes_in(base, target, base.len() as int)
}

/// The difference between `base` and `target`.
pub open spec fn diff_between(base: Seq<SymbolView>, target: Seq<SymbolView>) -> DiffView {
    DiffView {
        added: added_between(base, target),
        removed: removed_between(base, target),
        changed: changed_between(base, target),
    }
}

/// The symbols of `doc` whose path `other` does not have.
fn exclusive_symbols(doc: &SymbolDocument, other: &SymbolDocument) -> (found: Vec<Symbol>)
    ensures
        symbol_views(found@) == only_in(doc@, other@, doc@.len() as int),
{
    let mut found: Vec<Symbol> = Vec::new();
    let mut i: usize = 0;
    assert(symbol_views(found@) =~= only_in(doc@, other@, 0));
    while i < doc.symbols.len()
        invariant
            i <= doc.symbols@.len(),
            doc@.len() == doc.symbols@.len(),
            symbol_views(found@) == only_in(doc@, other@, i as int),
        decreases doc.symbols@.len() - i,
    {
        let symbol = &doc.symbols[i];
        assert(doc@[i as int] == symbol@);
        if !other.contains_path(symbol.path()) {
            let ghost before = found@;
            found.push(symbol.clone());
            assert(symbol_views(found@) =~= symbol_views(before).push(symbol@));
        }
        i += 1;
    }
    found
}

/// The changes between `base` and `target`.
fn changed_symbols(base: &SymbolDocument, target: &SymbolDocument) -> (found: Vec<ChangedSymbol>)
    ensures
        change_views(found@) == changes_in(base@, target@, base@.len() as int),
{
    let mut found: Vec<ChangedSymbol> = Vec::new();
    let mut i: usize = 0;
    assert(change_views(found@) =~= changes_in(base@, target@, 0));
    while i < base.symbols.len()
        invariant
            i <= base.symbols@.len(),
            base@.len() == base.symbols@.len(),
            target@.len() == target.symbols@.len(),
            change_views(found@) == changes_in(base@, target@, i as int),
        decreases base.symbols@.len() - i,
    {
        let symbol = &base.symbols[i];
        assert(base@[i as int] == symbol@);
        let earlier = base.position_before(symbol.path(), i);
        proof {
            if earlier.is_some() {
                assert(base@[earlier.unwrap() as int].path == symbol@.path);
            }
        }
        if earlier.is_none() {
            match target.position(symbol.path()) {
                Some(j) => {
                    let partner = &target.symbols[j];
                    proof {
                        lemma_first_index_is(target@, symbol@.path, j as int);
                        assert(target@[j as int] == partner@);
                    }
                    if partner.signature != symbol.signature {
                        let ghost before = found@;
                        let change = ChangedSymbol { old: symbol.clone(), new: partner.clone() };
                        found.push(change);
                        assert(change_views(found@) =~= change_views(before).push(
                            change_at(base@, target@, i as int),
                        ));
                    }
                },
                None => {},
            }
        }
        i += 1;
    }
    found
}

/// Compares `target` with `base`.
///
/// A symbol is added where only the target has its path, removed where only
/// the base has it, and changed where both have it with differing
/// signatures, the first symbol of a path standing for it. Each list keeps
/// the order of the document its symbols come from. The comparison is
/// total: it has no failure.
pub fn diff(base: &SymbolDocument, target: &SymbolDocument) -> (result: DiffResult)
    ensures
        result@ == diff_between(base@, target@),
{
    let added = exclusive_symbols(target, base);
    let removed = exclusive_symbols(base, target);
    let changed = changed_symbols(base, target);
    DiffResult { added, removed, changed }
}

} // verus!
