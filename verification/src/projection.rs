//! The projection of a diff into the plain text model that a template
//! renderer consumes: every symbol becomes its display string.

use vstd::prelude::*;

use crate::diff::{ChangeView, DiffResult, DiffView};
use crate::symbol::{display_of, symbol_views, Symbol, SymbolView};

verus! {

/// The mathematical value of a [`ChangedItem`].
pub struct ChangedItemView {
    pub old: Seq<char>,
    pub new: Seq<char>,
}

/// A changed symbol for rendering: how it read before and how it reads now.
#[derive(Debug, PartialEq, Eq)]
pub struct ChangedItem {
    pub old: String,
    pub new: String,
}

impl View for ChangedItem {
    type V = ChangedItemView;

    open spec fn view(&self) -> ChangedItemView {
        ChangedItemView { old: self.old@, new: self.new@ }
    }
}

/// The mathematical value of a [`RenderableModel`].
pub struct ModelView {
    pub added: Seq<Seq<char>>,
    pub removed: Seq<Seq<char>>,
    pub changed: Seq<ChangedItemView>,
}

/// The values that a template is filled with: the display strings of the
/// added and of the removed symbols, and for each changed symbol the old and
/// the new display string.
#[derive(Debug, PartialEq, Eq)]
pub struct RenderableModel {
    pub added: Vec<String>,
    pub removed: Vec<String>,
    pub changed: Vec<ChangedItem>,
}

/// The values of a sequence of strings, in its order.
pub open spec fn text_views(texts: Seq<String>) -> Seq<Seq<char>> {
    Seq::new(texts.len(), |i: int| texts[i]@)
}

/// The values of a sequence of changed items, in its order.
pub open spec fn item_views(items: Seq<ChangedItem>) -> Seq<ChangedItemView> {
    Seq::new(items.len(), |i: int| items[i]@)
}

impl View for RenderableModel {
    type V = ModelView;

    open spec fn view(&self) -> ModelView {
        ModelView {
            added: text_views(self.added@),
            removed: text_views(self.removed@),
            changed: item_views(self.changed@),
        }
    }
}

/// The display strings of `symbols`, in their order.
pub open spec fn displays_of(symbols: Seq<SymbolView>) -> Seq<Seq<char>> {
    Seq::new(symbols.len(), |i: int| display_of(symbols[i]))
}

/// The display strings of both sides of a change.
pub open spec fn item_of(change: ChangeView) -> ChangedItemView {
    ChangedItemView { old: display_of(change.old), new: display_of(change.new) }
}

/// The items of `changes`, in their order.
pub open spec fn items_of(changes: Seq<ChangeView>) -> Seq<ChangedItemView> {
    Seq::new(changes.len(), |i: int| item_of(changes[i]))
}

/// The model that a diff is rendered from.
pub open spec fn projection_of(diff: DiffView) -> ModelView {
    ModelView {
        added: displays_of(diff.added),
        removed: displays_of(diff.removed),
        changed: items_of(diff.changed),
    }
}

/// The display strings of `symbols`, in their order.
fn display_all(symbols: &Vec<Symbol>) -> (texts: Vec<String>)
    ensures
        text_views(texts@) == displays_of(symbol_views(symbols@)),
{
    let mut texts: Vec<String> = Vec::new();
    let mut i: usize = 0;
    while i < symbols.len()
        invariant
            i <= symbols@.len(),
            texts@.len() == i,
            forall|k: int| 0 <= k < i ==> (#[trigger] texts@[k])@ == display_of(symbols@[k]@),
        decreases symbols@.len() - i,
    {
        texts.push(symbols[i].display());
        i += 1;
    }
    assert(text_views(texts@) =~= displays_of(symbol_views(symbols@)));
    texts
}

/// Flattens a diff for rendering: each list keeps its length and its order,
/// and every symbol is replaced by its display string.
pub fn project(diff: &DiffResult) -> (model: RenderableModel)
    ensures
        model@ == projection_of(diff@),
{
    let added = display_all(&diff.added);
    let removed = display_all(&diff.removed);
    let mut changed: Vec<ChangedItem> = Vec::new();
    let mut i: usize = 0;
    while i < diff.changed.len()
        invariant
            i <= diff.changed@.len(),
            changed@.len() == i,
            forall|k: int| 0 <= k < i ==> (#[trigger] changed@[k])@ == item_of(diff.changed@[k]@),
        decreases diff.changed@.len() - i,
    {
        let change = &diff.changed[i];
        changed.push(ChangedItem { old: change.old.display(), new: change.new.display() });
        i += 1;
    }
    assert(item_views(changed@) =~= items_of(diff@.changed));
    RenderableModel { added, removed, changed }
}

} // verus!
