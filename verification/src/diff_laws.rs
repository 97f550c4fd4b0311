//! What holds of every diff: where each listed symbol comes from, and the
//! laws that relate the diff of two documents to the documents themselves
//! and to the diff taken the other way round.

use vstd::prelude::*;
use vstd::relations::injective_on;
use vstd::seq_lib::seq_to_set_is_finite;
use vstd::set_lib::lemma_map_size;

use crate::diff::{
    added_between, change_at, changed_between, changes_in, is_changed, is_exclusive, only_in,
    removed_between, ChangeView,
};
use crate::symbol::{
    first_index, first_with_path, has_path, leads, lemma_first_index_exists, lemma_first_index_is,
    SymbolView,
};

verus! {

/// Each listed symbol is a symbol of the document whose path the other
/// document lacks.
pub proof fn lemma_only_in_origin(
    doc: Seq<SymbolView>,
    other: Seq<SymbolView>,
    n: int,
    k: int,
) -> (i: int)
    requires
        0 <= k < only_in(doc, other, n).len(),
    ensures
        0 <= i < n,
        is_exclusive(doc, other, i),
        only_in(doc, other, n)[k] == doc[i],
    decreases n,
{
    if n <= 0 {
        0
    } else if is_exclusive(doc, other, n - 1) && k == only_in(doc, other, n - 1).len() {
        n - 1
    } else {
        lemma_only_in_origin(doc, other, n - 1, k)
    }
}

/// Each symbol whose path the other document lacks is listed.
pub proof fn lemma_only_in_position(
    doc: Seq<SymbolView>,
    other: Seq<SymbolView>,
    n: int,
    i: int,
) -> (k: int)
    requires
        0 <= i < n,
        is_exclusive(doc, other, i),
    ensures
        0 <= k < only_in(doc, other, n).len(),
        only_in(doc, other, n)[k] == doc[i],
    decreases n,
{
    if i == n - 1 {
        only_in(doc, other, n - 1).len() as int
    } else {
        lemma_only_in_position(doc, other, n - 1, i)
    }
}

/// Listed symbols stand in the order of their document.
pub proof fn lemma_only_in_ordered(
    doc: Seq<SymbolView>,
    other: Seq<SymbolView>,
    n: int,
    k1: int,
    k2: int,
) -> (at: (int, int))
    requires
        0 <= k1 < k2 < only_in(doc, other, n).len(),
    ensures
        0 <= at.0 < at.1 < n,
        is_exclusive(doc, other, at.0),
        is_exclusive(doc, other, at.1),
        only_in(doc, other, n)[k1] == doc[at.0],
        only_in(doc, other, n)[k2] == doc[at.1],
    decreases n,
{
    if n <= 0 {
        (0, 0)
    } else if is_exclusive(doc, other, n - 1) && k2 == only_in(doc, other, n - 1).len() {
        (lemma_only_in_origin(doc, other, n - 1, k1), n - 1)
    } else {
        lemma_only_in_ordered(doc, other, n - 1, k1, k2)
    }
}

/// Each listed change is the change of a symbol of the base, at a position
/// that stands for a path the target has with another signature.
pub proof fn lemma_changes_in_origin(
    base: Seq<SymbolView>,
    target: Seq<SymbolView>,
    n: int,
    k: int,
) -> (i: int)
    requires
        0 <= k < changes_in(base, target, n).len(),
    ensures
        0 <= i < n,
        is_changed(base, target, i),
        changes_in(base, target, n)[k] == change_at(base, target, i),
    decreases n,
{
    if n <= 0 {
        0
    } else if is_changed(base, target, n - 1) && k == changes_in(base, target, n - 1).len() {
        n - 1
    } else {
        lemma_changes_in_origin(base, target, n - 1, k)
    }
}

/// Each change of a symbol of the base is listed.
pub proof fn lemma_changes_in_position(
    base: Seq<SymbolView>,
    target: Seq<SymbolView>,
    n: int,
    i: int,
) -> (k: int)
    requires
        0 <= i < n,
        is_changed(base, target, i),
    ensures
        0 <= k < changes_in(base, target, n).len(),
        changes_in(base, target, n)[k] == change_at(base, target, i),
    decreases n,
{
    if i == n - 1 {
        changes_in(base, target, n - 1).len() as int
    } else {
        lemma_changes_in_position(base, target, n - 1, i)
    }
}

/// Listed changes stand in the order of the base.
pub proof fn lemma_changes_in_ordered(
    base: Seq<SymbolView>,
    target: Seq<SymbolView>,
    n: int,
    k1: int,
    k2: int,
) -> (at: (int, int))
    requires
        0 <= k1 < k2 < changes_in(base, target, n).len(),
    ensures
        0 <= at.0 < at.1 < n,
        is_changed(base, target, at.0),
        is_changed(base, target, at.1),
        changes_in(base, target, n)[k1] == change_at(base, target, at.0),
        changes_in(base, target, n)[k2] == change_at(base, target, at.1),
    decreases n,
{
    if n <= 0 {
        (0, 0)
    } else if is_changed(base, target, n - 1) && k2 == changes_in(base, target, n - 1).len() {
        (lemma_changes_in_origin(base, target, n - 1, k1), n - 1)
    } else {
        lemma_changes_in_ordered(base, target, n - 1, k1, k2)
    }
}

/// The symbol that stands for a path of a document is a symbol of that
/// document with that path.
pub proof fn lemma_first_with_path(doc: Seq<SymbolView>, path: Seq<char>)
    requires
        has_path(doc, path),
    ensures
        first_with_path(doc, path).path == path,
        doc.contains(first_with_path(doc, path)),
        leads(doc, first_index(doc, path)),
{
    lemma_first_index_exists(doc, path);
    let i = first_index(doc, path);
    assert(doc[i] == first_with_path(doc, path));
}

/// A document compared with itself shows no difference: nothing is added,
/// nothing is removed, nothing is changed.
pub proof fn law_identical_documents_do_not_differ(doc: Seq<SymbolView>)
    ensures
        added_between(doc, doc).len() == 0,
        removed_between(doc, doc).len() == 0,
        changed_between(doc, doc).len() == 0,
{
    if only_in(doc, doc, doc.len() as int).len() > 0 {
        let i = lemma_only_in_origin(doc, doc, doc.len() as int, 0);
        assert(doc[i].path == doc[i].path);
        assert(has_path(doc, doc[i].path));
    }
    if changes_in(doc, doc, doc.len() as int).len() > 0 {
        let i = lemma_changes_in_origin(doc, doc, doc.len() as int, 0);
        lemma_first_index_is(doc, doc[i].path, i);
    }
}

/// Every added symbol is a symbol of the target whose path the base lacks;
/// every removed symbol is a symbol of the base whose path the target
/// lacks; every change pairs a symbol of the base with a symbol of the
/// target that has the same path and another signature.
pub proof fn law_diff_classifies_paths(base: Seq<SymbolView>, target: Seq<SymbolView>)
    ensures
        forall|k: int|
            0 <= k < added_between(base, target).len() ==> {
                let s = #[trigger] added_between(base, target)[k];
                !has_path(base, s.path) && has_path(target, s.path) && target.contains(s)
            },
        forall|k: int|
            0 <= k < removed_between(base, target).len() ==> {
                let s = #[trigger] removed_between(base, target)[k];
                has_path(base, s.path) && !has_path(target, s.path) && base.contains(s)
            },
        forall|k: int|
            0 <= k < changed_between(base, target).len() ==> {
                let c = #[trigger] changed_between(base, target)[k];
                &&& c.old.path == c.new.path
                &&& c.old.signature != c.new.signature
                &&& has_path(base, c.old.path)
                &&& has_path(target, c.old.path)
                &&& base.contains(c.old)
                &&& target.contains(c.new)
            },
{
    assert forall|k: int| 0 <= k < added_between(base, target).len() implies {
        let s = #[trigger] added_between(base, target)[k];
        !has_path(base, s.path) && has_path(target, s.path) && target.contains(s)
    } by {
        let i = lemma_only_in_origin(target, base, target.len() as int, k);
        assert(target[i].path == target[i].path);
        assert(target[i] == added_between(base, target)[k]);
    }
    assert forall|k: int| 0 <= k < removed_between(base, target).len() implies {
        let s = #[trigger] removed_between(base, target)[k];
        has_path(base, s.path) && !has_path(target, s.path) && base.contains(s)
    } by {
        let i = lemma_only_in_origin(base, target, base.len() as int, k);
        assert(base[i].path == base[i].path);
        assert(base[i] == removed_between(base, target)[k]);
    }
    assert forall|k: int| 0 <= k < changed_between(base, target).len() implies {
        let c = #[trigger] changed_between(base, target)[k];
        &&& c.old.path == c.new.path
        &&& c.old.signature != c.new.signature
        &&& has_path(base, c.old.path)
        &&& has_path(target, c.old.path)
        &&& base.contains(c.old)
        &&& target.contains(c.new)
    } by {
        let i = lemma_changes_in_origin(base, target, base.len() as int, k);
        assert(base[i].path == base[i].path);
        assert(base[i] == changed_between(base, target)[k].old);
        lemma_first_with_path(target, base[i].path);
    }
}

/// A change read the other way round.
pub open spec fn reversed(change: ChangeView) -> ChangeView {
    ChangeView { old: change.new, new: change.old }
}

/// A change between base and target is, read the other way round, a change
/// between target and base.
proof fn lemma_change_reverses(base: Seq<SymbolView>, target: Seq<SymbolView>, change: ChangeView)
    requires
        changed_between(base, target).contains(change),
    ensures
        changed_between(target, base).contains(reversed(change)),
{
    let k = choose|k: int|
        0 <= k < changed_between(base, target).len() && changed_between(base, target)[k] == change;
    let i = lemma_changes_in_origin(base, target, base.len() as int, k);
    let path = base[i].path;
    lemma_first_with_path(target, path);
    let j = first_index(target, path);
    assert(base[i].path == path);
    lemma_first_index_is(base, path, i);
    assert(is_changed(target, base, j));
    let m = lemma_changes_in_position(target, base, target.len() as int, j);
    assert(changed_between(target, base)[m] == reversed(change));
}

/// No change is listed twice, so the list is as long as the set of its
/// changes is large.
proof fn lemma_changes_counted(base: Seq<SymbolView>, target: Seq<SymbolView>)
    ensures
        changed_between(base, target).to_set().finite(),
        changed_between(base, target).to_set().len() == changed_between(base, target).len(),
{
    let changes = changed_between(base, target);
    assert forall|k: int, m: int|
        0 <= k < changes.len() && 0 <= m < changes.len() && k != m implies changes[k]
        != changes[m] by {
        if k < m {
            let at = lemma_changes_in_ordered(base, target, base.len() as int, k, m);
            assert(base[at.0].path != base[at.1].path);
        } else {
            let at = lemma_changes_in_ordered(base, target, base.len() as int, m, k);
            assert(base[at.0].path != base[at.1].path);
        }
    }
    changes.unique_seq_to_set();
    seq_to_set_is_finite(changes);
}

/// Taking the diff the other way round swaps its lists: what one direction
/// adds the other removes, in the same order, a pair is a change in one
/// direction exactly when the swapped pair is a change in the other, and
/// both directions list equally many changes.
pub proof fn law_diff_is_antisymmetric(a: Seq<SymbolView>, b: Seq<SymbolView>)
    ensures
        added_between(a, b) == removed_between(b, a),
        removed_between(a, b) == added_between(b, a),
        forall|change: ChangeView|
            changed_between(a, b).contains(change) <==> #[trigger] changed_between(b, a).contains(
                reversed(change),
            ),
        changed_between(a, b).len() == changed_between(b, a).len(),
{
    lemma_changes_counted(a, b);
    lemma_changes_counted(b, a);
    let forth = changed_between(a, b).to_set();
    let back = changed_between(b, a).to_set();
    let swap = |change: ChangeView| reversed(change);
    assert forall|x: ChangeView| back.contains(x) <==> forth.map(swap).contains(x) by {
        if back.contains(x) {
            lemma_change_reverses(b, a, x);
            assert(forth.contains(reversed(x)));
            assert(swap(reversed(x)) == x);
        }
        if forth.map(swap).contains(x) {
            let y = choose|y: ChangeView| forth.contains(y) && swap(y) == x;
            lemma_change_reverses(a, b, y);
        }
    }
    assert(forth.map(swap) =~= back);
    assert(injective_on(swap, forth)) by {
        assert forall|x: ChangeView, y: ChangeView|
            forth.contains(x) && forth.contains(y) && #[trigger] swap(x) == #[trigger] swap(
                y,
            ) implies x == y by {
            assert(reversed(reversed(x)) == x);
            assert(reversed(reversed(y)) == y);
        }
    }
    lemma_map_size(forth, back, swap);
    assert forall|change: ChangeView|
        changed_between(a, b).contains(change) <==> #[trigger] changed_between(b, a).contains(
            reversed(change),
        ) by {
        if changed_between(a, b).contains(change) {
            lemma_change_reverses(a, b, change);
        }
        if changed_between(b, a).contains(reversed(change)) {
            lemma_change_reverses(b, a, reversed(change));
            assert(reversed(reversed(change)) == change);
        }
    }
}

/// No two symbols of the document share a path.
pub open spec fn has_distinct_paths(doc: Seq<SymbolView>) -> bool {
    forall|i: int, j: int| 0 <= i < j < doc.len() ==> (#[trigger] doc[i]).path != (#[trigger] doc[j]).path
}

/// The three lists of a diff are disjoint: no path is listed in two of
/// them. No path is changed twice. A path is added or removed as often as
/// its document holds it, so not twice where the document holds no path
/// twice.
pub proof fn law_diff_lists_are_disjoint(base: Seq<SymbolView>, target: Seq<SymbolView>)
    ensures
        forall|k: int, m: int|
            0 <= k < added_between(base, target).len() && 0 <= m < removed_between(
                base,
                target,
            ).len() ==> (#[trigger] added_between(base, target)[k]).path != (
            #[trigger] removed_between(base, target)[m]).path,
        forall|k: int, m: int|
            0 <= k < added_between(base, target).len() && 0 <= m < changed_between(
                base,
                target,
            ).len() ==> (#[trigger] added_between(base, target)[k]).path != (
            #[trigger] changed_between(base, target)[m]).old.path,
        forall|k: int, m: int|
            0 <= k < removed_between(base, target).len() && 0 <= m < changed_between(
                base,
                target,
            ).len() ==> (#[trigger] removed_between(base, target)[k]).path != (
            #[trigger] changed_between(base, target)[m]).old.path,
        forall|k: int, m: int|
            0 <= k < m < changed_between(base, target).len() ==> (#[trigger] changed_between(
                base,
                target,
            )[k]).old.path != (#[trigger] changed_between(base, target)[m]).old.path,
        has_distinct_paths(target) ==> has_distinct_paths(added_between(base, target)),
        has_distinct_paths(base) ==> has_distinct_paths(removed_between(base, target)),
{
    law_diff_classifies_paths(base, target);
    assert forall|k: int, m: int| 0 <= k < m < changed_between(base, target).len() implies (
    #[trigger] changed_between(base, target)[k]).old.path != (#[trigger] changed_between(
        base,
        target,
    )[m]).old.path by {
        let at = lemma_changes_in_ordered(base, target, base.len() as int, k, m);
        assert(base[at.0].path != base[at.1].path);
    }
    if has_distinct_paths(target) {
        let added = added_between(base, target);
        assert forall|k: int, m: int| 0 <= k < m < added.len() implies (#[trigger] added[k]).path
            != (#[trigger] added[m]).path by {
            let at = lemma_only_in_ordered(target, base, target.len() as int, k, m);
            assert(target[at.0].path != target[at.1].path);
        }
    }
    if has_distinct_paths(base) {
        let removed = removed_between(base, target);
        assert forall|k: int, m: int| 0 <= k < m < removed.len() implies (
        #[trigger] removed[k]).path != (#[trigger] removed[m]).path by {
            let at = lemma_only_in_ordered(base, target, base.len() as int, k, m);
            assert(base[at.0].path != base[at.1].path);
        }
    }
}

/// Every path of either document is accounted for. Every symbol whose path
/// only the target has is added, and every symbol whose path only the base
/// has is removed. Where both have the path, the first symbols with it are
/// listed as a change if their signatures differ, and the path is listed
/// nowhere if they agree.
pub proof fn law_diff_accounts_for_every_path(
    base: Seq<SymbolView>,
    target: Seq<SymbolView>,
    path: Seq<char>,
)
    ensures
        !has_path(base, path) ==> forall|i: int|
            0 <= i < target.len() && (#[trigger] target[i]).path == path ==> added_between(
                base,
                target,
            ).contains(target[i]),
        !has_path(target, path) ==> forall|i: int|
            0 <= i < base.len() && (#[trigger] base[i]).path == path ==> removed_between(
                base,
                target,
            ).contains(base[i]),
        has_path(base, path) && has_path(target, path) && first_with_path(base, path).signature
            != first_with_path(target, path).signature ==> changed_between(base, target).contains(
            ChangeView {
                old: first_with_path(base, path),
                new: first_with_path(target, path),
            },
        ),
        has_path(base, path) && has_path(target, path) && first_with_path(base, path).signature
            == first_with_path(target, path).signature ==> {
            &&& forall|k: int|
                0 <= k < added_between(base, target).len() ==> (#[trigger] added_between(
                    base,
                    target,
                )[k]).path != path
            &&& forall|k: int|
                0 <= k < removed_between(base, target).len() ==> (#[trigger] removed_between(
                    base,
                    target,
                )[k]).path != path
            &&& forall|k: int|
                0 <= k < changed_between(base, target).len() ==> (#[trigger] changed_between(
                    base,
                    target,
                )[k]).old.path != path
        },
{
    law_diff_classifies_paths(base, target);
    if !has_path(base, path) {
        assert forall|i: int|
            0 <= i < target.len() && (#[trigger] target[i]).path == path implies added_between(
            base,
            target,
        ).contains(target[i]) by {
            let k = lemma_only_in_position(target, base, target.len() as int, i);
        }
    }
    if !has_path(target, path) {
        assert forall|i: int|
            0 <= i < base.len() && (#[trigger] base[i]).path == path implies removed_between(
            base,
            target,
        ).contains(base[i]) by {
            let k = lemma_only_in_position(base, target, base.len() as int, i);
        }
    }
    if has_path(base, path) && has_path(target, path) {
        lemma_first_with_path(base, path);
        let i = first_index(base, path);
        if first_with_path(base, path).signature != first_with_path(target, path).signature {
            let k = lemma_changes_in_position(base, target, base.len() as int, i);
        } else {
            assert forall|k: int| 0 <= k < changed_between(base, target).len() implies (
            #[trigger] changed_between(base, target)[k]).old.path != path by {
                let j = lemma_changes_in_origin(base, target, base.len() as int, k);
                if base[j].path == path {
                    lemma_first_index_is(base, path, j);
                }
            }
        }
    }
}

/// A symbol is kept where the other document lacks its path.
pub open spec fn lacks_path_of(other: Seq<SymbolView>) -> spec_fn(SymbolView) -> bool {
    |symbol: SymbolView| !has_path(other, symbol.path)
}

/// The symbols listed among the first `n` are those that the filter keeps.
proof fn lemma_only_in_is_filter(doc: Seq<SymbolView>, other: Seq<SymbolView>, n: int)
    requires
        0 <= n <= doc.len(),
    ensures
        only_in(doc, other, n) == doc.take(n).filter(lacks_path_of(other)),
    decreases n,
{
    reveal(Seq::filter);
    if n > 0 {
        lemma_only_in_is_filter(doc, other, n - 1);
        assert(doc.take(n).drop_last() =~= doc.take(n - 1));
        assert(doc.take(n).last() == doc[n - 1]);
    }
}

/// The added symbols are the target without the symbols whose path the base
/// has, and the removed symbols are the base without the symbols whose path
/// the target has: nothing else is left out, and the order is kept.
pub proof fn law_added_and_removed_are_filters(base: Seq<SymbolView>, target: Seq<SymbolView>)
    ensures
        added_between(base, target) == target.filter(lacks_path_of(base)),
        removed_between(base, target) == base.filter(lacks_path_of(target)),
{
    lemma_only_in_is_filter(target, base, target.len() as int);
    lemma_only_in_is_filter(base, target, base.len() as int);
    assert(target.take(target.len() as int) =~= target);
    assert(base.take(base.len() as int) =~= base);
}

/// Against an empty base everything is added, against an empty target
/// everything is removed, and nothing is changed either way: the list is
/// the other document, whole and in its order.
pub proof fn law_diff_with_empty_document(doc: Seq<SymbolView>)
    ensures
        added_between(Seq::<SymbolView>::empty(), doc) == doc,
        removed_between(Seq::<SymbolView>::empty(), doc).len() == 0,
        changed_between(Seq::<SymbolView>::empty(), doc).len() == 0,
        removed_between(doc, Seq::<SymbolView>::empty()) == doc,
        added_between(doc, Seq::<SymbolView>::empty()).len() == 0,
        changed_between(doc, Seq::<SymbolView>::empty()).len() == 0,
{
    let none = Seq::<SymbolView>::empty();
    if changes_in(doc, none, doc.len() as int).len() > 0 {
        let i = lemma_changes_in_origin(doc, none, doc.len() as int, 0);
    }
    lemma_only_in_against_empty(doc, doc.len() as int);
    assert(doc.take(doc.len() as int) =~= doc);
}

/// Against the empty document every symbol so far is listed.
proof fn lemma_only_in_against_empty(doc: Seq<SymbolView>, n: int)
    requires
        0 <= n <= doc.len(),
    ensures
        only_in(doc, Seq::<SymbolView>::empty(), n) == doc.take(n),
    decreases n,
{
    let none = Seq::<SymbolView>::empty();
    if n > 0 {
        lemma_only_in_against_empty(doc, n - 1);
        assert(is_exclusive(doc, none, n - 1));
        assert(doc.take(n) =~= doc.take(n - 1).push(doc[n - 1]));
    } else {
        assert(doc.take(0) =~= none);
    }
}

} // verus!
