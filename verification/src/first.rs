//! The first item of a sequence that meets a condition.

use vstd::prelude::*;

verus! {

/// The item at `i` meets the condition, and no item before it does.
pub open spec fn is_first<T>(items: Seq<T>, found: spec_fn(T) -> bool, i: int) -> bool {
    &&& 0 <= i < items.len()
    &&& found(items[i])
    &&& forall|j: int| 0 <= j < i ==> !#[trigger] found(items[j])
}

/// The position of the first item that meets the condition, if any item does.
pub open spec fn first<T>(items: Seq<T>, found: spec_fn(T) -> bool) -> Option<int> {
    if exists|i: int| is_first(items, found, i) {
        Some(choose|i: int| is_first(items, found, i))
    } else {
        None
    }
}

/// Where the first item that meets the condition stands at `i`, that is its position.
pub proof fn lemma_first_at<T>(items: Seq<T>, found: spec_fn(T) -> bool, i: int)
    requires
        is_first(items, found, i),
    ensures
        first(items, found) == Some(i),
{
    let chosen = choose|k: int| is_first(items, found, k);
    if chosen < i {
        assert(!found(items[chosen]));
    } else if i < chosen {
        assert(!found(items[i]));
    }
}

/// Where no item meets the condition, there is no first one.
pub proof fn lemma_first_none<T>(items: Seq<T>, found: spec_fn(T) -> bool)
    requires
        forall|i: int| 0 <= i < items.len() ==> !#[trigger] found(items[i]),
    ensures
        first(items, found) is None,
{
}

/// Where one of the first `n` items meets the condition, one of them is the first to.
pub proof fn lemma_first_among<T>(items: Seq<T>, found: spec_fn(T) -> bool, n: int) -> (i: int)
    requires
        0 <= n <= items.len(),
        exists|k: int| 0 <= k < n && #[trigger] found(items[k]),
    ensures
        is_first(items, found, i),
        i < n,
    decreases n,
{
    if exists|k: int| 0 <= k < n - 1 && #[trigger] found(items[k]) {
        lemma_first_among(items, found, n - 1)
    } else {
        let k = choose|k: int| 0 <= k < n && #[trigger] found(items[k]);
        assert(k == n - 1);
        assert forall|j: int| 0 <= j < k implies !#[trigger] found(items[j]) by {
            if found(items[j]) {
                assert(0 <= j < n - 1 && found(items[j]));
            }
        }
        k
    }
}

/// There is a first item that meets the condition exactly where some item meets it, and
/// the position given is that of the first.
pub proof fn lemma_first_is_some_iff<T>(items: Seq<T>, found: spec_fn(T) -> bool)
    ensures
        first(items, found) is Some <==> exists|i: int|
            0 <= i < items.len() && #[trigger] found(items[i]),
        first(items, found) matches Some(i) ==> is_first(items, found, i),
{
    if exists|i: int| 0 <= i < items.len() && #[trigger] found(items[i]) {
        let i = lemma_first_among(items, found, items.len() as int);
        lemma_first_at(items, found, i);
    } else {
        lemma_first_none(items, found);
    }
}

} // verus!
