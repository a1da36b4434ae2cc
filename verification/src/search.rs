//! The first item of a sequence that passes a test.

use vstd::prelude::*;

verus! {

/// Whether `i` is the place of the first item of `items` that is `wanted`.
pub open spec fn is_first<T>(items: Seq<T>, wanted: spec_fn(T) -> bool, i: int) -> bool {
    &&& 0 <= i < items.len()
    &&& wanted(items[i])
    &&& forall|j: int| 0 <= j < i ==> !wanted(#[trigger] items[j])
}

/// The first item of `items` that is `wanted`, if there is one.
pub open spec fn first_where<T>(items: Seq<T>, wanted: spec_fn(T) -> bool) -> Option<T> {
    if exists|i: int| is_first(items, wanted, i) {
        Some(items[choose|i: int| is_first(items, wanted, i)])
    } else {
        None
    }
}

/// The first wanted item is found at its place, and at no other.
pub proof fn lemma_first_found<T>(items: Seq<T>, wanted: spec_fn(T) -> bool, i: int)
    requires
        is_first(items, wanted, i),
    ensures
        first_where(items, wanted) == Some(items[i]),
{
    let k = choose|k: int| is_first(items, wanted, k);
    if k < i {
        assert(!wanted(items[k]));
    } else if i < k {
        assert(!wanted(items[i]));
    }
}

/// Nothing is found exactly where no item is wanted.
pub proof fn lemma_first_missing<T>(items: Seq<T>, wanted: spec_fn(T) -> bool)
    ensures
        first_where(items, wanted) is None <==> forall|j: int|
            0 <= j < items.len() ==> !wanted(#[trigger] items[j]),
{
    if exists|j: int| 0 <= j < items.len() && wanted(#[trigger] items[j]) {
        let j = choose|j: int| 0 <= j < items.len() && wanted(#[trigger] items[j]);
        lemma_some_first(items, wanted, j);
    }
}

/// Before a wanted item, or at its place, stands the first wanted one.
proof fn lemma_some_first<T>(items: Seq<T>, wanted: spec_fn(T) -> bool, j: int)
    requires
        0 <= j < items.len(),
        wanted(items[j]),
    ensures
        exists|i: int| 0 <= i <= j && is_first(items, wanted, i),
    decreases j,
{
    if exists|k: int| 0 <= k < j && wanted(#[trigger] items[k]) {
        let k = choose|k: int| 0 <= k < j && wanted(#[trigger] items[k]);
        lemma_some_first(items, wanted, k);
    } else {
        assert(is_first(items, wanted, j));
    }
}

} // verus!
