//! Looking for the first element of a sequence that meets a condition.

use vstd::prelude::*;

verus! {

/// The first element that is wanted, if any is.
pub open spec fn first_match<T>(items: Seq<T>, wanted: spec_fn(T) -> bool) -> Option<T>
    decreases items.len(),
{
    if items.len() == 0 {
        None
    } else if wanted(items[0]) {
        Some(items[0])
    } else {
        first_match(items.skip(1), wanted)
    }
}

/// A search that has come to position `i` ends there if the element is
/// wanted, and goes on behind it if not.
pub proof fn lemma_first_match_step<T>(items: Seq<T>, wanted: spec_fn(T) -> bool, i: int)
    requires
        0 <= i < items.len(),
    ensures
        first_match(items.skip(i), wanted) == if wanted(items[i]) {
            Some(items[i])
        } else {
            first_match(items.skip(i + 1), wanted)
        },
{
    assert(items.skip(i).skip(1) =~= items.skip(i + 1));
}

/// A search finds nothing exactly when no element is wanted.
pub proof fn lemma_first_match_none<T>(items: Seq<T>, wanted: spec_fn(T) -> bool)
    ensures
        first_match(items, wanted) is None <==> forall|i: int|
            0 <= i < items.len() ==> !wanted(#[trigger] items[i]),
    decreases items.len(),
{
    if items.len() > 0 {
        let rest = items.skip(1);
        lemma_first_match_none(rest, wanted);
        if !wanted(items[0]) {
            if first_match(rest, wanted) is None {
                assert forall|i: int| 0 <= i < items.len() implies !wanted(#[trigger] items[i]) by {
                    if i > 0 {
                        assert(items[i] == rest[i - 1]);
                    }
                }
            } else {
                let j = choose|j: int| 0 <= j < rest.len() && wanted(#[trigger] rest[j]);
                assert(items[j + 1] == rest[j]);
            }
        }
    }
}

/// What a search finds is wanted, stands in the sequence, and has nothing
/// wanted before it.
pub proof fn lemma_first_match_some<T>(items: Seq<T>, wanted: spec_fn(T) -> bool)
    requires
        first_match(items, wanted) is Some,
    ensures
        exists|i: int|
            0 <= i < items.len() && first_match(items, wanted) == Some(#[trigger] items[i])
                && wanted(items[i]) && forall|j: int| 0 <= j < i ==> !wanted(#[trigger] items[j]),
    decreases items.len(),
{
    if wanted(items[0]) {
        assert(first_match(items, wanted) == Some(items[0]));
    } else {
        let rest = items.skip(1);
        lemma_first_match_some(rest, wanted);
        let k = choose|k: int|
            0 <= k < rest.len() && first_match(rest, wanted) == Some(#[trigger] rest[k]) && wanted(
                rest[k],
            ) && forall|j: int| 0 <= j < k ==> !wanted(#[trigger] rest[j]);
        assert(items[k + 1] == rest[k]);
        assert forall|j: int| 0 <= j < k + 1 implies !wanted(#[trigger] items[j]) by {
            if j > 0 {
                assert(items[j] == rest[j - 1]);
            }
        }
    }
}

} // verus!
