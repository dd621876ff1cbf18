//! Which element of a list is the first to meet a condition.

use vstd::prelude::*;

verus! {

/// `at` is the position of the first element of `items` that meets `hit`, or
/// the length of `items` when no element does.
pub open spec fn is_first_hit<A>(items: Seq<A>, hit: spec_fn(A) -> bool, at: int) -> bool {
    &&& 0 <= at <= items.len()
    &&& forall|j: int| 0 <= j < at ==> !hit(#[trigger] items[j])
    &&& at < items.len() ==> hit(items[at])
}

/// The position of the first element of `items` that meets `hit`, or the
/// length of `items` when no element does.
pub open spec fn first_hit<A>(items: Seq<A>, hit: spec_fn(A) -> bool) -> int {
    choose|at: int| is_first_hit(items, hit, at)
}

/// There is exactly one first hit: whatever position passes `is_first_hit`
/// is the one that `first_hit` names.
pub proof fn lemma_first_hit_unique<A>(items: Seq<A>, hit: spec_fn(A) -> bool, at: int)
    requires
        is_first_hit(items, hit, at),
    ensures
        first_hit(items, hit) == at,
{
}

/// `first_hit` always names a position that passes `is_first_hit`.
pub proof fn lemma_first_hit_exists<A>(items: Seq<A>, hit: spec_fn(A) -> bool)
    ensures
        is_first_hit(items, hit, first_hit(items, hit)),
    decreases items.len(),
{
    if items.len() == 0 {
        assert(is_first_hit(items, hit, 0));
    } else {
        let front = items.drop_last();
        lemma_first_hit_exists(front, hit);
        let at = first_hit(front, hit);
        assert(forall|j: int| 0 <= j < front.len() ==> front[j] == items[j]);
        if at < front.len() {
            assert(is_first_hit(items, hit, at));
        } else if hit(items.last()) {
            assert(is_first_hit(items, hit, at));
        } else {
            assert(is_first_hit(items, hit, items.len() as int));
        }
    }
}

} // verus!
