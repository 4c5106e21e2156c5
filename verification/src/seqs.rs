//! Sequences of values seen through their views.

use vstd::prelude::*;

verus! {

/// The views of the values of `s`, in the same order.
pub open spec fn views<T: View>(s: Seq<T>) -> Seq<T::V> {
    s.map_values(|x: T| x@)
}

/// The values of `ids` with no value repeated: each stands where it first
/// occurs.
pub open spec fn first_occurrences<A>(ids: Seq<A>) -> Seq<A>
    decreases ids.len(),
{
    if ids.len() == 0 {
        ids
    } else {
        let before = first_occurrences(ids.drop_last());
        if before.contains(ids.last()) {
            before
        } else {
            before.push(ids.last())
        }
    }
}

/// The distinct values of a sequence are values of that sequence, each of its
/// values is among them, and none occurs twice.
pub proof fn lemma_first_occurrences<A>(ids: Seq<A>)
    ensures
        first_occurrences(ids).no_duplicates(),
        forall|x: A| first_occurrences(ids).contains(x) <==> ids.contains(x),
    decreases ids.len(),
{
    if ids.len() > 0 {
        let init = ids.drop_last();
        let before = first_occurrences(init);
        lemma_first_occurrences(init);
        assert forall|x: A| first_occurrences(ids).contains(x) <==> ids.contains(x) by {
            if ids.contains(x) {
                let i = choose|i: int| 0 <= i < ids.len() && ids[i] == x;
                if i < init.len() {
                    assert(init[i] == x);
                    assert(init.contains(x));
                    assert(before.contains(x));
                    if !before.contains(ids.last()) {
                        let j = choose|j: int| 0 <= j < before.len() && before[j] == x;
                        assert(before.push(ids.last())[j] == x);
                    }
                } else {
                    assert(x == ids.last());
                    if !before.contains(ids.last()) {
                        assert(before.push(ids.last())[before.len() as int] == x);
                    }
                }
            }
            if first_occurrences(ids).contains(x) {
                let j = choose|j: int|
                    0 <= j < first_occurrences(ids).len() && first_occurrences(ids)[j] == x;
                if j < before.len() {
                    assert(before[j] == x);
                    assert(before.contains(x));
                    assert(init.contains(x));
                    let i = choose|i: int| 0 <= i < init.len() && init[i] == x;
                    assert(ids[i] == x);
                } else {
                    assert(x == ids.last());
                    assert(ids[ids.len() - 1] == x);
                }
            }
        }
    }
}

} // verus!
