//! Facts about sequences that several modules use.

use vstd::prelude::*;

verus! {

/// Filtering one element more either appends that element or changes nothing.
pub proof fn lemma_filter_next<A>(items: Seq<A>, i: int, keep: spec_fn(A) -> bool)
    requires
        0 <= i < items.len(),
    ensures
        items.take(i + 1).filter(keep) == if keep(items[i]) {
            items.take(i).filter(keep).push(items[i])
        } else {
            items.take(i).filter(keep)
        },
{
    reveal(Seq::filter);
    assert(items.take(i + 1).drop_last() =~= items.take(i));
}

/// Filtering nothing gives nothing.
pub proof fn lemma_filter_nothing<A>(items: Seq<A>, keep: spec_fn(A) -> bool)
    ensures
        items.take(0).filter(keep) == Seq::<A>::empty(),
{
    reveal(Seq::filter);
    assert(items.take(0).filter(keep) =~= Seq::<A>::empty());
}

/// Where a test holds of exactly the elements from `low` up to `high`,
/// filtering by it cuts that stretch out.
pub proof fn lemma_filter_stretch<A>(items: Seq<A>, keep: spec_fn(A) -> bool, low: int, high: int)
    requires
        0 <= low <= high <= items.len(),
        forall|k: int| 0 <= k < items.len() ==> keep(#[trigger] items[k]) == (low <= k < high),
    ensures
        items.filter(keep) == items.subrange(low, high),
    decreases items.len(),
{
    reveal(Seq::filter);
    if items.len() == 0 {
        assert(items.filter(keep) =~= items.subrange(low, high));
    } else {
        let rest = items.drop_last();
        let last = items.len() - 1;
        assert forall|k: int| 0 <= k < rest.len() implies rest[k] == items[k] by {}
        if high == items.len() && low < high {
            assert(keep(items[last]));
            assert forall|k: int| 0 <= k < rest.len() implies keep(#[trigger] rest[k]) == (low <= k
                < high - 1) by {
                assert(rest[k] == items[k]);
            }
            lemma_filter_stretch(rest, keep, low, high - 1);
            assert(rest.subrange(low, high - 1).push(items.last()) =~= items.subrange(low, high));
        } else {
            assert(!keep(items[last]));
            let cut_low = if low <= rest.len() { low } else { rest.len() as int };
            let cut_high = if high <= rest.len() { high } else { rest.len() as int };
            assert forall|k: int| 0 <= k < rest.len() implies keep(#[trigger] rest[k]) == (cut_low
                <= k < cut_high) by {
                assert(rest[k] == items[k]);
            }
            lemma_filter_stretch(rest, keep, cut_low, cut_high);
            assert(rest.subrange(cut_low, cut_high) =~= items.subrange(low, high));
        }
    }
}

} // verus!
