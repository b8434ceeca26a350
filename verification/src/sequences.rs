//! Facts about sequences that several modules lean on.

use vstd::prelude::*;

verus! {

/// Filtering a sequence extended by one element extends the filtered
/// sequence by that element exactly when it passes the test.
pub proof fn lemma_filter_push<T>(items: Seq<T>, last: T, test: spec_fn(T) -> bool)
    ensures
        items.push(last).filter(test) == if test(last) {
            items.filter(test).push(last)
        } else {
            items.filter(test)
        },
{
    assert(items.push(last).drop_last() == items);
    reveal(Seq::filter);
}

} // verus!
