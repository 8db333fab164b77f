//! Loading screens: how far loading has come and when it is done.

use vstd::prelude::*;

verus! {

/// The number of `true` entries.
pub open spec fn count_ready(ready: Seq<bool>) -> nat
    decreases ready.len(),
{
    if ready.len() == 0 {
        0
    } else {
        count_ready(ready.drop_last()) + if ready.last() {
            1nat
        } else {
            0nat
        }
    }
}

/// How many of the awaited items are ready, out of how many.
pub struct LoadingProgress {
    pub loaded: usize,
    pub total: usize,
}

/// The progress of loading, where `ready[i]` tells whether the i-th awaited
/// item is ready.
pub fn loading_progress(ready: &Vec<bool>) -> (p: LoadingProgress)
    ensures
        p.loaded == count_ready(ready@),
        p.total == ready@.len(),
        p.loaded <= p.total,
{
    let mut loaded: usize = 0;
    let mut i: usize = 0;
    while i < ready.len()
        invariant
            i <= ready.len(),
            loaded == count_ready(ready@.take(i as int)),
            loaded <= i,
        decreases ready.len() - i,
    {
        assert(ready@.take(i + 1).drop_last() =~= ready@.take(i as int));
        if ready[i] {
            loaded += 1;
        }
        i += 1;
    }
    assert(ready@.take(ready.len() as int) =~= ready@);
    LoadingProgress { loaded, total: ready.len() }
}

/// Whether every awaited item is ready (also when nothing is awaited).
pub fn all_loaded(ready: &Vec<bool>) -> (b: bool)
    ensures
        b == (forall|i: int| 0 <= i < ready@.len() ==> ready@[i]),
{
    let mut i: usize = 0;
    while i < ready.len()
        invariant
            i <= ready.len(),
            forall|j: int| 0 <= j < i ==> ready@[j],
        decreases ready.len() - i,
    {
        if !ready[i] {
            return false;
        }
        i += 1;
    }
    true
}

/// Loading is complete exactly when every awaited item counts as loaded.
pub proof fn lemma_all_loaded_iff_count(ready: Seq<bool>)
    ensures
        (forall|i: int| 0 <= i < ready.len() ==> ready[i]) <==> count_ready(ready) == ready.len(),
        count_ready(ready) <= ready.len(),
    decreases ready.len(),
{
    if ready.len() > 0 {
        let rest = ready.drop_last();
        lemma_all_loaded_iff_count(rest);
        if forall|i: int| 0 <= i < ready.len() ==> ready[i] {
            assert forall|i: int| 0 <= i < rest.len() implies rest[i] by {
                assert(ready[i]);
            }
            assert(ready[ready.len() - 1]);
        }
        if count_ready(ready) == ready.len() {
            assert forall|i: int| 0 <= i < ready.len() implies ready[i] by {
                if i < ready.len() - 1 {
                    assert(rest[i] == ready[i]);
                }
            }
        }
    }
}

} // verus!
