//! Pairing two parallel lists by position, as the loaders pair keyframes with
//! timestamps and materials with submeshes.

use vstd::prelude::*;

verus! {

/// The positions `i < n` that the second list covers (`i < flags.len()`) and
/// where it holds an entry (`flags[i]`), in increasing order.
pub open spec fn spec_paired(n: nat, flags: Seq<bool>) -> Seq<usize>
    decreases n,
{
    if n == 0 {
        Seq::empty()
    } else {
        let i = (n - 1) as nat;
        let rest = spec_paired(i, flags);
        if i < flags.len() && flags[i as int] {
            rest.push(i as usize)
        } else {
            rest
        }
    }
}

/// The positions of the first list (of length `n`) that have a partner in the
/// second: a position the second list reaches and where it holds an entry.
/// Positions past the end of either list are skipped, as `Vec::get` skips
/// them.
pub fn paired_indices(n: usize, flags: &Vec<bool>) -> (r: Vec<usize>)
    ensures
        r@ == spec_paired(n as nat, flags@),
{
    let mut r: Vec<usize> = Vec::new();
    let mut i: usize = 0;
    while i < n
        invariant
            i <= n,
            r@ == spec_paired(i as nat, flags@),
        decreases n - i,
    {
        if i < flags.len() && flags[i] {
            r.push(i);
        }
        i += 1;
    }
    r
}

/// The paired positions are exactly the covered positions with an entry,
/// each listed once, in strictly increasing order.
pub proof fn lemma_paired_exact(n: nat, flags: Seq<bool>)
    requires
        n <= usize::MAX,
    ensures
        forall|k: int|
            0 <= k < spec_paired(n, flags).len() ==> {
                let i = #[trigger] spec_paired(n, flags)[k];
                &&& i < n
                &&& i < flags.len()
                &&& flags[i as int]
            },
        forall|i: usize|
            i < n && i < flags.len() && flags[i as int] ==> #[trigger] spec_paired(n, flags).contains(
                i,
            ),
        forall|a: int, b: int|
            0 <= a < b < spec_paired(n, flags).len() ==> spec_paired(n, flags)[a] < spec_paired(
                n,
                flags,
            )[b],
    decreases n,
{
    if n > 0 {
        let m = (n - 1) as nat;
        lemma_paired_exact(m, flags);
        let rest = spec_paired(m, flags);
        if m < flags.len() && flags[m as int] {
            let full = rest.push(m as usize);
            assert(m as usize == m);
            assert forall|a: int, b: int| 0 <= a < b < full.len() implies full[a] < full[b] by {
                if b == rest.len() {
                    assert(rest[a] < m);
                }
            }
            assert forall|i: usize| i < n && i < flags.len() && flags[i as int] implies #[trigger] full.contains(i) by {
                if i == m {
                    assert(full[rest.len() as int] == i);
                } else {
                    assert(rest.contains(i));
                    let k = choose|k: int| 0 <= k < rest.len() && rest[k] == i;
                    assert(full[k] == i);
                }
            }
        }
    }
}

} // verus!
