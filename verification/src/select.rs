//! Lists of positions: all positions of a list, and those that pass a test.

use vstd::prelude::*;

verus! {

/// The positions below `n` at which `flags` is set, ascending.
pub open spec fn flagged(flags: Seq<bool>, n: int) -> Seq<usize>
    decreases n,
{
    if n <= 0 {
        Seq::empty()
    } else if flags[n - 1] {
        flagged(flags, n - 1).push((n - 1) as usize)
    } else {
        flagged(flags, n - 1)
    }
}

/// The positions `0, 1, .., n - 1`.
pub open spec fn positions(n: nat) -> Seq<usize> {
    Seq::new(n, |i: int| i as usize)
}

/// `flagged` lists exactly the set positions, each once and in ascending
/// order.
pub proof fn lemma_flagged(flags: Seq<bool>, n: int)
    requires
        0 <= n <= flags.len(),
        n <= usize::MAX,
    ensures
        flagged(flags, n).len() <= n,
        forall|k: int|
            0 <= k < flagged(flags, n).len() ==> 0 <= (#[trigger] flagged(flags, n)[k]) < n
                && flags[flagged(flags, n)[k] as int],
        forall|j: int, k: int|
            0 <= j < k < flagged(flags, n).len() ==> flagged(flags, n)[j] < flagged(flags, n)[k],
        forall|i: int|
            0 <= i < n && flags[i] ==> exists|k: int|
                0 <= k < flagged(flags, n).len() && #[trigger] flagged(flags, n)[k] == i,
    decreases n,
{
    if n > 0 {
        lemma_flagged(flags, n - 1);
        let rest = flagged(flags, n - 1);
        let all = flagged(flags, n);
        assert forall|i: int| 0 <= i < n && flags[i] implies exists|k: int|
            0 <= k < all.len() && #[trigger] all[k] == i by {
            if i < n - 1 {
                let k = choose|k: int| 0 <= k < rest.len() && #[trigger] rest[k] == i;
                assert(all[k] == i);
            } else {
                assert(all[all.len() - 1] == i);
            }
        }
    }
}

/// The positions `0, 1, .., n - 1`.
pub fn all_positions(n: usize) -> (all: Vec<usize>)
    ensures
        all@ == positions(n as nat),
{
    let mut all: Vec<usize> = Vec::new();
    let mut i: usize = 0;
    while i < n
        invariant
            i <= n,
            all@ == positions(i as nat),
        decreases n - i,
    {
        all.push(i);
        i += 1;
    }
    all
}

/// The positions at which `flags` is set, ascending.
pub fn flagged_positions(flags: &Vec<bool>) -> (chosen: Vec<usize>)
    ensures
        chosen@ == flagged(flags@, flags.len() as int),
{
    let mut chosen: Vec<usize> = Vec::new();
    let mut i: usize = 0;
    while i < flags.len()
        invariant
            i <= flags.len(),
            chosen@ == flagged(flags@, i as int),
        decreases flags.len() - i,
    {
        if flags[i] {
            chosen.push(i);
        }
        i += 1;
    }
    chosen
}

/// Whether `value` is among `list`.
pub fn contains_position(list: &Vec<usize>, value: usize) -> (found: bool)
    ensures
        found == list@.contains(value),
{
    let mut i: usize = 0;
    while i < list.len()
        invariant
            i <= list.len(),
            forall|k: int| 0 <= k < i ==> list@[k] != value,
        decreases list.len() - i,
    {
        if list[i] == value {
            return true;
        }
        i += 1;
    }
    false
}

} // verus!
