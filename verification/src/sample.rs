//! Sampling without replacement: the first picks of a Fisher-Yates shuffle
//! of the numbers below `size`, without laying the whole range out.
//!
//! Think of an array that holds `k` at index `k`. Pick number `i` draws an
//! index `j` from `i` up to the end, gives out what stands at `j`, and moves
//! what stands at `i` to `j`. Only the moved entries are kept, in a map; an
//! index that the map does not hold still stands for itself.

use vstd::prelude::*;
use vstd::set_lib::{lemma_int_range, lemma_len_subset, lemma_subset_equality, set_int_range};
use std::collections::HashMap;
use crate::rng::{advance, mix_below, SplitMix64};

verus! {

/// What stands at index `k` of the array that `moved` describes.
pub open spec fn slot(moved: Map<u64, u64>, k: u64) -> u64 {
    if moved.contains_key(k) {
        moved[k]
    } else {
        k
    }
}

/// The state of a shuffle: the moved entries, the state of the generator
/// and the picks made so far, in their order.
pub struct Shuffle {
    pub moved: Map<u64, u64>,
    pub state: u64,
    pub picks: Seq<u64>,
}

/// The index that pick number `at` draws when the generator is in `state`.
pub open spec fn drawn_index(size: u64, at: nat, state: u64) -> u64
    recommends
        at < size,
{
    (at + mix_below(advance(state), (size - at) as u64)) as u64
}

/// The shuffle of the numbers below `size` after `count` picks, started
/// from `seed`.
pub open spec fn shuffle(size: u64, seed: u64, count: nat) -> Shuffle
    decreases count,
{
    if count == 0 {
        Shuffle { moved: Map::empty(), state: seed, picks: Seq::empty() }
    } else {
        let before = shuffle(size, seed, (count - 1) as nat);
        let at = (count - 1) as u64;
        let j = drawn_index(size, (count - 1) as nat, before.state);
        Shuffle {
            moved: before.moved.insert(j, slot(before.moved, at)),
            state: advance(before.state),
            picks: before.picks.push(slot(before.moved, j)),
        }
    }
}

/// The first `count` picks of the shuffle of the numbers below `size`.
pub open spec fn sample(size: u64, seed: u64, count: nat) -> Seq<u64> {
    shuffle(size, seed, count).picks
}

/// The picks are below `size`, and no two of them are equal.
pub open spec fn picks_distinct_below(picks: Seq<u64>, size: u64) -> bool {
    &&& forall|t: int| 0 <= t < picks.len() ==> #[trigger] picks[t] < size
    &&& forall|t: int, u: int|
        0 <= t < picks.len() && 0 <= u < picks.len() && t != u ==> #[trigger] picks[t]
            != #[trigger] picks[u]
}

/// What is left of the array from index `from` on holds numbers below
/// `size`, no number twice, and none of the picks.
pub open spec fn rest_disjoint(s: Shuffle, size: u64, from: nat) -> bool {
    &&& forall|k: u64| from <= k < size ==> #[trigger] slot(s.moved, k) < size
    &&& forall|k: u64, l: u64|
        from <= k < size && from <= l < size && k != l ==> #[trigger] slot(s.moved, k)
            != #[trigger] slot(s.moved, l)
    &&& forall|k: u64, t: int|
        from <= k < size && 0 <= t < s.picks.len() ==> #[trigger] slot(s.moved, k)
            != #[trigger] s.picks[t]
}

/// After `count` picks, with `count` at most `size`: there are `count`
/// picks, all below `size` and pairwise distinct, and the rest of the array
/// holds other numbers below `size`, each once.
pub proof fn lemma_shuffle_invariant(size: u64, seed: u64, count: nat)
    requires
        count <= size,
    ensures
        shuffle(size, seed, count).picks.len() == count,
        picks_distinct_below(shuffle(size, seed, count).picks, size),
        rest_disjoint(shuffle(size, seed, count), size, count),
    decreases count,
{
    if count > 0 {
        let before = shuffle(size, seed, (count - 1) as nat);
        let after = shuffle(size, seed, count);
        lemma_shuffle_invariant(size, seed, (count - 1) as nat);
        let at = (count - 1) as u64;
        let j = drawn_index(size, (count - 1) as nat, before.state);
        assert(at <= j < size);
        let given = slot(before.moved, j);
        let kept = slot(before.moved, at);
        assert(after.picks == before.picks.push(given));
        assert(after.moved == before.moved.insert(j, kept));
        assert forall|k: u64| count <= k < size implies #[trigger] slot(after.moved, k) == (if k
            == j {
            kept
        } else {
            slot(before.moved, k)
        }) by {}
        assert forall|t: int| 0 <= t < after.picks.len() implies #[trigger] after.picks[t]
            < size by {
            if t < before.picks.len() {
                assert(after.picks[t] == before.picks[t]);
            }
        }
        assert forall|t: int, u: int|
            0 <= t < after.picks.len() && 0 <= u < after.picks.len() && t != u implies
            #[trigger] after.picks[t] != #[trigger] after.picks[u] by {
            if t < before.picks.len() && u < before.picks.len() {
                assert(after.picks[t] == before.picks[t]);
                assert(after.picks[u] == before.picks[u]);
            } else if t < before.picks.len() {
                assert(after.picks[t] == before.picks[t]);
                assert(slot(before.moved, j) != before.picks[t]);
            } else {
                assert(after.picks[u] == before.picks[u]);
                assert(slot(before.moved, j) != before.picks[u]);
            }
        }
        assert forall|k: u64, l: u64|
            count <= k < size && count <= l < size && k != l implies #[trigger] slot(
            after.moved,
            k,
        ) != #[trigger] slot(after.moved, l) by {
            assert(slot(before.moved, k) != slot(before.moved, l));
            assert(slot(before.moved, k) != slot(before.moved, at));
            assert(slot(before.moved, l) != slot(before.moved, at));
        }
        assert forall|k: u64, t: int|
            count <= k < size && 0 <= t < after.picks.len() implies #[trigger] slot(
            after.moved,
            k,
        ) != #[trigger] after.picks[t] by {
            if t < before.picks.len() {
                assert(after.picks[t] == before.picks[t]);
                assert(slot(before.moved, k) != before.picks[t]);
                assert(slot(before.moved, at) != before.picks[t]);
            } else {
                assert(after.picks[t] == given);
                if k == j {
                    assert(slot(before.moved, at) != slot(before.moved, j));
                } else {
                    assert(slot(before.moved, k) != slot(before.moved, j));
                }
            }
        }
    }
}

/// As many distinct numbers below `size` as `size` says are all of them.
pub proof fn lemma_distinct_cover(picks: Seq<u64>, size: u64, k: u64)
    requires
        picks.len() == size,
        picks_distinct_below(picks, size),
        k < size,
    ensures
        exists|t: int| 0 <= t < picks.len() && picks[t] == k,
{
    let ints = picks.map_values(|v: u64| v as int);
    assert(ints.no_duplicates()) by {
        assert forall|t: int, u: int|
            0 <= t < ints.len() && 0 <= u < ints.len() && t != u implies ints[t] != ints[u] by {
            assert(picks[t] != picks[u]);
        }
    }
    ints.unique_seq_to_set();
    let range = set_int_range(0, size as int);
    lemma_int_range(0, size as int);
    assert(ints.to_set().subset_of(range)) by {
        assert forall|x: int| ints.to_set().contains(x) implies range.contains(x) by {
            let t = choose|t: int| 0 <= t < ints.len() && ints[t] == x;
            assert(picks[t] < size);
        }
    }
    lemma_len_subset(ints.to_set(), range);
    lemma_subset_equality(ints.to_set(), range);
    assert(range.contains(k as int));
    assert(ints.to_set().contains(k as int));
    let t = choose|t: int| 0 <= t < ints.len() && ints[t] == k as int;
    assert(picks[t] == k);
}

/// Draws `count` distinct numbers below `size`, in the order of the picks.
pub fn sample_distinct(size: u64, seed: u64, count: u64) -> (out: Vec<u64>)
    requires
        count <= size,
    ensures
        out@ == sample(size, seed, count as nat),
        out@.len() == count,
        picks_distinct_below(out@, size),
{
    let mut rng = SplitMix64::new(seed);
    let mut moved: HashMap<u64, u64> = HashMap::new();
    let mut out: Vec<u64> = Vec::new();
    let mut i: u64 = 0;
    while i < count
        invariant
            i <= count <= size,
            moved@ == shuffle(size, seed, i as nat).moved,
            rng.state == shuffle(size, seed, i as nat).state,
            out@ == shuffle(size, seed, i as nat).picks,
        decreases count - i,
    {
        let j: u64 = i + rng.next_below(size - i);
        let given: u64 = match moved.get(&j) {
            Some(v) => *v,
            None => j,
        };
        let kept: u64 = match moved.get(&i) {
            Some(v) => *v,
            None => i,
        };
        out.push(given);
        moved.insert(j, kept);
        proof {
            assert(j == drawn_index(size, i as nat, shuffle(size, seed, i as nat).state));
            assert(shuffle(size, seed, (i + 1) as nat).picks == shuffle(
                size,
                seed,
                i as nat,
            ).picks.push(given));
        }
        i = i + 1;
    }
    proof {
        lemma_shuffle_invariant(size, seed, count as nat);
    }
    out
}

} // verus!
