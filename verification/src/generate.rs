//! Generation of distinct numbers with their check characters.

use vstd::prelude::*;
use crate::checksum::{calculate_verifier, verifier_of};
use crate::entropy::fresh_seed;
use crate::errors::{GenerateError, GenerateFault};
use crate::sample::{
    lemma_distinct_cover, lemma_shuffle_invariant, picks_distinct_below, sample, sample_distinct,
};

verus! {

/// A generated number and its check character.
#[derive(Debug, Clone, Copy, PartialEq, Eq)]
pub struct GeneratedPair {
    pub correlative: u32,
    pub verifier: char,
}

/// The pair of the number `x`.
pub open spec fn pair_of(x: nat) -> GeneratedPair {
    GeneratedPair { correlative: x as u32, verifier: verifier_of(x) }
}

/// The reason given when the count is zero or negative.
pub open spec fn reason_count() -> Seq<char> {
    "n must be greater than zero"@
}

/// The reason given when the range starts below zero.
pub open spec fn reason_negative() -> Seq<char> {
    "min must not be negative"@
}

/// How many numbers the range from `min` to `max` holds.
pub open spec fn available(min: int, max: int) -> int {
    max - min + 1
}

/// The fault of a request, if it has one. The checks come in this order:
/// the bounds, the count, the size of the range, the sign of the lower
/// bound. So a range that is too small is reported as such wherever it
/// lies, and a range that starts below zero is refused only when it is
/// large enough: a negative number has no check character.
pub open spec fn request_fault(n: int, min: int, max: int) -> Option<GenerateFault> {
    if min > max {
        Some(GenerateFault::InvalidRange { min, max })
    } else if n <= 0 {
        Some(GenerateFault::InvalidInput { reason: reason_count() })
    } else if available(min, max) < n {
        Some(
            GenerateFault::InsufficientRange {
                requested: n as nat,
                available: available(min, max) as nat,
            },
        )
    } else if min < 0 {
        Some(GenerateFault::InvalidInput { reason: reason_negative() })
    } else {
        None
    }
}

/// The pairs of a faultless request: pick number `t` of the sample of the
/// range, counted from `min`, with its check character.
pub open spec fn generated(n: int, min: int, max: int, seed: i64) -> Seq<GeneratedPair> {
    Seq::new(
        n as nat,
        |t: int| pair_of((min + sample(available(min, max) as u64, seed as u64, n as nat)[t]) as nat),
    )
}

/// What generation returns for a request and a seed.
pub open spec fn generate_outcome(n: int, min: int, max: int, seed: i64) -> Result<
    Seq<GeneratedPair>,
    GenerateFault,
> {
    match request_fault(n, min, max) {
        Some(fault) => Err(fault),
        None => Ok(generated(n, min, max, seed)),
    }
}

/// The view of a generation result.
pub open spec fn generate_result_view(r: Result<Vec<GeneratedPair>, GenerateError>) -> Result<
    Seq<GeneratedPair>,
    GenerateFault,
> {
    match r {
        Ok(pairs) => Ok(pairs@),
        Err(e) => Err(e@),
    }
}

/// There are `n` pairs, each number lies from `min` to `max` and carries
/// its own check character, and no number comes twice.
pub open spec fn pairs_valid(pairs: Seq<GeneratedPair>, n: int, min: int, max: int) -> bool {
    &&& pairs.len() == n
    &&& forall|t: int|
        0 <= t < pairs.len() ==> min <= (#[trigger] pairs[t]).correlative <= max
            && pairs[t].verifier == verifier_of(pairs[t].correlative as nat)
    &&& forall|t: int, u: int|
        0 <= t < pairs.len() && 0 <= u < pairs.len() && t != u ==> (#[trigger] pairs[t]).correlative
            != (#[trigger] pairs[u]).correlative
}

/// A request without a fault succeeds, whatever the seed, and its pairs
/// are valid: distinct numbers of the range, each with its check character.
pub proof fn lemma_generated_valid(n: int, min: int, max: int, seed: i64)
    requires
        request_fault(n, min, max) is None,
        max <= i32::MAX,
    ensures
        generate_outcome(n, min, max, seed) == Ok::<Seq<GeneratedPair>, GenerateFault>(
            generated(n, min, max, seed),
        ),
        pairs_valid(generated(n, min, max, seed), n, min, max),
{
    let size = available(min, max) as u64;
    let picks = sample(size, seed as u64, n as nat);
    lemma_shuffle_invariant(size, seed as u64, n as nat);
    let pairs = generated(n, min, max, seed);
    assert forall|t: int| 0 <= t < pairs.len() implies min <= (#[trigger] pairs[t]).correlative
        <= max && pairs[t].verifier == verifier_of(pairs[t].correlative as nat) by {
        assert(picks[t] < size);
    }
    assert forall|t: int, u: int|
        0 <= t < pairs.len() && 0 <= u < pairs.len() && t != u implies (#[trigger] pairs[t]).correlative
        != (#[trigger] pairs[u]).correlative by {
        assert(picks[t] < size && picks[u] < size);
        assert(picks[t] != picks[u]);
    }
}

/// Two results of one request and one seed hold the same pairs in the same
/// order, or the same error.
pub proof fn lemma_generate_deterministic(
    first: Result<Vec<GeneratedPair>, GenerateError>,
    second: Result<Vec<GeneratedPair>, GenerateError>,
    n: int,
    min: int,
    max: int,
    seed: i64,
)
    requires
        generate_result_view(first) == generate_outcome(n, min, max, seed),
        generate_result_view(second) == generate_outcome(n, min, max, seed),
    ensures
        generate_result_view(first) == generate_result_view(second),
        first is Ok ==> second is Ok && first->Ok_0@ == second->Ok_0@,
{
}

/// A request for one number more than a range holds is refused for want
/// of range, wherever the range lies and whatever the seed.
pub proof fn lemma_generate_one_too_many(min: int, max: int, seed: i64)
    requires
        min <= max,
    ensures
        generate_outcome(available(min, max) + 1, min, max, seed) == Err::<
            Seq<GeneratedPair>,
            GenerateFault,
        >(
            GenerateFault::InsufficientRange {
                requested: (available(min, max) + 1) as nat,
                available: available(min, max) as nat,
            },
        ),
{
}

/// A request for as many numbers as a range from zero up holds succeeds
/// and gives every number of the range.
pub proof fn lemma_generate_exhausts(min: int, max: int, seed: i64, x: int)
    requires
        0 <= min <= max <= i32::MAX,
        min <= x <= max,
    ensures
        generate_outcome(available(min, max), min, max, seed) is Ok,
        exists|t: int|
            0 <= t < available(min, max) && (#[trigger] generated(
                available(min, max),
                min,
                max,
                seed,
            )[t]).correlative == x,
{
    let n = available(min, max);
    let size = n as u64;
    let picks = sample(size, seed as u64, n as nat);
    lemma_shuffle_invariant(size, seed as u64, n as nat);
    lemma_distinct_cover(picks, size, (x - min) as u64);
    let t = choose|t: int| 0 <= t < picks.len() && picks[t] == (x - min) as u64;
    assert(generated(n, min, max, seed)[t].correlative == x);
}

/// Generates `n` distinct numbers from `min` to `max`, each with its check
/// character, in the order in which `seed` picks them.
///
/// The request is checked first, in this order: the bounds
/// (`InvalidRange`), the count (`InvalidInput`), the size of the range
/// (`InsufficientRange`), the sign of the lower bound (`InvalidInput`). A
/// request that passes always succeeds.
pub fn generate_seeded(n: i32, min: i32, max: i32, seed: i64) -> (out: Result<
    Vec<GeneratedPair>,
    GenerateError,
>)
    ensures
        generate_result_view(out) == generate_outcome(n as int, min as int, max as int, seed),
        out is Ok <==> request_fault(n as int, min as int, max as int) is None,
        out is Ok ==> pairs_valid(out->Ok_0@, n as int, min as int, max as int),
{
    if min > max {
        return Err(GenerateError::InvalidRange { min, max });
    }
    if n <= 0 {
        return Err(GenerateError::InvalidInput { reason: "n must be greater than zero".to_owned() });
    }
    let size: u64 = (max as i64 - min as i64 + 1) as u64;
    let count: u64 = n as u64;
    if size < count {
        return Err(GenerateError::InsufficientRange { requested: count, available: size });
    }
    if min < 0 {
        return Err(GenerateError::InvalidInput { reason: "min must not be negative".to_owned() });
    }
    let picks = sample_distinct(size, seed as u64, count);
    let base: u64 = min as u64;
    let mut pairs: Vec<GeneratedPair> = Vec::new();
    let mut t: usize = 0;
    while t < picks.len()
        invariant
            0 <= min <= max,
            base == min,
            size == available(min as int, max as int),
            picks@.len() == count,
            picks@ == sample(size, seed as u64, count as nat),
            picks_distinct_below(picks@, size),
            t <= picks@.len(),
            pairs@.len() == t,
            forall|u: int| 0 <= u < t ==> #[trigger] pairs@[u] == pair_of((min + picks@[u]) as nat),
        decreases picks@.len() - t,
    {
        assert(picks@[t as int] < size);
        let correlative: u32 = (base + picks[t]) as u32;
        match calculate_verifier(correlative) {
            Ok(verifier) => {
                pairs.push(GeneratedPair { correlative, verifier });
            },
            Err(_) => {
                return Err(
                    GenerateError::UnexpectedGeneration("no check character".to_owned()),
                );
            },
        }
        t = t + 1;
    }
    proof {
        assert(pairs@ =~= generated(n as int, min as int, max as int, seed));
        lemma_generated_valid(n as int, min as int, max as int, seed);
    }
    Ok(pairs)
}

/// Generates `n` distinct numbers from `min` to `max`, each with its check
/// character.
///
/// With a seed the result is that of [`generate_seeded`]: the same request
/// and seed give the same pairs in the same order. Without one a fresh seed
/// is drawn, and the result is that of some seed.
pub fn generate(n: i32, min: i32, max: i32, seed: Option<i64>) -> (out: Result<
    Vec<GeneratedPair>,
    GenerateError,
>)
    ensures
        match seed {
            Some(s) => generate_result_view(out) == generate_outcome(
                n as int,
                min as int,
                max as int,
                s,
            ),
            None => exists|s: i64|
                generate_result_view(out) == #[trigger] generate_outcome(
                    n as int,
                    min as int,
                    max as int,
                    s,
                ),
        },
        out is Ok <==> request_fault(n as int, min as int, max as int) is None,
        out is Ok ==> pairs_valid(out->Ok_0@, n as int, min as int, max as int),
{
    let chosen: i64 = match seed {
        Some(s) => s,
        None => fresh_seed(),
    };
    generate_seeded(n, min, max, chosen)
}

} // verus!
