use cl_forge::entropy::seed_of_hash;
use cl_forge::generate::generate_seeded;
use cl_forge::rng::SplitMix64;
use cl_forge::sample::sample_distinct;
use cl_forge::{calculate_verifier, generate, GenerateError, GeneratedPair};

fn pair(correlative: u32, verifier: char) -> GeneratedPair {
    GeneratedPair { correlative, verifier }
}

#[test]
fn splitmix_reference_values() {
    let mut rng = SplitMix64::new(1234567);
    assert_eq!(rng.next_u64(), 6457827717110365317);
    assert_eq!(rng.next_u64(), 3203168211198807973);
    assert_eq!(rng.next_u64(), 9817491932198370423);
    let mut zero = SplitMix64::new(0);
    assert_eq!(zero.next_u64(), 16294208416658607535);
    assert_eq!(zero.next_u64(), 7960286522194355700);
    assert_eq!(zero.next_u64(), 487617019471545679);
}

#[test]
fn splitmix_bounded() {
    let mut rng = SplitMix64::new(0);
    assert_eq!(rng.next_below(10), 16294208416658607535 % 10);
    assert_eq!(rng.next_below(1), 0);
    assert_eq!(rng.next_below(7), 487617019471545679 % 7);
    assert_eq!(rng.state, 0x9E37_79B9_7F4A_7C15u64.wrapping_mul(3));
}

#[test]
fn sample_whole_range() {
    assert_eq!(sample_distinct(5, 42, 5), vec![3, 4, 2, 0, 1]);
    assert_eq!(sample_distinct(5, 42, 0), Vec::<u64>::new());
    assert_eq!(sample_distinct(1, 9, 1), vec![0]);
}

#[test]
fn generate_whole_range_with_seed() {
    let pairs = generate(5, 1, 5, Some(42)).unwrap();
    assert_eq!(
        pairs,
        vec![pair(4, '3'), pair(5, '1'), pair(3, '5'), pair(1, '9'), pair(2, '7')]
    );
    let mut numbers: Vec<u32> = pairs.iter().map(|p| p.correlative).collect();
    numbers.sort();
    assert_eq!(numbers, vec![1, 2, 3, 4, 5]);
    assert_eq!(generate(5, 1, 5, Some(42)).unwrap(), pairs);
}

#[test]
fn generate_known_sequences() {
    assert_eq!(
        generate(3, 10, 2_000_000_000, Some(7)).unwrap(),
        vec![pair(1252277841, '7'), pair(143402685, '3'), pair(204169467, '2')]
    );
    assert_eq!(
        generate(4, 0, 9, Some(-1)).unwrap(),
        vec![pair(6, 'K'), pair(7, '8'), pair(3, '5'), pair(9, '4')]
    );
    assert_eq!(generate(1, i32::MAX, i32::MAX, Some(0)).unwrap(), vec![pair(2147483647, '6')]);
}

#[test]
fn generate_insufficient_range() {
    assert_eq!(
        generate(3, 1, 2, Some(1)),
        Err(GenerateError::InsufficientRange { requested: 3, available: 2 })
    );
    assert_eq!(
        generate(3, 1, 2, None),
        Err(GenerateError::InsufficientRange { requested: 3, available: 2 })
    );
}

#[test]
fn generate_insufficient_negative_range() {
    // the size of the range is checked before the sign of the lower bound
    assert_eq!(
        generate(3, -2, -1, Some(7)),
        Err(GenerateError::InsufficientRange { requested: 3, available: 2 })
    );
    assert_eq!(
        generate(3, -2, -1, None),
        Err(GenerateError::InsufficientRange { requested: 3, available: 2 })
    );
    assert_eq!(
        generate(12, -5, 5, Some(1)),
        Err(GenerateError::InsufficientRange { requested: 12, available: 11 })
    );
    assert_eq!(
        generate(i32::MAX, i32::MIN, i32::MIN + 9, Some(1)),
        Err(GenerateError::InsufficientRange { requested: 2147483647, available: 10 })
    );
}

#[test]
fn generate_one_too_many_wherever_the_range_lies() {
    for (min, max) in [(-7, -7), (-2, -1), (-3, 4), (-1, 0), (i32::MIN, i32::MIN + 3)] {
        let size = (max as i64 - min as i64 + 1) as i32;
        assert_eq!(
            generate(size + 1, min, max, Some(5)),
            Err(GenerateError::InsufficientRange {
                requested: size as u64 + 1,
                available: size as u64
            })
        );
    }
}

#[test]
fn generate_range_boundary() {
    for (min, max) in [(0, 0), (1, 5), (100, 163), (7, 7)] {
        let size = max - min + 1;
        let pairs = generate(size, min, max, Some(99)).unwrap();
        let mut numbers: Vec<i32> = pairs.iter().map(|p| p.correlative as i32).collect();
        numbers.sort();
        assert_eq!(numbers, (min..=max).collect::<Vec<i32>>());
        assert_eq!(
            generate(size + 1, min, max, Some(99)),
            Err(GenerateError::InsufficientRange {
                requested: size as u64 + 1,
                available: size as u64
            })
        );
    }
}

#[test]
fn generate_invalid_range() {
    assert_eq!(generate(1, 5, 4, Some(1)), Err(GenerateError::InvalidRange { min: 5, max: 4 }));
    // the bounds are checked before the count
    assert_eq!(generate(0, 5, 4, None), Err(GenerateError::InvalidRange { min: 5, max: 4 }));
    assert_eq!(generate(1, 0, -1, None), Err(GenerateError::InvalidRange { min: 0, max: -1 }));
}

#[test]
fn generate_invalid_count() {
    let reason = "n must be greater than zero".to_string();
    assert_eq!(
        generate(0, 1, 5, Some(1)),
        Err(GenerateError::InvalidInput { reason: reason.clone() })
    );
    assert_eq!(
        generate(-3, 1, 5, None),
        Err(GenerateError::InvalidInput { reason: reason.clone() })
    );
    // the count is checked before the sign of the lower bound
    assert_eq!(generate(0, -1, 5, None), Err(GenerateError::InvalidInput { reason }));
}

#[test]
fn generate_negative_lower_bound() {
    let reason = "min must not be negative".to_string();
    assert_eq!(
        generate(1, -1, 5, Some(1)),
        Err(GenerateError::InvalidInput { reason: reason.clone() })
    );
    assert_eq!(
        generate(1, i32::MIN, i32::MAX, None),
        Err(GenerateError::InvalidInput { reason: reason.clone() })
    );
    // a negative range that is large enough is refused for its sign
    assert_eq!(
        generate(2, -2, -1, Some(7)),
        Err(GenerateError::InvalidInput { reason: reason.clone() })
    );
    assert_eq!(generate(11, -5, 5, None), Err(GenerateError::InvalidInput { reason }));
}

#[test]
fn generate_distinct_in_range_with_checksums() {
    for (n, min, max, seed) in
        [(100, 0, 99, 1i64), (50, 1_000_000, 25_000_000, 2), (1000, 5, 1500, -77), (1, 3, 3, 0)]
    {
        let pairs = generate(n, min, max, Some(seed)).unwrap();
        assert_eq!(pairs.len(), n as usize);
        let mut seen = std::collections::HashSet::new();
        for p in &pairs {
            assert!(min as u32 <= p.correlative && p.correlative <= max as u32);
            assert!(seen.insert(p.correlative));
            assert_eq!(calculate_verifier(p.correlative), Ok(p.verifier));
        }
    }
}

#[test]
fn generate_is_deterministic_with_seed() {
    let first = generate(200, 1, 30_000_000, Some(2024));
    let second = generate(200, 1, 30_000_000, Some(2024));
    assert!(first.is_ok());
    assert_eq!(first, second);
    assert_eq!(generate_seeded(200, 1, 30_000_000, 2024), first);
    assert_ne!(generate(200, 1, 30_000_000, Some(2025)), first);
}

#[test]
fn generate_without_seed() {
    let pairs = generate(20, 1, 1_000_000, None).unwrap();
    assert_eq!(pairs.len(), 20);
    let mut seen = std::collections::HashSet::new();
    for p in &pairs {
        assert!(1 <= p.correlative && p.correlative <= 1_000_000);
        assert!(seen.insert(p.correlative));
        assert_eq!(calculate_verifier(p.correlative), Ok(p.verifier));
    }
    assert_eq!(generate(3, 5, 7, None).unwrap().len(), 3);
}

#[test]
fn generate_order_is_not_sorted() {
    let pairs = generate(5, 1, 5, Some(42)).unwrap();
    let numbers: Vec<u32> = pairs.iter().map(|p| p.correlative).collect();
    let mut sorted = numbers.clone();
    sorted.sort();
    assert_ne!(numbers, sorted);
}

#[test]
fn generate_without_seed_varies() {
    let first = generate(30, 0, i32::MAX, None).unwrap();
    let second = generate(30, 0, i32::MAX, None).unwrap();
    assert_ne!(first, second);
}

#[test]
fn seed_keeps_the_bits_of_the_hash() {
    assert_eq!(seed_of_hash(0), 0);
    assert_eq!(seed_of_hash(42), 42);
    assert_eq!(seed_of_hash(i64::MAX as u64), i64::MAX);
    assert_eq!(seed_of_hash(1u64 << 63), i64::MIN);
    assert_eq!(seed_of_hash(u64::MAX), -1);
    for hash in [0u64, 1, 1 << 63, u64::MAX, 0x9E37_79B9_7F4A_7C15] {
        assert_eq!(seed_of_hash(hash) as u64, hash);
        assert_eq!(
            generate(4, 0, 9, Some(seed_of_hash(hash))),
            generate_seeded(4, 0, 9, seed_of_hash(hash))
        );
    }
    // the all-ones hash is the seed -1
    assert_eq!(generate(4, 0, 9, Some(seed_of_hash(u64::MAX))), generate(4, 0, 9, Some(-1)));
}
