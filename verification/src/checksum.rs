//! The weighted modulo-11 check character.

use vstd::prelude::*;
use crate::text::{char_of_digit, digit_char, is_digit};
use crate::errors::VerifierError;

verus! {

/// Weight applied to the decimal digit at position `i`, counted from the
/// least significant digit: the cycle 2, 3, 4, 5, 6, 7.
pub open spec fn weight(i: nat) -> nat {
    2 + i % 6
}

/// Sum of the decimal digits of `x`, each multiplied by its weight, where
/// the least significant digit of `x` stands at position `i`.
pub open spec fn weighted_sum(x: nat, i: nat) -> nat
    decreases x,
{
    if x == 0 {
        0
    } else {
        (x % 10) * weight(i) + weighted_sum(x / 10, i + 1)
    }
}

/// Eleven minus the weighted sum modulo eleven: a value from 1 to 11.
pub open spec fn remainder(x: nat) -> nat {
    (11 - weighted_sum(x, 0) % 11) as nat
}

/// The check character of a remainder: 11 is written `'0'`, 10 is written
/// `'K'`, a smaller value is written as its digit. No other value has one.
pub open spec fn remainder_char(r: nat) -> Option<char> {
    if r == 11 {
        Some('0')
    } else if r == 10 {
        Some('K')
    } else if r < 10 {
        Some(digit_char(r))
    } else {
        None
    }
}

/// The check character of the number `x`.
pub open spec fn verifier_of(x: nat) -> char {
    remainder_char(remainder(x))->0
}

/// One of the characters a check character can be: a digit or upper-case K.
pub open spec fn is_verifier_char(c: char) -> bool {
    is_digit(c) || c == 'K'
}

/// The remainder of every number lies between 1 and 11, so every number has
/// a check character, and that character is a digit or `'K'`.
pub proof fn lemma_verifier_in_alphabet(x: nat)
    ensures
        1 <= remainder(x) <= 11,
        remainder_char(remainder(x)) == Some(verifier_of(x)),
        is_verifier_char(verifier_of(x)),
{
}

/// Number of decimal digits of `x`; zero has none.
pub open spec fn digit_count(x: nat) -> nat
    decreases x,
{
    if x == 0 {
        0
    } else {
        1 + digit_count(x / 10)
    }
}

proof fn lemma_digit_count_u32(x: nat)
    requires
        x <= u32::MAX,
    ensures
        digit_count(x) <= 10,
{
    reveal_with_fuel(digit_count, 12);
}

/// Maps a remainder to its check character, and rejects a value that the
/// modular arithmetic cannot produce.
pub fn remainder_to_char(r: u32) -> (out: Result<char, VerifierError>)
    ensures
        match remainder_char(r as nat) {
            Some(c) => out == Ok::<char, VerifierError>(c),
            None => out == Err::<char, VerifierError>(VerifierError::UnexpectedComputation),
        },
{
    if r == 11 {
        Ok('0')
    } else if r == 10 {
        Ok('K')
    } else if r < 10 {
        let d: u8 = r as u8;
        Ok(char_of_digit(d))
    } else {
        Err(VerifierError::UnexpectedComputation)
    }
}

/// Computes the check character of `digits`.
///
/// The result is always `Ok`: the error of [`remainder_to_char`] cannot
/// arise, since the remainder of a number is never outside 1 to 11.
pub fn calculate_verifier(digits: u32) -> (out: Result<char, VerifierError>)
    ensures
        out == Ok::<char, VerifierError>(verifier_of(digits as nat)),
        is_verifier_char(verifier_of(digits as nat)),
{
    let mut rest: u32 = digits;
    let mut sum: u32 = 0;
    let mut w: u32 = 2;
    let ghost mut i: nat = 0;
    proof {
        lemma_digit_count_u32(digits as nat);
    }
    while rest > 0
        invariant
            w == weight(i),
            sum + weighted_sum(rest as nat, i) == weighted_sum(digits as nat, 0),
            i + digit_count(rest as nat) <= 10,
            sum <= 63 * i,
        decreases rest,
    {
        let d: u32 = rest % 10;
        assert(d * w <= 63) by (nonlinear_arith)
            requires
                d <= 9,
                w <= 7,
        ;
        sum = sum + d * w;
        rest = rest / 10;
        w = if w == 7 {
            2
        } else {
            w + 1
        };
        proof {
            i = i + 1;
        }
    }
    let r: u32 = 11 - sum % 11;
    proof {
        lemma_verifier_in_alphabet(digits as nat);
    }
    remainder_to_char(r)
}

} // verus!
