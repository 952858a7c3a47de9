//! Checking a number against a check character.

use vstd::prelude::*;
use crate::checksum::{calculate_verifier, is_verifier_char, lemma_verifier_in_alphabet, verifier_of};
use crate::errors::{VerifierError, VerifierFault};
use crate::numeric::{numeric_of, ppu_to_numeric};
use crate::text::{to_upper, upper_of};

verus! {

/// What [`validate_rut`] returns: an empty candidate and a malformed one are
/// each refused with their own error; a well-formed one is compared, without
/// regard to case, with the check character of the number.
pub open spec fn validate_outcome(digits: nat, verifier: Seq<char>) -> Result<bool, VerifierFault> {
    if verifier.len() == 0 {
        Err(VerifierFault::EmptyVerifier)
    } else if verifier.len() != 1 || !is_verifier_char(to_upper(verifier[0])) {
        Err(VerifierFault::InvalidVerifier { verifier })
    } else {
        Ok(to_upper(verifier[0]) == verifier_of(digits))
    }
}

/// What [`validate_rut_text`] returns: empty digits and an empty candidate
/// are refused before anything is computed, then digits that write no
/// number; what is left is validated as by [`validate_rut`].
pub open spec fn validate_text_outcome(digits: Seq<char>, verifier: Seq<char>) -> Result<
    bool,
    VerifierFault,
> {
    if digits.len() == 0 {
        Err(VerifierFault::EmptyDigits)
    } else if verifier.len() == 0 {
        Err(VerifierFault::EmptyVerifier)
    } else {
        match numeric_of(digits) {
            Some(value) => validate_outcome(value as nat, verifier),
            None => Err(VerifierFault::InvalidDigits { input: digits }),
        }
    }
}

/// The view of a validation result.
pub open spec fn validate_result_view(r: Result<bool, VerifierError>) -> Result<bool, VerifierFault> {
    match r {
        Ok(b) => Ok(b),
        Err(e) => Err(e@),
    }
}

/// A number validates against its own check character, and against no other
/// character of the check alphabet.
pub proof fn lemma_validate_agrees(x: nat, c: char)
    requires
        is_verifier_char(c),
    ensures
        validate_outcome(x, seq![verifier_of(x)]) == Ok::<bool, VerifierFault>(true),
        validate_outcome(x, seq![c]) == Ok::<bool, VerifierFault>(c == verifier_of(x)),
{
    lemma_verifier_in_alphabet(x);
}

/// Tells whether `verifier` is the check character of `digits`.
///
/// The candidate must be a single character, a digit or the letter K in
/// either case.
pub fn validate_rut(digits: u32, verifier: &str) -> (out: Result<bool, VerifierError>)
    ensures
        validate_result_view(out) == validate_outcome(digits as nat, verifier@),
{
    if verifier.is_empty() {
        return Err(VerifierError::EmptyVerifier);
    }
    let n: usize = verifier.unicode_len();
    if n != 1 {
        return Err(VerifierError::InvalidVerifier { verifier: verifier.to_owned() });
    }
    let c: char = upper_of(verifier.get_char(0));
    if !(('0' <= c && c <= '9') || c == 'K') {
        return Err(VerifierError::InvalidVerifier { verifier: verifier.to_owned() });
    }
    match calculate_verifier(digits) {
        Ok(expected) => Ok(c == expected),
        Err(e) => Err(e),
    }
}

/// Tells whether `verifier` is the check character of the number that
/// `digits` writes.
///
/// Empty digits are refused with `EmptyDigits` and an empty candidate with
/// `EmptyVerifier`, in this order and before anything else is looked at.
/// Digits that write no 32-bit number are refused with `InvalidDigits`.
pub fn validate_rut_text(digits: &str, verifier: &str) -> (out: Result<bool, VerifierError>)
    ensures
        validate_result_view(out) == validate_text_outcome(digits@, verifier@),
{
    if digits.is_empty() {
        return Err(VerifierError::EmptyDigits);
    }
    if verifier.is_empty() {
        return Err(VerifierError::EmptyVerifier);
    }
    match ppu_to_numeric(digits) {
        Ok(value) => validate_rut(value, verifier),
        Err(e) => Err(e),
    }
}

} // verus!
