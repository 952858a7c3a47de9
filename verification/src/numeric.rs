//! Reading a canonical digit string as a number.

use vstd::prelude::*;
use vstd::string::is_ascii_spec_bytes;
use crate::errors::{VerifierError, VerifierFault};
use crate::text::{all_digits, digit_value, is_digit};

verus! {

/// The number that a string of decimal digits writes in base ten. Leading
/// zeros add nothing; the empty string writes zero.
pub open spec fn decimal_value(s: Seq<char>) -> nat
    decreases s.len(),
{
    if s.len() == 0 {
        0
    } else {
        10 * decimal_value(s.drop_last()) + digit_value(s.last())
    }
}

/// The number a text stands for: defined when the text is a non-empty run
/// of decimal digits whose value fits 32 bits.
pub open spec fn numeric_of(s: Seq<char>) -> Option<u32> {
    if s.len() > 0 && all_digits(s) && decimal_value(s) <= u32::MAX {
        Some(decimal_value(s) as u32)
    } else {
        None
    }
}

/// What [`ppu_to_numeric`] returns for a text.
pub open spec fn numeric_outcome(s: Seq<char>) -> Result<u32, VerifierFault> {
    match numeric_of(s) {
        Some(v) => Ok(v),
        None => Err(VerifierFault::InvalidDigits { input: s }),
    }
}

/// The view of a numeric result.
pub open spec fn numeric_result_view(r: Result<u32, VerifierError>) -> Result<u32, VerifierFault> {
    match r {
        Ok(v) => Ok(v),
        Err(e) => Err(e@),
    }
}

/// A prefix of a digit string never writes a larger number than the whole.
pub proof fn lemma_decimal_value_prefix(s: Seq<char>, k: int)
    requires
        0 <= k <= s.len(),
    ensures
        decimal_value(s.take(k)) <= decimal_value(s),
    decreases s.len() - k,
{
    if k == s.len() {
        assert(s.take(k) =~= s);
    } else {
        lemma_decimal_value_prefix(s.drop_last(), k);
        assert(s.drop_last().take(k) =~= s.take(k));
    }
}

/// Appending one digit multiplies the value by ten and adds the digit.
pub proof fn lemma_decimal_value_step(s: Seq<char>, k: int)
    requires
        0 <= k < s.len(),
    ensures
        decimal_value(s.take(k + 1)) == 10 * decimal_value(s.take(k)) + digit_value(s[k]),
{
    assert(s.take(k + 1).drop_last() =~= s.take(k));
}

/// Two digit strings of one length that write the same number are the same
/// string: on canonical strings the conversion is injective.
pub proof fn lemma_decimal_value_injective(a: Seq<char>, b: Seq<char>)
    requires
        a.len() == b.len(),
        all_digits(a),
        all_digits(b),
        decimal_value(a) == decimal_value(b),
    ensures
        a == b,
    decreases a.len(),
{
    if a.len() > 0 {
        let da = digit_value(a.last());
        let db = digit_value(b.last());
        assert(is_digit(a.last()) && is_digit(b.last()));
        assert(da < 10 && db < 10);
        assert(decimal_value(a) == 10 * decimal_value(a.drop_last()) + da);
        assert(decimal_value(b) == 10 * decimal_value(b.drop_last()) + db);
        assert(da == db && decimal_value(a.drop_last()) == decimal_value(b.drop_last()));
        lemma_decimal_value_injective(a.drop_last(), b.drop_last());
        assert(a =~= a.drop_last().push(a.last()));
        assert(b =~= b.drop_last().push(b.last()));
    } else {
        assert(a =~= b);
    }
}

/// Reads `ppu` as an unsigned 32-bit number in base ten.
///
/// Succeeds exactly on a non-empty text of ASCII digits whose value fits;
/// leading zeros are allowed. Anything else is answered with
/// `InvalidDigits`, which carries the text.
pub fn ppu_to_numeric(ppu: &str) -> (out: Result<u32, VerifierError>)
    ensures
        numeric_result_view(out) == numeric_outcome(ppu@),
{
    if !ppu.is_ascii() || ppu.is_empty() {
        return Err(VerifierError::InvalidDigits { input: ppu.to_owned() });
    }
    let bytes = ppu.as_bytes();
    let n: usize = bytes.len();
    proof {
        is_ascii_spec_bytes(ppu);
    }
    let mut acc: u64 = 0;
    let mut i: usize = 0;
    while i < n
        invariant
            n == ppu@.len(),
            bytes@.len() == n,
            forall|j: int| 0 <= j < n ==> bytes@[j] == ppu@[j] as u8,
            vstd::string::is_ascii(ppu),
            i <= n,
            all_digits(ppu@.take(i as int)),
            acc == decimal_value(ppu@.take(i as int)),
            acc <= u32::MAX,
        decreases n - i,
    {
        let b: u8 = bytes[i];
        if b < 48 || b > 57 {
            assert(!is_digit(ppu@[i as int]));
            return Err(VerifierError::InvalidDigits { input: ppu.to_owned() });
        }
        let d: u64 = (b - 48) as u64;
        proof {
            lemma_decimal_value_step(ppu@, i as int);
            assert(is_digit(ppu@[i as int]));
            assert forall|j: int| 0 <= j < i + 1 implies is_digit(
                #[trigger] ppu@.take(i + 1)[j],
            ) by {
                if j < i {
                    assert(ppu@.take(i as int)[j] == ppu@[j]);
                }
            }
        }
        acc = acc * 10 + d;
        i = i + 1;
        if acc > 0xFFFF_FFFFu64 {
            proof {
                lemma_decimal_value_prefix(ppu@, i as int);
            }
            return Err(VerifierError::InvalidDigits { input: ppu.to_owned() });
        }
    }
    proof {
        assert(ppu@.take(n as int) =~= ppu@);
    }
    Ok(acc as u32)
}

} // verus!
