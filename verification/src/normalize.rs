//! Turning a raw plate code into its canonical form: six digits.

use vstd::prelude::*;
use crate::alphabet::{
    digraph_code, digraph_outcome, lemma_digraph_table_bijective, lemma_letter_table_bijective,
    letter_code, letter_outcome,
};
use crate::errors::{PpuError, PpuFault};
use crate::format::{format_of, lemma_shape_classes, scan_ppu, shape_of, PpuFormat, PPU_WIDTH};
use crate::numeric::{decimal_value, lemma_decimal_value_step, numeric_of};
use crate::text::{
    all_digits, char_of_digit, digit_char, digit_value, digits_from, is_digit, is_separator,
    lemma_strip_plain, strip_separators, text_of,
};

verus! {

/// A text in canonical form: six decimal digits.
pub open spec fn is_canonical(d: Seq<char>) -> bool {
    d.len() == PPU_WIDTH && all_digits(d)
}

/// The canonical form of a text of the layout `format` that holds no
/// separator.
///
/// Six digits stand for themselves. A leading letter is replaced by the
/// digit of its code, a leading digraph by the two digits of its code; the
/// digits that follow are kept. A letter or a digraph that its table does
/// not hold is refused.
pub open spec fn canonical_of(t: Seq<char>, format: PpuFormat) -> Result<Seq<char>, PpuFault> {
    match format {
        PpuFormat::Numeric => Ok(t),
        PpuFormat::Letter => match letter_outcome(t.take(1)) {
            Ok(code) => Ok(seq![digit_char(code as nat)] + t.skip(1)),
            Err(e) => Err(e),
        },
        PpuFormat::Digraph => match digraph_outcome(t.take(2)) {
            Ok(code) => Ok(
                seq![digit_char((code / 10) as nat), digit_char((code % 10) as nat)] + t.skip(2),
            ),
            Err(e) => Err(e),
        },
    }
}

/// The canonical form of a raw code, or the reason why it has none: a code
/// without a layout is refused; one with a layout has the canonical form of
/// what is left of it without the separators.
pub open spec fn normalize_outcome(raw: Seq<char>) -> Result<Seq<char>, PpuFault> {
    match format_of(raw) {
        None => Err(PpuFault::UnknownFormat { ppu: raw }),
        Some(format) => canonical_of(strip_separators(raw), format),
    }
}

/// The view of a normalization result.
pub open spec fn text_result_view(r: Result<String, PpuError>) -> Result<Seq<char>, PpuFault> {
    match r {
        Ok(s) => Ok(s@),
        Err(e) => Err(e@),
    }
}

/// Whatever a raw code normalizes to is canonical, and a code with a layout
/// fails only on a letter or a digraph that its table does not hold.
pub proof fn lemma_normalize_canonical(raw: Seq<char>)
    ensures
        match normalize_outcome(raw) {
            Ok(d) => format_of(raw) is Some && is_canonical(d),
            Err(PpuFault::UnknownFormat { ppu }) => format_of(raw) is None && ppu == raw,
            Err(PpuFault::UnknownLetter { letter }) => format_of(raw) == Some(PpuFormat::Letter)
                && letter == strip_separators(raw).take(1),
            Err(PpuFault::UnknownDigraph { letters }) => format_of(raw) == Some(PpuFormat::Digraph)
                && letters == strip_separators(raw).take(2),
            Err(_) => false,
        },
{
    let t = strip_separators(raw);
    if format_of(raw) is Some {
        lemma_shape_classes(t);
        match format_of(raw)->0 {
            PpuFormat::Numeric => {},
            PpuFormat::Letter => {
                lemma_letter_table_bijective(t[0], 0);
                if let Ok(code) = letter_outcome(t.take(1)) {
                    let d = seq![digit_char(code as nat)] + t.skip(1);
                    assert forall|i: int| 0 <= i < d.len() implies is_digit(#[trigger] d[i]) by {
                        if i >= 1 {
                            assert(d[i] == t[i]);
                        }
                    }
                }
            },
            PpuFormat::Digraph => {
                lemma_digraph_table_bijective(t[0], t[1], 0);
                if let Ok(code) = digraph_outcome(t.take(2)) {
                    let d = seq![digit_char((code / 10) as nat), digit_char((code % 10) as nat)]
                        + t.skip(2);
                    assert forall|i: int| 0 <= i < d.len() implies is_digit(#[trigger] d[i]) by {
                        if i >= 2 {
                            assert(d[i] == t[i]);
                        }
                    }
                }
            },
        }
    }
}

/// A canonical text normalizes to itself.
pub proof fn lemma_normalize_idempotent(d: Seq<char>)
    requires
        is_canonical(d),
    ensures
        format_of(d) == Some(PpuFormat::Numeric),
        normalize_outcome(d) == Ok::<Seq<char>, PpuFault>(d),
{
    assert forall|i: int| 0 <= i < d.len() implies !is_separator(#[trigger] d[i]) by {
        assert(is_digit(d[i]));
    }
    lemma_strip_plain(d);
    assert(digits_from(d, 0));
}

/// A canonical text writes a number below one million, which fits 32 bits.
pub proof fn lemma_canonical_numeric(d: Seq<char>)
    requires
        is_canonical(d),
    ensures
        numeric_of(d) is Some,
        decimal_value(d) < 1_000_000,
{
    assert(decimal_value(d.take(0)) == 0);
    assert forall|k: int| 0 <= k < 6 implies digit_value(#[trigger] d[k]) < 10 by {
        assert(is_digit(d[k]));
    }
    lemma_decimal_value_step(d, 0);
    lemma_decimal_value_step(d, 1);
    lemma_decimal_value_step(d, 2);
    lemma_decimal_value_step(d, 3);
    lemma_decimal_value_step(d, 4);
    lemma_decimal_value_step(d, 5);
    assert(d.take(6) =~= d);
}

/// Normalizing twice gives what normalizing once gives.
pub proof fn lemma_normalize_stable(raw: Seq<char>)
    ensures
        normalize_outcome(raw) is Ok ==> normalize_outcome(normalize_outcome(raw)->Ok_0)
            == normalize_outcome(raw),
{
    lemma_normalize_canonical(raw);
    if normalize_outcome(raw) is Ok {
        lemma_normalize_idempotent(normalize_outcome(raw)->Ok_0);
    }
}

/// The canonical form of a text that was found to have the layout
/// `format`.
pub(crate) fn canonical_form(t: &Vec<char>, format: PpuFormat) -> (out: Result<String, PpuError>)
    requires
        shape_of(t@) == Some(format),
    ensures
        text_result_view(out) == canonical_of(t@, format),
{
    proof {
        lemma_shape_classes(t@);
    }
    match format {
        PpuFormat::Numeric => {
            let out = text_of(t, 0, PPU_WIDTH);
            proof {
                assert(t@.subrange(0, PPU_WIDTH as int) =~= t@);
            }
            Ok(out)
        },
        PpuFormat::Letter => {
            let alpha = text_of(t, 0, 1);
            proof {
                assert(t@.subrange(0, 1) =~= t@.take(1));
                lemma_letter_table_bijective(t@[0], 0);
            }
            match letter_code(alpha.as_str()) {
                Ok(code) => {
                    let mut out = String::new();
                    out.push(char_of_digit(code));
                    append_chars(&mut out, t, 1);
                    proof {
                        assert(out@ =~= seq![digit_char(code as nat)] + t@.skip(1));
                    }
                    Ok(out)
                },
                Err(e) => Err(e),
            }
        },
        PpuFormat::Digraph => {
            let alpha = text_of(t, 0, 2);
            proof {
                assert(t@.subrange(0, 2) =~= t@.take(2));
                lemma_digraph_table_bijective(t@[0], t@[1], 0);
            }
            match digraph_code(alpha.as_str()) {
                Ok(code) => {
                    let mut out = String::new();
                    out.push(char_of_digit(code / 10));
                    out.push(char_of_digit(code % 10));
                    append_chars(&mut out, t, 2);
                    proof {
                        assert(out@ =~= seq![
                            digit_char((code / 10) as nat),
                            digit_char((code % 10) as nat),
                        ] + t@.skip(2));
                    }
                    Ok(out)
                },
                Err(e) => Err(e),
            }
        },
    }
}

/// Brings a raw code into canonical form.
///
/// Succeeds on every code that has a layout and whose letters are in the
/// table of that layout; the result is six digits.
pub fn normalize_ppu(ppu: &str) -> (out: Result<String, PpuError>)
    ensures
        text_result_view(out) == normalize_outcome(ppu@),
        out is Ok ==> is_canonical(out->Ok_0@),
{
    proof {
        lemma_normalize_canonical(ppu@);
    }
    match scan_ppu(ppu) {
        None => Err(PpuError::UnknownFormat { ppu: ppu.to_owned() }),
        Some((t, format)) => canonical_form(&t, format),
    }
}

/// Appends the characters of `t` from index `from` on to `out`.
fn append_chars(out: &mut String, t: &Vec<char>, from: usize)
    requires
        from <= t@.len(),
    ensures
        final(out)@ == old(out)@ + t@.skip(from as int),
{
    let n: usize = t.len();
    let mut i: usize = from;
    while i < n
        invariant
            n == t@.len(),
            from <= i <= n,
            out@ == old(out)@ + t@.subrange(from as int, i as int),
        decreases n - i,
    {
        out.push(t[i]);
        i = i + 1;
        proof {
            assert(out@ =~= old(out)@ + t@.subrange(from as int, i as int));
        }
    }
    proof {
        assert(t@.subrange(from as int, n as int) =~= t@.skip(from as int));
    }
}

} // verus!
