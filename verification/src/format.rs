//! The recognised layouts of a raw plate code, and their detection.
//!
//! A raw code may hold separators (hyphen, dot, space) anywhere; they carry
//! no meaning. What is left must be six characters long and have one of
//! three shapes: six digits, one letter and five digits, or two letters and
//! four digits.

use vstd::prelude::*;
use vstd::utf8::is_ascii_chars;
use crate::errors::{PpuError, PpuFault};
use crate::text::{
    digits_from, digits_from_check, is_digit, is_letter, is_separator, lemma_strip_keeps,
    letter_char_is, same_text, significant_chars, strip_separators,
};

verus! {

/// Number of characters of a code once its separators are gone, and of its
/// canonical form.
pub const PPU_WIDTH: usize = 6;

/// The layout that a raw code was found to have.
#[derive(Debug, Clone, Copy, PartialEq, Eq, Structural)]
pub enum PpuFormat {
    /// Six digits: the canonical form itself.
    Numeric,
    /// One letter of the single-letter series, then five digits.
    Letter,
    /// A digraph, then four digits.
    Digraph,
}

impl PpuFormat {
    /// Number of letters that the layout starts with.
    pub open spec fn alpha_len(self) -> nat {
        match self {
            PpuFormat::Numeric => 0,
            PpuFormat::Letter => 1,
            PpuFormat::Digraph => 2,
        }
    }

    /// The pattern of the layout, `L` for a letter and `N` for a digit.
    pub open spec fn pattern(self) -> Seq<char> {
        match self {
            PpuFormat::Numeric => seq!['N', 'N', 'N', 'N', 'N', 'N'],
            PpuFormat::Letter => seq!['L', 'N', 'N', 'N', 'N', 'N'],
            PpuFormat::Digraph => seq!['L', 'L', 'N', 'N', 'N', 'N'],
        }
    }

    /// The layout that a pattern stands for: the reverse of
    /// [`PpuFormat::pattern`].
    pub open spec fn of_pattern(pattern: Seq<char>) -> Option<PpuFormat> {
        if pattern == PpuFormat::Numeric.pattern() {
            Some(PpuFormat::Numeric)
        } else if pattern == PpuFormat::Letter.pattern() {
            Some(PpuFormat::Letter)
        } else if pattern == PpuFormat::Digraph.pattern() {
            Some(PpuFormat::Digraph)
        } else {
            None
        }
    }

    /// Each layout is the one that its own pattern stands for.
    pub proof fn lemma_pattern_round_trip(self)
        ensures
            PpuFormat::of_pattern(self.pattern()) == Some(self),
            self.pattern().len() == PPU_WIDTH,
    {
        assert(PpuFormat::Numeric.pattern()[0] == 'N');
        assert(PpuFormat::Letter.pattern()[0] == 'L' && PpuFormat::Letter.pattern()[1] == 'N');
        assert(PpuFormat::Digraph.pattern()[1] == 'L');
    }

    /// Number of letters that the layout starts with.
    pub fn letters(&self) -> (n: usize)
        ensures
            n == self.alpha_len(),
    {
        match self {
            PpuFormat::Numeric => 0,
            PpuFormat::Letter => 1,
            PpuFormat::Digraph => 2,
        }
    }

    /// The pattern of the layout as text.
    pub fn as_str(&self) -> (s: &'static str)
        ensures
            s@ == self.pattern(),
    {
        match self {
            PpuFormat::Numeric => {
                proof {
                    reveal_strlit("NNNNNN");
                }
                assert("NNNNNN"@ =~= self.pattern());
                "NNNNNN"
            },
            PpuFormat::Letter => {
                proof {
                    reveal_strlit("LNNNNN");
                }
                assert("LNNNNN"@ =~= self.pattern());
                "LNNNNN"
            },
            PpuFormat::Digraph => {
                proof {
                    reveal_strlit("LLNNNN");
                }
                assert("LLNNNN"@ =~= self.pattern());
                "LLNNNN"
            },
        }
    }
}

/// The layout that `pattern` stands for, letter for letter.
pub fn from_pattern(pattern: &str) -> (out: Option<PpuFormat>)
    ensures
        out == PpuFormat::of_pattern(pattern@),
{
    if same_text(pattern, PpuFormat::Numeric.as_str()) {
        Some(PpuFormat::Numeric)
    } else if same_text(pattern, PpuFormat::Letter.as_str()) {
        Some(PpuFormat::Letter)
    } else if same_text(pattern, PpuFormat::Digraph.as_str()) {
        Some(PpuFormat::Digraph)
    } else {
        None
    }
}

/// The layout of a text that holds no separator: its length and the class
/// of each of its characters decide.
pub open spec fn shape_of(t: Seq<char>) -> Option<PpuFormat> {
    if t.len() != PPU_WIDTH {
        None
    } else if digits_from(t, 0) {
        Some(PpuFormat::Numeric)
    } else if is_letter(t[0]) && digits_from(t, 1) {
        Some(PpuFormat::Letter)
    } else if is_letter(t[0]) && is_letter(t[1]) && digits_from(t, 2) {
        Some(PpuFormat::Digraph)
    } else {
        None
    }
}

/// The layout of a raw code: that of what is left without the separators.
pub open spec fn format_of(raw: Seq<char>) -> Option<PpuFormat> {
    shape_of(strip_separators(raw))
}

/// What [`get_ppu_format`] returns for a raw code.
pub open spec fn format_outcome(raw: Seq<char>) -> Result<PpuFormat, PpuFault> {
    match format_of(raw) {
        Some(format) => Ok(format),
        None => Err(PpuFault::UnknownFormat { ppu: raw }),
    }
}

/// The view of a detection result.
pub open spec fn format_result_view(r: Result<PpuFormat, PpuError>) -> Result<PpuFormat, PpuFault> {
    match r {
        Ok(format) => Ok(format),
        Err(e) => Err(e@),
    }
}

/// A text of a known shape is made of ASCII letters and digits, the letters
/// first and as many as the layout says.
pub proof fn lemma_shape_classes(t: Seq<char>)
    requires
        shape_of(t) is Some,
    ensures
        t.len() == PPU_WIDTH,
        forall|i: int| 0 <= i < shape_of(t)->0.alpha_len() ==> is_letter(#[trigger] t[i]),
        digits_from(t, shape_of(t)->0.alpha_len() as int),
        is_ascii_chars(t),
{
    assert forall|i: int| 0 <= i < t.len() implies '\0' <= #[trigger] t[i] <= '\u{7f}' by {
        if i >= shape_of(t)->0.alpha_len() {
            assert(is_digit(t[i]));
        }
    }
}

/// A raw code that holds a character outside ASCII has no layout.
pub proof fn lemma_format_is_ascii(raw: Seq<char>)
    requires
        !is_ascii_chars(raw),
    ensures
        format_of(raw) is None,
{
    let i = choose|i: int| 0 <= i < raw.len() && !('\0' <= #[trigger] raw[i] <= '\u{7f}');
    assert(!is_separator(raw[i]));
    lemma_strip_keeps(raw, i);
    let t = strip_separators(raw);
    let j = choose|j: int| 0 <= j < t.len() && t[j] == raw[i];
    if shape_of(t) is Some {
        lemma_shape_classes(t);
        assert('\0' <= t[j] <= '\u{7f}');
    }
}

/// The layout of a text without separators.
pub fn classify(t: &Vec<char>) -> (out: Option<PpuFormat>)
    ensures
        out == shape_of(t@),
{
    if t.len() != PPU_WIDTH {
        None
    } else if digits_from_check(t, 0) {
        Some(PpuFormat::Numeric)
    } else if letter_char_is(t[0]) && digits_from_check(t, 1) {
        Some(PpuFormat::Letter)
    } else if letter_char_is(t[0]) && letter_char_is(t[1]) && digits_from_check(t, 2) {
        Some(PpuFormat::Digraph)
    } else {
        None
    }
}

/// Strips the separators of a raw code and finds the layout of the rest.
pub fn scan_ppu(ppu: &str) -> (out: Option<(Vec<char>, PpuFormat)>)
    ensures
        match out {
            Some((t, format)) => t@ == strip_separators(ppu@) && format_of(ppu@) == Some(format),
            None => format_of(ppu@) is None,
        },
{
    match significant_chars(ppu) {
        Some(t) => match classify(&t) {
            Some(format) => Some((t, format)),
            None => None,
        },
        None => {
            proof {
                lemma_format_is_ascii(ppu@);
            }
            None
        },
    }
}

/// Finds the layout of a raw code.
///
/// The whole text has to match: a code of no known layout is refused with
/// `UnknownFormat`, which carries the text.
pub fn get_ppu_format(ppu: &str) -> (out: Result<PpuFormat, PpuError>)
    ensures
        format_result_view(out) == format_outcome(ppu@),
{
    match scan_ppu(ppu) {
        Some((_, format)) => Ok(format),
        None => Err(PpuError::UnknownFormat { ppu: ppu.to_owned() }),
    }
}

} // verus!
