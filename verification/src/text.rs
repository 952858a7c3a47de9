//! Character classes and small conversions shared by the parsers.

use vstd::prelude::*;
use vstd::string::is_ascii_spec_bytes;
use vstd::utf8::is_ascii_chars;

verus! {

/// An ASCII decimal digit.
pub open spec fn is_digit(c: char) -> bool {
    '0' <= c && c <= '9'
}

/// An ASCII letter of either case.
pub open spec fn is_letter(c: char) -> bool {
    ('A' <= c && c <= 'Z') || ('a' <= c && c <= 'z')
}

/// The ASCII upper-case form of `c`; every other character is left alone.
pub open spec fn to_upper(c: char) -> char {
    if 'a' <= c && c <= 'z' {
        ((c as u8) - 32) as u8 as char
    } else {
        c
    }
}

/// The value of a decimal digit character.
pub open spec fn digit_value(c: char) -> nat
    recommends
        is_digit(c),
{
    (c as u8 - 48) as nat
}

/// The character that writes the decimal digit `d`.
pub open spec fn digit_char(d: nat) -> char
    recommends
        d < 10,
{
    (48 + d) as u8 as char
}

/// Every character of `s` is a decimal digit.
pub open spec fn all_digits(s: Seq<char>) -> bool {
    forall|i: int| 0 <= i < s.len() ==> is_digit(#[trigger] s[i])
}

/// A character that may stand anywhere in a raw code without meaning: a
/// hyphen, a dot or a space.
pub open spec fn is_separator(c: char) -> bool {
    c == '-' || c == '.' || c == ' '
}

/// The characters of `s` from index `from` on are decimal digits.
pub open spec fn digits_from(s: Seq<char>, from: int) -> bool {
    forall|i: int| from <= i < s.len() ==> is_digit(#[trigger] s[i])
}

/// `s` without its separators, the other characters in their order.
pub open spec fn strip_separators(s: Seq<char>) -> Seq<char>
    decreases s.len(),
{
    if s.len() == 0 {
        Seq::empty()
    } else {
        let init = strip_separators(s.drop_last());
        if is_separator(s.last()) {
            init
        } else {
            init.push(s.last())
        }
    }
}

/// Stripping one more character of `s` drops it if it is a separator and
/// appends it otherwise.
pub proof fn lemma_strip_step(s: Seq<char>, k: int)
    requires
        0 <= k < s.len(),
    ensures
        strip_separators(s.take(k + 1)) == if is_separator(s[k]) {
            strip_separators(s.take(k))
        } else {
            strip_separators(s.take(k)).push(s[k])
        },
{
    assert(s.take(k + 1).drop_last() =~= s.take(k));
}

/// A text without separators is left as it is.
pub proof fn lemma_strip_plain(s: Seq<char>)
    requires
        forall|i: int| 0 <= i < s.len() ==> !is_separator(#[trigger] s[i]),
    ensures
        strip_separators(s) == s,
    decreases s.len(),
{
    if s.len() > 0 {
        lemma_strip_plain(s.drop_last());
        assert(s.drop_last().push(s.last()) =~= s);
    }
}

/// Every character of `s` that is no separator is still there after
/// stripping.
pub proof fn lemma_strip_keeps(s: Seq<char>, i: int)
    requires
        0 <= i < s.len(),
        !is_separator(s[i]),
    ensures
        strip_separators(s).contains(s[i]),
    decreases s.len(),
{
    let init = strip_separators(s.drop_last());
    if i == s.len() - 1 {
        assert(init.push(s.last())[init.len() as int] == s[i]);
    } else {
        lemma_strip_keeps(s.drop_last(), i);
        let j = choose|j: int| 0 <= j < init.len() && init[j] == s[i];
        assert(strip_separators(s)[j] == s[i]);
    }
}

/// A character with the Unicode property White_Space.
pub open spec fn is_white_space(c: char) -> bool {
    ||| '\u{9}' <= c && c <= '\u{d}'
    ||| c == ' '
    ||| c == '\u{85}'
    ||| c == '\u{a0}'
    ||| c == '\u{1680}'
    ||| '\u{2000}' <= c && c <= '\u{200a}'
    ||| c == '\u{2028}'
    ||| c == '\u{2029}'
    ||| c == '\u{202f}'
    ||| c == '\u{205f}'
    ||| c == '\u{3000}'
}

/// `s` without the white space at its beginning.
pub open spec fn trim_start_of(s: Seq<char>) -> Seq<char>
    decreases s.len(),
{
    if s.len() > 0 && is_white_space(s.first()) {
        trim_start_of(s.drop_first())
    } else {
        s
    }
}

/// `s` without the white space at its end.
pub open spec fn trim_end_of(s: Seq<char>) -> Seq<char>
    decreases s.len(),
{
    if s.len() > 0 && is_white_space(s.last()) {
        trim_end_of(s.drop_last())
    } else {
        s
    }
}

/// `s` without the white space at its beginning and at its end.
pub open spec fn trimmed_of(s: Seq<char>) -> Seq<char> {
    trim_end_of(trim_start_of(s))
}

/// The view of an optional text.
pub open spec fn optional_view(value: Option<String>) -> Option<Seq<char>> {
    match value {
        Some(s) => Some(s@),
        None => None,
    }
}

/// The lower-case form that `str::to_lowercase` gives a text.
pub uninterp spec fn lowercase_of(s: Seq<char>) -> Seq<char>;

/// Tells whether `c` is a decimal digit.
pub fn digit_char_is(c: char) -> (b: bool)
    ensures
        b == is_digit(c),
{
    '0' <= c && c <= '9'
}

/// Tells whether `c` is an ASCII letter.
pub fn letter_char_is(c: char) -> (b: bool)
    ensures
        b == is_letter(c),
{
    ('A' <= c && c <= 'Z') || ('a' <= c && c <= 'z')
}

/// The ASCII upper-case form of `c`.
pub fn upper_of(c: char) -> (u: char)
    ensures
        u == to_upper(c),
{
    if 'a' <= c && c <= 'z' {
        let b: u8 = c as u8;
        (b - 32u8) as char
    } else {
        c
    }
}

/// The character that writes the decimal digit `d`.
pub(crate) fn char_of_digit(d: u8) -> (c: char)
    requires
        d < 10,
    ensures
        c == digit_char(d as nat),
        is_digit(c),
{
    (48u8 + d) as char
}

/// `str::trim` returns the text without its leading and trailing white
/// space, where white space is what Unicode gives the property White_Space.
#[verifier::external_body]
pub(crate) fn trim(s: &str) -> (out: &str)
    ensures
        out@ == trimmed_of(s@),
{
    s.trim()
}

/// `str::to_lowercase` returns the lower-case form of the text, as Unicode
/// defines it; the result depends on the text alone.
#[verifier::external_body]
pub(crate) fn to_lowercase(s: &str) -> (out: String)
    ensures
        out@ == lowercase_of(s@),
{
    s.to_lowercase()
}

/// Tells whether two texts hold the same characters.
pub fn same_text(a: &str, b: &str) -> (same: bool)
    ensures
        same == (a@ == b@),
{
    let left: String = a.to_owned();
    let right: String = b.to_owned();
    left == right
}

/// Tells whether `c` is a separator.
pub fn separator_char_is(c: char) -> (b: bool)
    ensures
        b == is_separator(c),
{
    c == '-' || c == '.' || c == ' '
}

/// The characters of `s` without its separators, if `s` is ASCII; `None`
/// if it holds a character outside ASCII.
pub fn significant_chars(s: &str) -> (out: Option<Vec<char>>)
    ensures
        match out {
            Some(t) => is_ascii_chars(s@) && t@ == strip_separators(s@),
            None => !is_ascii_chars(s@),
        },
{
    if !s.is_ascii() {
        return None;
    }
    let bytes = s.as_bytes();
    let n: usize = bytes.len();
    proof {
        is_ascii_spec_bytes(s);
    }
    let mut kept: Vec<char> = Vec::new();
    let mut i: usize = 0;
    while i < n
        invariant
            n == s@.len(),
            bytes@.len() == n,
            is_ascii_chars(s@),
            forall|j: int| 0 <= j < n ==> bytes@[j] == s@[j] as u8,
            i <= n,
            kept@ == strip_separators(s@.take(i as int)),
        decreases n - i,
    {
        let b: u8 = bytes[i];
        let c: char = b as char;
        proof {
            assert('\0' <= s@[i as int] <= '\u{7f}');
            assert(c == s@[i as int]);
            lemma_strip_step(s@, i as int);
        }
        if !separator_char_is(c) {
            kept.push(c);
        }
        i = i + 1;
    }
    proof {
        assert(s@.take(n as int) =~= s@);
    }
    Some(kept)
}

/// The characters of `t` from index `from` up to, not including, `to`, as
/// a string.
pub(crate) fn text_of(t: &Vec<char>, from: usize, to: usize) -> (out: String)
    requires
        from <= to <= t@.len(),
    ensures
        out@ == t@.subrange(from as int, to as int),
{
    let mut out = String::new();
    let mut i: usize = from;
    while i < to
        invariant
            from <= i <= to <= t@.len(),
            out@ == t@.subrange(from as int, i as int),
        decreases to - i,
    {
        out.push(t[i]);
        i = i + 1;
        proof {
            assert(out@ =~= t@.subrange(from as int, i as int));
        }
    }
    out
}

/// Tells whether the characters of `t` from index `from` on are digits.
pub fn digits_from_check(t: &Vec<char>, from: usize) -> (b: bool)
    ensures
        b == digits_from(t@, from as int),
{
    let n: usize = t.len();
    let mut i: usize = from;
    while i < n
        invariant
            n == t@.len(),
            from <= i,
            forall|j: int| from <= j < i && j < n ==> is_digit(#[trigger] t@[j]),
        decreases n - i,
    {
        if !digit_char_is(t[i]) {
            return false;
        }
        i = i + 1;
    }
    true
}

} // verus!
