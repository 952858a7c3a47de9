//! The two alphabet tables: single letters and two-letter digraphs, each
//! with the numeric code it stands for.
//!
//! A single letter stands for one decimal digit. The letter table lists the
//! ten letters of the single-letter series in the order of their codes.
//! A digraph stands for a two-digit code. The digraph table is a square of
//! ten rows by ten columns over the letters A to J: the first letter picks
//! the row, the second the column, and the code counts the cells row by row
//! from 00 (`AA`) to 99 (`JJ`). Both tables ignore case.

use vstd::prelude::*;
use crate::errors::{PpuError, PpuFault};
use crate::text::{to_upper, upper_of};

verus! {

/// The letters of the single-letter series; the index of a letter is its code.
pub open spec fn letter_table() -> Seq<char> {
    seq!['P', 'B', 'C', 'D', 'F', 'G', 'H', 'J', 'K', 'L']
}

/// The letters that label the rows and the columns of the digraph table.
pub open spec fn digraph_axis() -> Seq<char> {
    seq!['A', 'B', 'C', 'D', 'E', 'F', 'G', 'H', 'I', 'J']
}

/// The index of the first entry of `table` that equals `c`.
pub open spec fn position(table: Seq<char>, c: char) -> Option<nat>
    decreases table.len(),
{
    if table.len() == 0 {
        None
    } else {
        match position(table.drop_last(), c) {
            Some(i) => Some(i),
            None => if table.last() == c {
                Some((table.len() - 1) as nat)
            } else {
                None
            },
        }
    }
}

/// The code of a single letter, in either case, if the table holds it.
pub open spec fn letter_code_of(c: char) -> Option<nat> {
    position(letter_table(), to_upper(c))
}

/// The code of a digraph, in either case, if the table holds it.
pub open spec fn digraph_code_of(a: char, b: char) -> Option<nat> {
    match (position(digraph_axis(), to_upper(a)), position(digraph_axis(), to_upper(b))) {
        (Some(row), Some(column)) => Some(10 * row + column),
        _ => None,
    }
}

/// The letter that a code stands for: the reverse of [`letter_code_of`].
pub open spec fn letter_of_code(code: nat) -> Option<char> {
    if code < 10 {
        Some(letter_table()[code as int])
    } else {
        None
    }
}

/// The digraph that a code stands for: the reverse of [`digraph_code_of`].
pub open spec fn digraph_of_code(code: nat) -> Option<(char, char)> {
    if code < 100 {
        Some((digraph_axis()[(code / 10) as int], digraph_axis()[(code % 10) as int]))
    } else {
        None
    }
}

/// What [`letter_code`] returns for a text.
pub open spec fn letter_outcome(s: Seq<char>) -> Result<u8, PpuFault> {
    if s.len() == 0 {
        Err(PpuFault::EmptyLetter)
    } else if s.len() != 1 {
        Err(PpuFault::InvalidLength { expected: 1, actual: s.len(), chars: s })
    } else {
        match letter_code_of(s[0]) {
            Some(code) => Ok(code as u8),
            None => Err(PpuFault::UnknownLetter { letter: s }),
        }
    }
}

/// What [`digraph_code`] returns for a text.
pub open spec fn digraph_outcome(s: Seq<char>) -> Result<u8, PpuFault> {
    if s.len() == 0 {
        Err(PpuFault::EmptyDigraph)
    } else if s.len() != 2 {
        Err(PpuFault::InvalidLength { expected: 2, actual: s.len(), chars: s })
    } else {
        match digraph_code_of(s[0], s[1]) {
            Some(code) => Ok(code as u8),
            None => Err(PpuFault::UnknownDigraph { letters: s }),
        }
    }
}

/// The view of a lookup result.
pub open spec fn code_result_view(r: Result<u8, PpuError>) -> Result<u8, PpuFault> {
    match r {
        Ok(code) => Ok(code),
        Err(e) => Err(e@),
    }
}

/// The letter table is a bijection between its ten letters and the ten
/// decimal digits: a code is below ten, its letter leads back to it, and a
/// letter that has a code is, in upper case, the letter of that code.
pub proof fn lemma_letter_table_bijective(c: char, code: nat)
    ensures
        letter_code_of(c) is Some ==> letter_code_of(c)->0 < 10 && letter_of_code(
            letter_code_of(c)->0,
        ) == Some(to_upper(c)),
        code < 10 ==> letter_code_of(letter_of_code(code)->0) == Some(code),
{
    reveal_with_fuel(position, 11);
}

/// A letter labels at most one row or column of the digraph table, and
/// each of the ten rows and columns has its letter.
pub proof fn lemma_digraph_axis(c: char, i: nat)
    ensures
        position(digraph_axis(), c) is Some ==> position(digraph_axis(), c)->0 < 10
            && digraph_axis()[position(digraph_axis(), c)->0 as int] == c,
        i < 10 ==> position(digraph_axis(), digraph_axis()[i as int]) == Some(i),
{
    reveal_with_fuel(position, 11);
}

/// The digraph table is a bijection between its hundred digraphs and the
/// codes 00 to 99.
pub proof fn lemma_digraph_table_bijective(a: char, b: char, code: nat)
    ensures
        digraph_code_of(a, b) is Some ==> digraph_code_of(a, b)->0 < 100 && digraph_of_code(
            digraph_code_of(a, b)->0,
        ) == Some((to_upper(a), to_upper(b))),
        code < 100 ==> ({
            let (first, second) = digraph_of_code(code)->0;
            digraph_code_of(first, second) == Some(code)
        }),
{
    lemma_digraph_axis(to_upper(a), 0);
    lemma_digraph_axis(to_upper(b), 0);
    if code < 100 {
        let (first, second) = digraph_of_code(code)->0;
        lemma_digraph_axis('A', code / 10);
        lemma_digraph_axis('A', code % 10);
        assert('A' <= first <= 'J' && 'A' <= second <= 'J') by {
            reveal_with_fuel(position, 11);
        }
        assert(to_upper(first) == first && to_upper(second) == second);
    }
}

/// The code of one letter of the single-letter series.
pub fn letter_index(c: char) -> (out: Option<u8>)
    ensures
        match letter_code_of(c) {
            Some(code) => out == Some(code as u8) && code < 10,
            None => out is None,
        },
{
    proof {
        reveal_with_fuel(position, 11);
    }
    match upper_of(c) {
        'P' => Some(0),
        'B' => Some(1),
        'C' => Some(2),
        'D' => Some(3),
        'F' => Some(4),
        'G' => Some(5),
        'H' => Some(6),
        'J' => Some(7),
        'K' => Some(8),
        'L' => Some(9),
        _ => None,
    }
}

/// The row or column that a letter labels in the digraph table.
pub fn axis_index(c: char) -> (out: Option<u8>)
    ensures
        match position(digraph_axis(), to_upper(c)) {
            Some(i) => out == Some(i as u8) && i < 10,
            None => out is None,
        },
{
    proof {
        reveal_with_fuel(position, 11);
    }
    let u: char = upper_of(c);
    if 'A' <= u && u <= 'J' {
        let b: u8 = u as u8;
        Some(b - 65u8)
    } else {
        None
    }
}

/// Looks a single letter up in the letter table.
///
/// An empty text is refused with `EmptyLetter`, one of more than one
/// character with `InvalidLength`, and a character that the table does not
/// hold with `UnknownLetter`.
pub fn letter_code(letter: &str) -> (out: Result<u8, PpuError>)
    ensures
        code_result_view(out) == letter_outcome(letter@),
{
    if letter.is_empty() {
        return Err(PpuError::EmptyLetter);
    }
    let n: usize = letter.unicode_len();
    if n != 1 {
        return Err(PpuError::InvalidLength { expected: 1, actual: n, chars: letter.to_owned() });
    }
    match letter_index(letter.get_char(0)) {
        Some(code) => Ok(code),
        None => Err(PpuError::UnknownLetter { letter: letter.to_owned() }),
    }
}

/// Looks a digraph up in the digraph table.
///
/// An empty text is refused with `EmptyDigraph`, one that is not two
/// characters long with `InvalidLength`, and a pair that the table does not
/// hold with `UnknownDigraph`.
pub fn digraph_code(letters: &str) -> (out: Result<u8, PpuError>)
    ensures
        code_result_view(out) == digraph_outcome(letters@),
{
    if letters.is_empty() {
        return Err(PpuError::EmptyDigraph);
    }
    let n: usize = letters.unicode_len();
    if n != 2 {
        return Err(PpuError::InvalidLength { expected: 2, actual: n, chars: letters.to_owned() });
    }
    let row = axis_index(letters.get_char(0));
    let column = axis_index(letters.get_char(1));
    match (row, column) {
        (Some(r), Some(c)) => Ok(10 * r + c),
        _ => Err(PpuError::UnknownDigraph { letters: letters.to_owned() }),
    }
}

/// The letter that stands for `code` in the letter table.
pub fn code_letter(code: u8) -> (out: Option<char>)
    ensures
        out == letter_of_code(code as nat),
{
    match code {
        0 => Some('P'),
        1 => Some('B'),
        2 => Some('C'),
        3 => Some('D'),
        4 => Some('F'),
        5 => Some('G'),
        6 => Some('H'),
        7 => Some('J'),
        8 => Some('K'),
        9 => Some('L'),
        _ => None,
    }
}

/// The digraph that stands for `code` in the digraph table.
pub fn code_digraph(code: u8) -> (out: Option<(char, char)>)
    ensures
        out == digraph_of_code(code as nat),
{
    if code < 100 {
        let row: u8 = 65u8 + code / 10;
        let column: u8 = 65u8 + code % 10;
        Some((row as char, column as char))
    } else {
        None
    }
}

} // verus!
