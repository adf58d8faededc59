//! Texts that stand for a 64-bit floating-point number.
//!
//! The accepted texts are those of the grammar
//!
//! ```text
//! Float  ::= Sign? ( 'inf' | 'infinity' | 'nan' | Number )
//! Number ::= ( Digit+ | Digit+ '.' Digit* | Digit* '.' Digit+ ) Exp?
//! Exp    ::= 'e' Sign? Digit+
//! Sign   ::= [+-]
//! Digit  ::= [0-9]
//! ```
//!
//! in which the letters may be of either case.

use vstd::prelude::*;
use crate::text::chars_of;

verus! {

/// A decimal digit.
pub open spec fn is_digit(c: char) -> bool {
    '0' <= c && c <= '9'
}

/// A plus or minus sign.
pub open spec fn is_sign(c: char) -> bool {
    c == '+' || c == '-'
}

/// The position after the run of digits that starts at `i`.
pub open spec fn digits_end(s: Seq<char>, i: int) -> int
    decreases s.len() - i,
{
    if 0 <= i < s.len() && is_digit(s[i]) {
        digits_end(s, i + 1)
    } else {
        i
    }
}

/// `s` from position `i` to its end is an exponent: the letter `e`, an
/// optional sign, and at least one digit.
pub open spec fn is_exponent_at(s: Seq<char>, i: int) -> bool {
    &&& 0 <= i < s.len()
    &&& (s[i] == 'e' || s[i] == 'E')
    &&& {
        let d = if i + 1 < s.len() && is_sign(s[i + 1]) {
            i + 2
        } else {
            i + 1
        };
        d < s.len() && digits_end(s, d) == s.len()
    }
}

/// `s` from position `i` to its end is a number: digits with at most one
/// point among them and at least one digit, then optionally an exponent.
pub open spec fn is_number_at(s: Seq<char>, i: int) -> bool {
    let whole_end = digits_end(s, i);
    let fraction_start = if whole_end < s.len() && s[whole_end] == '.' {
        whole_end + 1
    } else {
        whole_end
    };
    let fraction_end = digits_end(s, fraction_start);
    &&& 0 <= i
    &&& (whole_end - i) + (fraction_end - fraction_start) > 0
    &&& (fraction_end == s.len() || is_exponent_at(s, fraction_end))
}

/// `c` is the lower-case letter `letter` in either case.
pub open spec fn is_letter(c: char, letter: char) -> bool {
    c == letter || ('A' <= c && c <= 'Z' && c as u32 + 32 == letter as u32)
}

/// `s` from position `i` to its end is `word`, a word of lower-case letters,
/// in any mix of cases.
pub open spec fn is_word_at(s: Seq<char>, i: int, word: Seq<char>) -> bool {
    &&& 0 <= i
    &&& s.len() - i == word.len()
    &&& forall|k: int| 0 <= k < word.len() ==> is_letter(#[trigger] s[i + k], word[k])
}

/// `s` stands for a 64-bit floating-point number.
pub open spec fn is_float_text(s: Seq<char>) -> bool {
    let start: int = if s.len() > 0 && is_sign(s[0]) {
        1
    } else {
        0
    };
    ||| is_number_at(s, start)
    ||| is_word_at(s, start, "inf"@)
    ||| is_word_at(s, start, "infinity"@)
    ||| is_word_at(s, start, "nan"@)
}

/// The position after the run of digits that starts at `i`.
fn skip_digits(s: &Vec<char>, i: usize) -> (end: usize)
    requires
        i <= s.len(),
    ensures
        end == digits_end(s@, i as int),
        i <= end <= s.len(),
{
    let mut k: usize = i;
    while k < s.len() && '0' <= s[k] && s[k] <= '9'
        invariant
            i <= k <= s.len(),
            digits_end(s@, k as int) == digits_end(s@, i as int),
        decreases s.len() - k,
    {
        k += 1;
    }
    k
}

/// Whether `s` from `i` to its end is an exponent.
fn exponent_at(s: &Vec<char>, i: usize) -> (r: bool)
    requires
        i <= s.len(),
    ensures
        r == is_exponent_at(s@, i as int),
{
    if i >= s.len() || !(s[i] == 'e' || s[i] == 'E') {
        return false;
    }
    let d: usize = if i + 1 < s.len() && (s[i + 1] == '+' || s[i + 1] == '-') {
        i + 2
    } else {
        i + 1
    };
    d < s.len() && skip_digits(s, d) == s.len()
}

/// Whether `s` from `i` to its end is a number.
fn number_at(s: &Vec<char>, i: usize) -> (r: bool)
    requires
        i <= s.len(),
    ensures
        r == is_number_at(s@, i as int),
{
    let whole_end = skip_digits(s, i);
    let fraction_start: usize = if whole_end < s.len() && s[whole_end] == '.' {
        whole_end + 1
    } else {
        whole_end
    };
    let fraction_end = skip_digits(s, fraction_start);
    if (whole_end - i) + (fraction_end - fraction_start) == 0 {
        return false;
    }
    fraction_end == s.len() || exponent_at(s, fraction_end)
}

/// Whether `c` is the lower-case letter `letter` in either case.
fn letter_is(c: char, letter: char) -> (r: bool)
    ensures
        r == is_letter(c, letter),
{
    c == letter || ('A' <= c && c <= 'Z' && c as u32 + 32 == letter as u32)
}

/// Whether `s` from `i` to its end is `word` in any mix of cases.
fn word_at(s: &Vec<char>, i: usize, word: &str) -> (r: bool)
    requires
        i <= s.len(),
    ensures
        r == is_word_at(s@, i as int, word@),
{
    let w = chars_of(word);
    if s.len() - i != w.len() {
        return false;
    }
    let mut k: usize = 0;
    while k < w.len()
        invariant
            w@ == word@,
            i <= s.len(),
            s.len() - i == w.len(),
            k <= w.len(),
            forall|j: int| 0 <= j < k ==> is_letter(#[trigger] s@[i + j], w@[j]),
        decreases w.len() - k,
    {
        if !letter_is(s[i + k], w[k]) {
            return false;
        }
        k += 1;
    }
    true
}

/// Whether a text stands for a 64-bit floating-point number.
pub fn is_number_text(value: &str) -> (r: bool)
    ensures
        r == is_float_text(value@),
{
    let s = chars_of(value);
    let start: usize = if s.len() > 0 && (s[0] == '+' || s[0] == '-') {
        1
    } else {
        0
    };
    number_at(&s, start) || word_at(&s, start, "inf") || word_at(&s, start, "infinity") || word_at(
        &s,
        start,
        "nan",
    )
}

} // verus!
