//! Reading the user's choice among listed packages.

use vstd::prelude::*;

use crate::version::same_text;

verus! {

/// What the user answered at the selection prompt.
#[derive(Debug, Clone, Copy, PartialEq, Eq, Structural)]
pub enum Selection {
    /// Stop without doing anything.
    Quit,
    /// The package at this position of the list, counted from zero.
    Choose(usize),
    /// Not a number in the offered range.
    Invalid,
}

pub open spec fn is_digit(c: char) -> bool {
    '0' <= c && c <= '9'
}

/// Whether `s` is a non-empty run of decimal digits.
pub open spec fn is_decimal(s: Seq<char>) -> bool {
    s.len() > 0 && forall|i: int| 0 <= i < s.len() ==> is_digit(#[trigger] s[i])
}

/// The number that a run of decimal digits writes.
pub open spec fn decimal_value(s: Seq<char>) -> int
    decreases s.len(),
{
    if s.len() == 0 {
        0
    } else {
        10 * decimal_value(s.drop_last()) + (s.last() as u32 as int - 48)
    }
}

/// Whether an answer asks to quit: nothing, "q" or "quit".
pub open spec fn is_quit(s: Seq<char>) -> bool {
    s == ""@ || s == "q"@ || s == "quit"@
}

/// An answer without its one optional leading plus sign.
pub open spec fn unsigned_part(s: Seq<char>) -> Seq<char> {
    if s.len() > 0 && s[0] == '+' {
        s.subrange(1, s.len() as int)
    } else {
        s
    }
}

/// What an answer selects among `count` offered packages, numbered from one:
/// a number is a non-empty run of decimal digits, with one optional leading
/// plus sign.
pub open spec fn selection_spec(s: Seq<char>, count: int) -> Selection {
    if is_quit(s) {
        Selection::Quit
    } else if is_decimal(unsigned_part(s)) && 1 <= decimal_value(unsigned_part(s)) <= count {
        Selection::Choose((decimal_value(unsigned_part(s)) - 1) as usize)
    } else {
        Selection::Invalid
    }
}

/// Whether an answer to a yes/no question agrees: nothing, "y" or "Y".
pub open spec fn is_yes_spec(s: Seq<char>) -> bool {
    s == ""@ || s == "y"@ || s == "Y"@
}

/// Reads an answer, already trimmed, to a yes/no question whose default is yes.
pub fn is_yes(input: &str) -> (r: bool)
    ensures
        r == is_yes_spec(input@),
{
    same_text(input, "") || same_text(input, "y") || same_text(input, "Y")
}

/// Reads an answer, already trimmed, to a prompt that offers the packages
/// numbered 1 to `count`.
pub fn parse_selection(input: &str, count: usize) -> (r: Selection)
    ensures
        r == selection_spec(input@, count as int),
{
    if same_text(input, "") || same_text(input, "q") || same_text(input, "quit") {
        return Selection::Quit;
    }
    let n = input.unicode_len();
    let start: usize = if n > 0 && input.get_char(0) == '+' {
        1
    } else {
        0
    };
    let ghost digits = input@.subrange(start as int, n as int);
    assert(digits =~= unsigned_part(input@));
    if start == n {
        return Selection::Invalid;
    }
    let mut value: usize = 0;
    let mut over = false;
    let mut i: usize = start;
    while i < n
        invariant
            n == input@.len(),
            start <= i <= n,
            digits == input@.subrange(start as int, n as int),
            digits == unsigned_part(input@),
            !is_quit(input@),
            forall|j: int| start <= j < i ==> is_digit(#[trigger] input@[j]),
            decimal_value(input@.subrange(start as int, i as int)) >= 0,
            !over ==> value as int == decimal_value(input@.subrange(start as int, i as int))
                && value <= count,
            over ==> decimal_value(input@.subrange(start as int, i as int)) > count,
        decreases n - i,
    {
        let c = input.get_char(i);
        if c < '0' || c > '9' {
            assert(digits[i - start] == input@[i as int]);
            assert(!is_digit(digits[i - start]));
            assert(!is_decimal(digits));
            return Selection::Invalid;
        }
        let d = (c as u32 - 48) as usize;
        let ghost prev = input@.subrange(start as int, i as int);
        assert(input@.subrange(start as int, i as int + 1).drop_last() =~= prev);
        assert(input@.subrange(start as int, i as int + 1).last() == c);
        if !over {
            if value > count / 10 {
                assert(value * 10 > count) by (nonlinear_arith)
                    requires value > count / 10;
                over = true;
            } else if d > count - value * 10 {
                assert(value * 10 <= count) by (nonlinear_arith)
                    requires value <= count / 10;
                over = true;
            } else {
                value = value * 10 + d;
            }
        }
        i = i + 1;
    }
    assert forall|j: int| 0 <= j < digits.len() implies is_digit(#[trigger] digits[j]) by {
        assert(digits[j] == input@[start + j]);
    }
    if over || value == 0 {
        Selection::Invalid
    } else {
        Selection::Choose(value - 1)
    }
}

} // verus!
