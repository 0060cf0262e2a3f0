//! Canonical decimal text of integers.

use crate::model::{is_tidy, pushed};
use vstd::prelude::*;

verus! {

/// The character of a single decimal digit.
pub open spec fn digit(d: nat) -> char
    recommends
        d < 10,
{
    if d == 0 {
        '0'
    } else if d == 1 {
        '1'
    } else if d == 2 {
        '2'
    } else if d == 3 {
        '3'
    } else if d == 4 {
        '4'
    } else if d == 5 {
        '5'
    } else if d == 6 {
        '6'
    } else if d == 7 {
        '7'
    } else if d == 8 {
        '8'
    } else {
        '9'
    }
}

/// The decimal digits of a natural number, most significant first, without
/// leading zeros; zero is the single digit `0`.
pub open spec fn decimal_digits(n: nat) -> Seq<char>
    decreases n,
{
    if n < 10 {
        seq![digit(n)]
    } else {
        decimal_digits(n / 10).push(digit(n % 10))
    }
}

/// The canonical decimal text of an integer: its digits, after a minus sign
/// when it is negative.
pub open spec fn decimal_text(n: int) -> Seq<char> {
    if n < 0 {
        seq!['-'] + decimal_digits((-n) as nat)
    } else {
        decimal_digits(n as nat)
    }
}

/// Decimal text is never empty, so a number is never skipped.
pub proof fn lemma_decimal_text_nonempty(n: int)
    ensures
        decimal_text(n).len() > 0,
{
}

/// Decimal digits hold no space.
pub proof fn lemma_decimal_digits_no_space(n: nat)
    ensures
        decimal_digits(n).len() > 0,
        forall|i: int| 0 <= i < decimal_digits(n).len() ==> #[trigger] decimal_digits(n)[i] != ' ',
    decreases n,
{
    if n >= 10 {
        lemma_decimal_digits_no_space(n / 10);
    }
}

/// Decimal text has no stray separators.
pub proof fn lemma_decimal_text_tidy(n: int)
    ensures
        is_tidy(decimal_text(n)),
{
    if n < 0 {
        lemma_decimal_digits_no_space((-n) as nat);
    } else {
        lemma_decimal_digits_no_space(n as nat);
    }
}

/// The text of one decimal digit.
fn digit_text(d: u64) -> (text: &'static str)
    requires
        d < 10,
    ensures
        text@ == seq![digit(d as nat)],
{
    proof {
        reveal_strlit("0");
        reveal_strlit("1");
        reveal_strlit("2");
        reveal_strlit("3");
        reveal_strlit("4");
        reveal_strlit("5");
        reveal_strlit("6");
        reveal_strlit("7");
        reveal_strlit("8");
        reveal_strlit("9");
    }
    let text = if d == 0 {
        "0"
    } else if d == 1 {
        "1"
    } else if d == 2 {
        "2"
    } else if d == 3 {
        "3"
    } else if d == 4 {
        "4"
    } else if d == 5 {
        "5"
    } else if d == 6 {
        "6"
    } else if d == 7 {
        "7"
    } else if d == 8 {
        "8"
    } else {
        "9"
    };
    assert(text@ =~= seq![digit(d as nat)]);
    text
}

/// Writes the decimal digits of `n` at the end of `out`, with no separator.
pub fn push_digits(out: &mut String, n: u64)
    ensures
        final(out)@ == old(out)@ + decimal_digits(n as nat),
    decreases n,
{
    if n >= 10 {
        push_digits(out, n / 10);
    }
    out.append(digit_text(n % 10));
    assert(out@ =~= old(out)@ + decimal_digits(n as nat));
}

/// Writes the separator that a non-empty buffer needs before its next entry.
fn push_separator(out: &mut String)
    ensures
        old(out)@.len() == 0 ==> final(out)@ == old(out)@,
        old(out)@.len() > 0 ==> final(out)@ == old(out)@ + seq![' '],
{
    if !out.as_str().is_empty() {
        proof {
            reveal_strlit(" ");
        }
        out.append(" ");
        assert(" "@ =~= seq![' ']);
    }
}

/// Writes an unsigned number to `out` as decimal text, after a single space
/// when `out` already holds something. The number is always written.
pub fn push_unsigned(out: &mut String, n: u64)
    ensures
        final(out)@ == pushed(old(out)@, decimal_text(n as int)),
        old(out)@.len() == 0 ==> final(out)@ == decimal_text(n as int),
        old(out)@.len() > 0 ==> final(out)@ == old(out)@ + seq![' '] + decimal_text(n as int),
{
    push_separator(out);
    push_digits(out, n);
    assert(out@ =~= pushed(old(out)@, decimal_text(n as int)));
}

/// Writes a signed number to `out` as decimal text, after a single space when
/// `out` already holds something. The number is always written.
pub fn push_signed(out: &mut String, n: i64)
    ensures
        final(out)@ == pushed(old(out)@, decimal_text(n as int)),
        old(out)@.len() == 0 ==> final(out)@ == decimal_text(n as int),
        old(out)@.len() > 0 ==> final(out)@ == old(out)@ + seq![' '] + decimal_text(n as int),
{
    push_separator(out);
    if n < 0 {
        proof {
            reveal_strlit("-");
        }
        out.append("-");
        assert("-"@ =~= seq!['-']);
        let magnitude: u64 = (-(n + 1)) as u64 + 1;
        push_digits(out, magnitude);
    } else {
        push_digits(out, n as u64);
    }
    assert(out@ =~= pushed(old(out)@, decimal_text(n as int)));
}

} // verus!
