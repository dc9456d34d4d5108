//! The text of the diagnostic line: a duration in seconds with three
//! decimals, from a count of millisecond ticks.

use vstd::prelude::*;
use vstd::string::StringExecFns;

verus! {

/// The number of ticks in one second.
pub const TICKS_PER_SECOND: u64 = 1000;

/// The character of one decimal digit.
pub open spec fn digit_char(digit: nat) -> char {
    if digit == 0 {
        '0'
    } else if digit == 1 {
        '1'
    } else if digit == 2 {
        '2'
    } else if digit == 3 {
        '3'
    } else if digit == 4 {
        '4'
    } else if digit == 5 {
        '5'
    } else if digit == 6 {
        '6'
    } else if digit == 7 {
        '7'
    } else if digit == 8 {
        '8'
    } else {
        '9'
    }
}

/// The decimal digits of `n`, without leading zeros.
pub open spec fn decimal(n: nat) -> Seq<char>
    decreases n,
{
    if n < 10 {
        seq![digit_char(n)]
    } else {
        decimal(n / 10).push(digit_char(n % 10))
    }
}

/// The three decimals of a number of thousandths below one thousand.
pub open spec fn thousandths(n: nat) -> Seq<char> {
    seq![digit_char(n / 100), digit_char((n / 10) % 10), digit_char(n % 10)]
}

/// The text of a duration of `ticks` milliseconds, in seconds: the whole
/// seconds, a point, and exactly three decimals.
pub open spec fn elapsed_chars(ticks: nat) -> Seq<char> {
    decimal(ticks / 1000) + seq!['.'] + thousandths(ticks % 1000)
}

/// The text of one decimal digit.
fn digit_text(digit: u64) -> (out: &'static str)
    requires
        digit < 10,
    ensures
        out@ == seq![digit_char(digit as nat)],
{
    proof {
        reveal_strlit("0");
        reveal_strlit("1");
        reveal_strlit("2");
        reveal_strlit("3");
        reveal_strlit("4");
        reveal_strlit("5");
        reveal_strlit("6");
        reveal_strlit("7");
        reveal_strlit("8");
        reveal_strlit("9");
    }
    let out = if digit == 0 {
        "0"
    } else if digit == 1 {
        "1"
    } else if digit == 2 {
        "2"
    } else if digit == 3 {
        "3"
    } else if digit == 4 {
        "4"
    } else if digit == 5 {
        "5"
    } else if digit == 6 {
        "6"
    } else if digit == 7 {
        "7"
    } else if digit == 8 {
        "8"
    } else {
        "9"
    };
    assert(out@ =~= seq![digit_char(digit as nat)]);
    out
}

/// Appends the decimal digits of `n` to `text`.
fn push_decimal(text: &mut String, n: u64)
    ensures
        final(text)@ == old(text)@ + decimal(n as nat),
    decreases n,
{
    if n >= 10 {
        push_decimal(text, n / 10);
    }
    text.append(digit_text(n % 10));
    assert(text@ =~= old(text)@ + decimal(n as nat));
}

/// Formats a duration of `ticks` milliseconds as seconds with exactly three
/// decimals: 6 gives `0.006`, 1234 gives `1.234`.
pub fn elapsed_text(ticks: u64) -> (out: String)
    ensures
        out@ == elapsed_chars(ticks as nat),
{
    let whole: u64 = ticks / TICKS_PER_SECOND;
    let part: u64 = ticks % TICKS_PER_SECOND;
    let mut out = String::new();
    push_decimal(&mut out, whole);
    proof {
        reveal_strlit(".");
    }
    out.append(".");
    out.append(digit_text(part / 100));
    out.append(digit_text((part / 10) % 10));
    out.append(digit_text(part % 10));
    assert(out@ =~= elapsed_chars(ticks as nat));
    out
}

} // verus!
