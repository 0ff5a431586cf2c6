//! `m:ss` rendering of playback times.

use vstd::prelude::*;

verus! {

/// The character of a decimal digit.
pub open spec fn digit_char(d: nat) -> char {
    if d == 0 {
        '0'
    } else if d == 1 {
        '1'
    } else if d == 2 {
        '2'
    } else if d == 3 {
        '3'
    } else if d == 4 {
        '4'
    } else if d == 5 {
        '5'
    } else if d == 6 {
        '6'
    } else if d == 7 {
        '7'
    } else if d == 8 {
        '8'
    } else {
        '9'
    }
}

/// The decimal representation of `n`, without leading zeros.
pub open spec fn decimal(n: nat) -> Seq<char>
    decreases n,
{
    if n < 10 {
        seq![digit_char(n)]
    } else {
        decimal(n / 10).push(digit_char(n % 10))
    }
}

/// `n` written with at least two digits (`{:02}`).
pub open spec fn two_digits(n: nat) -> Seq<char> {
    if n < 10 {
        seq!['0'] + decimal(n)
    } else {
        decimal(n)
    }
}

/// `total_secs` as `minutes:seconds`, seconds with two digits.
pub open spec fn clock(total_secs: nat) -> Seq<char> {
    decimal(total_secs / 60) + seq![':'] + two_digits(total_secs % 60)
}

fn digit(d: u64) -> (c: char)
    requires
        d < 10,
    ensures
        c == digit_char(d as nat),
{
    match d {
        0 => '0',
        1 => '1',
        2 => '2',
        3 => '3',
        4 => '4',
        5 => '5',
        6 => '6',
        7 => '7',
        8 => '8',
        _ => '9',
    }
}

/// Appends the decimal digits of `n` to `out`.
fn push_decimal(n: u64, out: &mut Vec<char>)
    ensures
        final(out)@ == old(out)@ + decimal(n as nat),
    decreases n,
{
    if n >= 10 {
        push_decimal(n / 10, out);
    }
    out.push(digit(n % 10));
    proof {
        if n < 10 {
            assert(n % 10 == n);
        }
    }
}

/// `total_secs` rendered as `m:ss` (the whole seconds of a playback time).
pub fn format_time_secs(total_secs: u64) -> (s: String)
    ensures
        s@ == clock(total_secs as nat),
{
    let mins = total_secs / 60;
    let secs = total_secs % 60;
    let mut out: Vec<char> = Vec::new();
    push_decimal(mins, &mut out);
    out.push(':');
    if secs < 10 {
        out.push('0');
    }
    push_decimal(secs, &mut out);
    proof {
        assert(out@ =~= clock(total_secs as nat));
    }
    crate::text::string_from_chars(out.as_slice())
}

} // verus!
