//! Rendering a position in milliseconds as a zero-padded clock string
//! `hours:minutes:seconds`, each field at least two digits wide.

use vstd::prelude::*;

verus! {

/// The decimal digit character for `d`.
pub open spec fn digit_char(d: nat) -> char
    recommends
        d < 10,
{
    if d == 0 {
        '0'
    } else if d == 1 {
        '1'
    } else if d == 2 {
        '2'
    } else if d == 3 {
        '3'
    } else if d == 4 {
        '4'
    } else if d == 5 {
        '5'
    } else if d == 6 {
        '6'
    } else if d == 7 {
        '7'
    } else if d == 8 {
        '8'
    } else {
        '9'
    }
}

/// The decimal digits of `n`, most significant first.
pub open spec fn spec_decimal(n: nat) -> Seq<char>
    decreases n,
{
    if n < 10 {
        seq![digit_char(n)]
    } else {
        spec_decimal(n / 10).push(digit_char(n % 10))
    }
}

/// `n` in decimal, left-padded with `0` to at least two digits.
pub open spec fn spec_two_digits(n: nat) -> Seq<char> {
    if n < 10 {
        seq!['0'].push(digit_char(n))
    } else {
        spec_decimal(n)
    }
}

/// The clock form of a position of `ms` milliseconds: whole hours,
/// the minutes past the hour, and the seconds past the minute, each at
/// least two digits, separated by colons.
pub open spec fn spec_hh_mm_ss(ms: nat) -> Seq<char> {
    let seconds = (ms / 1000) % 60;
    let minutes = (ms / 60000) % 60;
    let hours = ms / 3600000;
    spec_two_digits(hours) + ":"@ + spec_two_digits(minutes) + ":"@ + spec_two_digits(seconds)
}

/// The one-character string for a decimal digit.
fn digit_str(d: u32) -> (r: &'static str)
    requires
        d < 10,
    ensures
        r@ == seq![digit_char(d as nat)],
{
    proof {
        reveal_strlit("0");
        reveal_strlit("1");
        reveal_strlit("2");
        reveal_strlit("3");
        reveal_strlit("4");
        reveal_strlit("5");
        reveal_strlit("6");
        reveal_strlit("7");
        reveal_strlit("8");
        reveal_strlit("9");
    }
    match d {
        0 => "0",
        1 => "1",
        2 => "2",
        3 => "3",
        4 => "4",
        5 => "5",
        6 => "6",
        7 => "7",
        8 => "8",
        _ => "9",
    }
}

/// Appends the decimal digits of `n`.
fn push_decimal(out: &mut String, n: u32)
    ensures
        final(out)@ == old(out)@ + spec_decimal(n as nat),
    decreases n,
{
    if n < 10 {
        out.append(digit_str(n));
    } else {
        push_decimal(out, n / 10);
        out.append(digit_str(n % 10));
        assert(old(out)@ + spec_decimal((n / 10) as nat) + seq![digit_char((n % 10) as nat)]
            =~= old(out)@ + spec_decimal(n as nat));
    }
}

/// Appends `n` in decimal, at least two digits wide.
fn push_two_digits(out: &mut String, n: u32)
    ensures
        final(out)@ == old(out)@ + spec_two_digits(n as nat),
{
    if n < 10 {
        proof {
            reveal_strlit("0");
        }
        out.append("0");
        out.append(digit_str(n));
        assert(old(out)@ + "0"@ + seq![digit_char(n as nat)] =~= old(out)@ + spec_two_digits(
            n as nat,
        ));
    } else {
        push_decimal(out, n);
    }
}

/// Renders `ms` milliseconds as the clock string
/// `hours:minutes:seconds`, each field at least two digits wide.
pub fn to_hh_mm_ss_str(ms: u32) -> (r: String)
    ensures
        r@ == spec_hh_mm_ss(ms as nat),
{
    let seconds = (ms / 1000) % 60;
    let minutes = (ms / 60000) % 60;
    let hours = ms / 3600000;

    let mut out = String::new();
    push_two_digits(&mut out, hours);
    out.append(":");
    push_two_digits(&mut out, minutes);
    out.append(":");
    push_two_digits(&mut out, seconds);
    assert(out@ =~= spec_hh_mm_ss(ms as nat));
    out
}

} // verus!
