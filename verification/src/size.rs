//! Human-readable sizes in decimal (1000-based) units.

use vstd::prelude::*;
use vstd::string::*;

verus! {

pub const KILOBYTE: u64 = 1000;

pub const MEGABYTE: u64 = 1000 * KILOBYTE;

pub const GIGABYTE: u64 = 1000 * MEGABYTE;

pub const TERABYTE: u64 = 1000 * GIGABYTE;

/// The character that writes the decimal digit `d`.
pub open spec fn digit_char(d: nat) -> char
    recommends
        d < 10,
{
    if d == 0 {
        '0'
    } else if d == 1 {
        '1'
    } else if d == 2 {
        '2'
    } else if d == 3 {
        '3'
    } else if d == 4 {
        '4'
    } else if d == 5 {
        '5'
    } else if d == 6 {
        '6'
    } else if d == 7 {
        '7'
    } else if d == 8 {
        '8'
    } else {
        '9'
    }
}

/// The decimal numeral of `n`: most significant digit first, no leading
/// zero, and `"0"` for zero.
pub open spec fn decimal(n: nat) -> Seq<char>
    decreases n,
{
    if n < 10 {
        seq![digit_char(n)]
    } else {
        decimal(n / 10).push(digit_char(n % 10))
    }
}

/// The text shown for a size of `size` bytes: a dash for an empty entry,
/// otherwise the size divided (rounding down) by the largest unit that does
/// not exceed it, followed by the unit's name.
pub open spec fn size_display(size: nat) -> Seq<char> {
    if size == 0 {
        seq!['-']
    } else if size < 1_000 {
        decimal(size) + seq!['B']
    } else if size < 1_000_000 {
        decimal(size / 1_000) + seq!['K', 'B']
    } else if size < 1_000_000_000 {
        decimal(size / 1_000_000) + seq!['M', 'B']
    } else if size < 1_000_000_000_000 {
        decimal(size / 1_000_000_000) + seq!['G', 'B']
    } else {
        decimal(size / 1_000_000_000_000) + seq!['T', 'B']
    }
}

/// The one-character string that writes the digit `d`.
fn digit_str(d: u64) -> (s: &'static str)
    requires
        d < 10,
    ensures
        s@ == seq![digit_char(d as nat)],
{
    proof {
        reveal_strlit("0");
        reveal_strlit("1");
        reveal_strlit("2");
        reveal_strlit("3");
        reveal_strlit("4");
        reveal_strlit("5");
        reveal_strlit("6");
        reveal_strlit("7");
        reveal_strlit("8");
        reveal_strlit("9");
    }
    if d == 0 {
        "0"
    } else if d == 1 {
        "1"
    } else if d == 2 {
        "2"
    } else if d == 3 {
        "3"
    } else if d == 4 {
        "4"
    } else if d == 5 {
        "5"
    } else if d == 6 {
        "6"
    } else if d == 7 {
        "7"
    } else if d == 8 {
        "8"
    } else {
        "9"
    }
}

/// Appends the decimal numeral of `n` to `out`.
pub fn push_decimal(out: &mut String, n: u64)
    ensures
        final(out)@ == old(out)@ + decimal(n as nat),
    decreases n,
{
    if n >= 10 {
        push_decimal(out, n / 10);
    }
    out.append(digit_str(n % 10));
}

} // verus!
