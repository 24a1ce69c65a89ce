//! Human-readable display of byte counts.
//!
//! Sizes below 1000 bytes are shown in bytes, sizes below one million in
//! whole kilobytes, and everything larger in whole megabytes, truncating
//! toward zero at each threshold.

use vstd::prelude::*;
use vstd::string::StringExecFns;

verus! {

/// The character for a single decimal digit.
pub open spec fn digit_char(d: nat) -> char {
    if d == 0 {
        '0'
    } else if d == 1 {
        '1'
    } else if d == 2 {
        '2'
    } else if d == 3 {
        '3'
    } else if d == 4 {
        '4'
    } else if d == 5 {
        '5'
    } else if d == 6 {
        '6'
    } else if d == 7 {
        '7'
    } else if d == 8 {
        '8'
    } else {
        '9'
    }
}

/// The decimal digit string of `n`, most significant digit first,
/// without leading zeros (except for `n == 0` itself).
pub open spec fn dec_str(n: nat) -> Seq<char>
    decreases n,
{
    if n < 10 {
        seq![digit_char(n)]
    } else {
        dec_str(n / 10) + seq![digit_char(n % 10)]
    }
}

/// What `convert_size` returns: the truncated quantity in the chosen
/// unit, followed by the unit's suffix.
pub open spec fn spec_size_text(size: u64) -> Seq<char> {
    if size < 1000 {
        dec_str(size as nat) + " B"@
    } else if size < 1000000 {
        dec_str((size / 1000) as nat) + " kB"@
    } else {
        dec_str((size / 1000000) as nat) + " MB"@
    }
}

fn digit_to_char(d: u64) -> (c: char)
    requires
        d < 10,
    ensures
        c == digit_char(d as nat),
{
    match d {
        0 => '0',
        1 => '1',
        2 => '2',
        3 => '3',
        4 => '4',
        5 => '5',
        6 => '6',
        7 => '7',
        8 => '8',
        _ => '9',
    }
}

/// Appends the decimal digits of `n` to `out`.
fn push_decimal(n: u64, out: &mut String)
    ensures
        final(out)@ == old(out)@ + dec_str(n as nat),
    decreases n,
{
    if n >= 10 {
        push_decimal(n / 10, out);
        let c = digit_to_char(n % 10);
        out.push(c);
        proof {
            assert(out@ =~= old(out)@ + dec_str(n as nat));
        }
    } else {
        let c = digit_to_char(n);
        out.push(c);
        proof {
            assert(out@ =~= old(out)@ + dec_str(n as nat));
        }
    }
}

/// Formats a byte count for display: `"999 B"`, `"999 kB"`, `"1 MB"`, …
pub fn convert_size(size: u64) -> (text: String)
    ensures
        text@ == spec_size_text(size),
{
    let mut text = String::new();
    if size < 1000 {
        push_decimal(size, &mut text);
        text.append(" B");
    } else if size < 1000000 {
        push_decimal(size / 1000, &mut text);
        text.append(" kB");
    } else {
        push_decimal(size / 1000000, &mut text);
        text.append(" MB");
    }
    text
}

} // verus!
