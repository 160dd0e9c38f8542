//! Numbers rendered as operator text: decimal (`{}`), upper-case hex
//! without leading zeros (`{:X}`) and zero-padded upper-case hex
//! (`{:0wX}`).

use vstd::prelude::*;
use vstd::string::StringExecFns;

verus! {

/// The text of one digit, `0`-`9` then `A`-`F`.
pub open spec fn digit_text(d: nat) -> &'static str {
    if d == 0 {
        "0"
    } else if d == 1 {
        "1"
    } else if d == 2 {
        "2"
    } else if d == 3 {
        "3"
    } else if d == 4 {
        "4"
    } else if d == 5 {
        "5"
    } else if d == 6 {
        "6"
    } else if d == 7 {
        "7"
    } else if d == 8 {
        "8"
    } else if d == 9 {
        "9"
    } else if d == 10 {
        "A"
    } else if d == 11 {
        "B"
    } else if d == 12 {
        "C"
    } else if d == 13 {
        "D"
    } else if d == 14 {
        "E"
    } else {
        "F"
    }
}

/// `n` in `base` (2..=16), upper-case, without leading zeros.
pub open spec fn radix_text(n: nat, base: nat) -> Seq<char>
    decreases n,
{
    if n < base || base < 2 {
        digit_text(n)@
    } else {
        proof {
            assert(n / base < n) by (nonlinear_arith)
                requires
                    n >= base,
                    base >= 2,
            ;
        }
        radix_text(n / base, base) + digit_text(n % base)@
    }
}

/// `n` in decimal, as `{}` renders it.
pub open spec fn decimal_text(n: nat) -> Seq<char> {
    radix_text(n, 10)
}

/// `n` in upper-case hexadecimal without leading zeros, as `{:X}` renders it.
pub open spec fn hex_text(n: nat) -> Seq<char> {
    radix_text(n, 16)
}

/// The low `width` hexadecimal digits of `n`, upper-case, zero-padded, as
/// `{:0wX}` renders a value of at most `width` digits.
pub open spec fn padded_hex_text(n: nat, width: nat) -> Seq<char>
    decreases width,
{
    if width == 0 {
        Seq::empty()
    } else {
        padded_hex_text(n / 16, (width - 1) as nat) + digit_text(n % 16)@
    }
}

/// The text of one digit.
pub fn digit_str(d: u64) -> (r: &'static str)
    requires
        d < 16,
    ensures
        r == digit_text(d as nat),
{
    if d == 0 {
        "0"
    } else if d == 1 {
        "1"
    } else if d == 2 {
        "2"
    } else if d == 3 {
        "3"
    } else if d == 4 {
        "4"
    } else if d == 5 {
        "5"
    } else if d == 6 {
        "6"
    } else if d == 7 {
        "7"
    } else if d == 8 {
        "8"
    } else if d == 9 {
        "9"
    } else if d == 10 {
        "A"
    } else if d == 11 {
        "B"
    } else if d == 12 {
        "C"
    } else if d == 13 {
        "D"
    } else if d == 14 {
        "E"
    } else {
        "F"
    }
}

/// Append `n` written in `base`.
pub fn append_radix(s: &mut String, n: u64, base: u64)
    requires
        2 <= base <= 16,
    ensures
        final(s)@ == old(s)@ + radix_text(n as nat, base as nat),
    decreases n,
{
    if n >= base {
        assert(n / base < n) by (nonlinear_arith)
            requires
                n >= base,
                base >= 2,
        ;
        append_radix(s, n / base, base);
    } else {
        assert(n % base == n) by (nonlinear_arith)
            requires
                n < base,
                base >= 2,
        ;
    }
    s.append(digit_str(n % base));
}

/// Append `n` in decimal.
pub fn append_decimal(s: &mut String, n: u64)
    ensures
        final(s)@ == old(s)@ + decimal_text(n as nat),
{
    append_radix(s, n, 10);
}

/// Append `n` in upper-case hexadecimal without leading zeros.
pub fn append_hex(s: &mut String, n: u64)
    ensures
        final(s)@ == old(s)@ + hex_text(n as nat),
{
    append_radix(s, n, 16);
}

/// Append the low `width` hexadecimal digits of `n`, zero-padded.
pub fn append_padded_hex(s: &mut String, n: u64, width: u32)
    ensures
        final(s)@ == old(s)@ + padded_hex_text(n as nat, width as nat),
    decreases width,
{
    if width > 0 {
        append_padded_hex(s, n / 16, width - 1);
        s.append(digit_str(n % 16));
    }
}

} // verus!
