//! Decimal rendering of integers, used wherever a number is put into a
//! message or a control-file line (id maps, error texts).

use vstd::prelude::*;

verus! {

/// The decimal digit character for a value below ten.
pub open spec fn digit_char(d: int) -> char {
    if d == 0 {
        '0'
    } else if d == 1 {
        '1'
    } else if d == 2 {
        '2'
    } else if d == 3 {
        '3'
    } else if d == 4 {
        '4'
    } else if d == 5 {
        '5'
    } else if d == 6 {
        '6'
    } else if d == 7 {
        '7'
    } else if d == 8 {
        '8'
    } else {
        '9'
    }
}

/// Decimal representation of a non-negative integer, most significant digit
/// first, with no leading zeroes (`0` itself is the single digit `0`).
pub open spec fn dec_chars(n: int) -> Seq<char>
    decreases n,
{
    if n < 10 {
        seq![digit_char(n)]
    } else {
        dec_chars(n / 10).push(digit_char(n % 10))
    }
}

/// Decimal representation of a possibly negative integer: a leading minus
/// sign for negative values, then the digits of the magnitude.
pub open spec fn dec_chars_signed(n: int) -> Seq<char> {
    if n < 0 {
        seq!['-'].add(dec_chars(-n))
    } else {
        dec_chars(n)
    }
}

fn digit_to_char(d: u64) -> (c: char)
    requires
        d < 10,
    ensures
        c == digit_char(d as int),
{
    match d {
        0 => '0',
        1 => '1',
        2 => '2',
        3 => '3',
        4 => '4',
        5 => '5',
        6 => '6',
        7 => '7',
        8 => '8',
        _ => '9',
    }
}

/// Appends the decimal digits of `n` to `out`.
pub fn push_dec_u64(out: &mut String, n: u64)
    ensures
        final(out)@ == old(out)@ + dec_chars(n as int),
    decreases n,
{
    if n < 10 {
        let c = digit_to_char(n);
        out.push(c);
        assert(out@ =~= old(out)@ + dec_chars(n as int));
    } else {
        push_dec_u64(out, n / 10);
        let c = digit_to_char(n % 10);
        out.push(c);
        assert(out@ =~= old(out)@ + dec_chars(n as int));
    }
}

/// The decimal rendering of an unsigned integer.
pub fn u64_to_string(n: u64) -> (s: String)
    ensures
        s@ == dec_chars(n as int),
{
    let mut s = String::new();
    push_dec_u64(&mut s, n);
    assert(s@ =~= dec_chars(n as int));
    s
}

/// The decimal rendering of a signed integer, minus sign included.
pub fn i64_to_string(n: i64) -> (s: String)
    ensures
        s@ == dec_chars_signed(n as int),
{
    let mut s = String::new();
    if n < 0 {
        s.push('-');
        let magnitude: u64 = if n == i64::MIN {
            9223372036854775808u64
        } else {
            (-n) as u64
        };
        assert(magnitude == -(n as int));
        push_dec_u64(&mut s, magnitude);
        assert(s@ =~= dec_chars_signed(n as int));
    } else {
        push_dec_u64(&mut s, n as u64);
        assert(s@ =~= dec_chars_signed(n as int));
    }
    s
}

} // verus!
