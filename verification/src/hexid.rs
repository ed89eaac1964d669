//! Random hexadecimal identifiers. Each request gets a fresh cgroup
//! directory named by 16 random bytes rendered as 32 lowercase hex digits.

use vstd::prelude::*;
use crate::trusted::random_bytes_16;

verus! {

/// The lowercase hexadecimal digit character for a value below sixteen.
pub open spec fn hex_digit(d: u8) -> char {
    if d == 0 {
        '0'
    } else if d == 1 {
        '1'
    } else if d == 2 {
        '2'
    } else if d == 3 {
        '3'
    } else if d == 4 {
        '4'
    } else if d == 5 {
        '5'
    } else if d == 6 {
        '6'
    } else if d == 7 {
        '7'
    } else if d == 8 {
        '8'
    } else if d == 9 {
        '9'
    } else if d == 10 {
        'a'
    } else if d == 11 {
        'b'
    } else if d == 12 {
        'c'
    } else if d == 13 {
        'd'
    } else if d == 14 {
        'e'
    } else {
        'f'
    }
}

/// Lowercase hex rendering of a byte string: two digits per byte, high
/// nibble first.
pub open spec fn hex_chars(bytes: Seq<u8>) -> Seq<char> {
    Seq::new(
        2 * bytes.len(),
        |i: int|
            if i % 2 == 0 {
                hex_digit(bytes[i / 2] / 16)
            } else {
                hex_digit((bytes[i / 2] % 16) as u8)
            },
    )
}

/// A lowercase hexadecimal digit character.
pub open spec fn is_hex_char(c: char) -> bool {
    ('0' <= c && c <= '9') || ('a' <= c && c <= 'f')
}

pub proof fn lemma_hex_digit_is_hex_char(d: u8)
    requires
        d < 16,
    ensures
        is_hex_char(hex_digit(d)),
{
}

fn nibble_to_char(d: u8) -> (c: char)
    requires
        d < 16,
    ensures
        c == hex_digit(d),
{
    match d {
        0 => '0',
        1 => '1',
        2 => '2',
        3 => '3',
        4 => '4',
        5 => '5',
        6 => '6',
        7 => '7',
        8 => '8',
        9 => '9',
        10 => 'a',
        11 => 'b',
        12 => 'c',
        13 => 'd',
        14 => 'e',
        _ => 'f',
    }
}

/// Lowercase hex rendering of a byte string.
pub fn hex_of_bytes(bytes: &Vec<u8>) -> (s: String)
    ensures
        s@ == hex_chars(bytes@),
{
    let mut s = String::new();
    let mut i: usize = 0;
    while i < bytes.len()
        invariant
            i <= bytes@.len(),
            s@ =~= hex_chars(bytes@.take(i as int)),
        decreases bytes@.len() - i,
    {
        let b = bytes[i];
        let hi = nibble_to_char(b / 16);
        s.push(hi);
        let lo = nibble_to_char(b % 16);
        s.push(lo);
        i = i + 1;
        assert(s@ =~= hex_chars(bytes@.take(i as int)));
    }
    assert(bytes@.take(bytes@.len() as int) =~= bytes@);
    s
}

/// A fresh random identifier: 16 random bytes as 32 lowercase hex digits.
pub fn random_id() -> (s: String)
    ensures
        s@.len() == 32,
        forall|i: int| 0 <= i < s@.len() ==> is_hex_char(#[trigger] s@[i]),
{
    let bytes = random_bytes_16();
    let s = hex_of_bytes(&bytes);
    assert forall|i: int| 0 <= i < s@.len() implies is_hex_char(#[trigger] s@[i]) by {
        if i % 2 == 0 {
            lemma_hex_digit_is_hex_char(bytes@[i / 2] / 16);
        } else {
            lemma_hex_digit_is_hex_char((bytes@[i / 2] % 16) as u8);
        }
    }
    s
}

} // verus!
