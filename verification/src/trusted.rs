//! The few outside calls the library relies on without proof: pushing a
//! character onto a `String`, checking bytes as UTF-8, and drawing random
//! bytes. Everything else in the crate is verified against these contracts.

use vstd::prelude::*;
use vstd::utf8::{encode_utf8, valid_utf8};

verus! {

/// Relies on `String::push`: appends exactly the given character.
pub assume_specification[ String::push ](s: &mut String, c: char)
    ensures
        final(s)@ == old(s)@.push(c),
;

/// Relies on `String::from_utf8`: returns `Ok` exactly on valid UTF-8 input,
/// and the returned string's UTF-8 bytes are the input bytes.
#[verifier::external_body]
pub fn utf8_to_string(v: Vec<u8>) -> (r: Option<String>)
    ensures
        r is Some <==> valid_utf8(v@),
        r is Some ==> encode_utf8(r->0@) == v@,
{
    String::from_utf8(v).ok()
}

/// Relies on `rand::random`: 16 bytes drawn from the thread-local generator.
/// Nothing is assumed of the values themselves.
#[verifier::external_body]
pub fn random_bytes_16() -> (r: Vec<u8>)
    ensures
        r@.len() == 16,
{
    rand::random::<[u8; 16]>().to_vec()
}

} // verus!
