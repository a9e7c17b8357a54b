//! Fresh random material.
//!
//! Every nonce, session secret and challenge is drawn anew from the process's
//! cryptographically secure source; nothing is ever assumed about the values
//! drawn, only about how many bytes came back.

use vstd::prelude::*;

verus! {

/// Relies on rand::random::<u8>: one byte from the thread-local
/// cryptographically secure generator. Nothing is assumed of its value.
#[verifier::external_body]
fn random_u8() -> u8 {
    rand::random()
}

/// Draws `count` fresh random bytes.
pub fn random_bytes(count: usize) -> (r: Vec<u8>)
    ensures
        r@.len() == count,
{
    let mut r: Vec<u8> = Vec::new();
    let mut i: usize = 0;
    while i < count
        invariant
            i <= count,
            r@.len() == i,
        decreases count - i,
    {
        r.push(random_u8());
        i = i + 1;
    }
    r
}

} // verus!
