use rand::rngs::StdRng;
use rand::RngCore;
use vstd::prelude::*;

verus! {

/// `rand::rngs::StdRng`, the standard random number generator. Declared opaque.
#[verifier::external_type_specification]
#[verifier::external_body]
pub struct ExStdRng(StdRng);

/// `RngCore::next_u64` on the generator: the next random `u64`. Any value
/// can come back, and the generator's state moves on.
#[verifier::external_body]
fn next_random_u64(rng: &mut StdRng) -> u64 {
    rng.next_u64()
}

/// The index a random draw picks in a list of length `len`: the draw, taken
/// as a `usize`, modulo `len`; 0 for an empty list.
pub fn index_from_draw(draw: u64, len: usize) -> (i: usize)
    ensures
        len == 0 ==> i == 0,
        len > 0 ==> i == (draw as usize) % len,
        len > 0 ==> i < len,
{
    if len == 0 {
        0
    } else {
        (draw as usize) % len
    }
}

/// Index into a non-empty list. `len` of 0 returns 0.
pub fn random_index(rng: &mut StdRng, len: usize) -> (i: usize)
    ensures
        len == 0 ==> i == 0,
        len > 0 ==> i < len,
{
    if len == 0 {
        0
    } else {
        let draw = next_random_u64(rng);
        index_from_draw(draw, len)
    }
}

} // verus!
