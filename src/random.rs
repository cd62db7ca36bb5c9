//! The one source of chance in the game: uniform draws from a seedable
//! generator, used to place the target and the player.

use rand::rngs::StdRng;
use rand::Rng;
use vstd::prelude::*;

verus! {

#[verifier::external_type_specification]
#[verifier::external_body]
pub struct ExStdRng(StdRng);

/// Relies on `rand::Rng::gen_range` on a half-open range: it returns a value
/// of `0..bound`, and panics only when that range is empty.
#[verifier::external_body]
pub(crate) fn draw_below(rng: &mut StdRng, bound: u8) -> (r: u8)
    requires
        bound > 0,
    ensures
        r < bound,
{
    rng.gen_range(0..bound)
}

} // verus!
