//! The random part of a delay, drawn from the thread-local generator of `rand`.

use rand::rngs::ThreadRng;
use rand::Rng;
use vstd::prelude::*;

verus! {

#[verifier::external_type_specification]
#[verifier::external_body]
pub struct ExThreadRng(rand::rngs::ThreadRng);

/// `rand::thread_rng`: a handle to the generator of the calling thread.
/// Nothing is claimed of the handle. The generator is seeded by the system
/// and fails only where the system has no entropy to give, which no argument
/// decides.
#[verifier::external_body]
pub(crate) fn thread_generator() -> ThreadRng {
    rand::thread_rng()
}

/// `rand::Rng::gen_range` on the half-open range `0..bound`: the number that
/// comes back lies in that range. The range must not be empty, since
/// `gen_range` panics on an empty one. Which number comes back is chance.
/// The generator reseeds itself from the system now and then, and fails
/// only where the system has no entropy to give, which no argument decides.
#[verifier::external_body]
pub(crate) fn draw_below(generator: &mut ThreadRng, bound: u64) -> (drawn: u64)
    requires
        bound > 0,
    ensures
        drawn < bound,
{
    generator.gen_range(0..bound)
}

} // verus!
