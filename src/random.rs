use vstd::prelude::*;
use rand::distributions::{Distribution, Uniform};

verus! {

/// Relies on `rand::distributions::Uniform::new(0, 359)` sampled with
/// `rand::thread_rng()`: a whole number of degrees in `[0, 359)`, drawn at
/// random.
#[verifier::external_body]
pub(crate) fn random_degrees() -> (r: u32)
    ensures
        r < 359,
{
    Uniform::new(0u32, 359u32).sample(&mut rand::thread_rng())
}

} // verus!
