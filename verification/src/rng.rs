//! The deterministic randomness source used during proof generation: a
//! xorshift generator built from a fixed seed, so runs are reproducible.

use vstd::prelude::*;

verus! {

/// The xorshift generator type of `rand_xorshift`, opaque to verification.
#[verifier::external_type_specification]
#[verifier::external_body]
pub struct ExXorShiftRng(rand_xorshift::XorShiftRng);

/// Relies on `rand_xorshift::XorShiftRng::from_seed` (`SeedableRng`): builds
/// a generator from the fixed all-zero seed, which the implementation maps to
/// a fixed internal replacement without panicking, so every call starts the
/// generator in the same state.
#[verifier::external_body]
pub fn gen_rng() -> rand_xorshift::XorShiftRng {
    <rand_xorshift::XorShiftRng as rand::SeedableRng>::from_seed([0u8; 16])
}

} // verus!
