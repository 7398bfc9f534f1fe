//! Random numbers, drawn through bracket-lib's generator.
//!
//! The generator itself is opaque to the verifier; all that is stated of a
//! draw is the range it falls in, so everything downstream is proved for
//! every value the generator could return.
use vstd::prelude::*;

verus! {

/// bracket-lib's pseudo-random generator, seeded from the system when built.
#[verifier::external_type_specification]
#[verifier::external_body]
pub struct ExRandomNumberGenerator(bracket_lib::random::RandomNumberGenerator);

/// Relies on `bracket_lib::random::RandomNumberGenerator::new`, which seeds
/// a fresh generator; nothing can be promised of the values it will yield.
#[verifier::external_body]
pub(crate) fn rng_new() -> bracket_lib::random::RandomNumberGenerator {
    bracket_lib::random::RandomNumberGenerator::new()
}

/// Relies on `bracket_lib::random::RandomNumberGenerator::range`, which
/// returns a value inclusive of `low` and exclusive of `high`, and panics
/// when the range is empty — hence the precondition.
#[verifier::external_body]
pub(crate) fn rng_range(
    rng: &mut bracket_lib::random::RandomNumberGenerator,
    low: i32,
    high: i32,
) -> (r: i32)
    requires
        low < high,
    ensures
        low <= r < high,
{
    rng.range(low, high)
}

} // verus!
