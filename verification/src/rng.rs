//! The shared secure random generator, as an explicitly owned handle.
//!
//! Session identifiers are drawn from a ChaCha8 generator. The generator is
//! injected wherever randomness is needed (rather than ambient global state),
//! so tests can seed it deterministically while the hosting process seeds it
//! from the OS entropy source at startup.
use vstd::prelude::*;

verus! {

#[verifier::external_type_specification]
#[verifier::external_body]
pub struct ExChaCha8Rng(rand_chacha::ChaCha8Rng);

/// Relies on `rand_core::SeedableRng::seed_from_u64` for
/// `rand_chacha::ChaCha8Rng`: builds a generator from a 64-bit seed. Nothing
/// is claimed about the stream it produces.
#[verifier::external_body]
fn chacha_from_seed(seed: u64) -> (r: rand_chacha::ChaCha8Rng) {
    rand_core::SeedableRng::seed_from_u64(seed)
}

/// Relies on `rand_core::RngCore::next_u64` for `rand_core::OsRng`: draws a
/// word from the OS entropy source. The result is random; nothing is claimed
/// about it.
#[verifier::external_body]
fn os_entropy_u64() -> (r: u64) {
    rand_core::RngCore::next_u64(&mut rand_core::OsRng)
}

/// Relies on `rand_core::RngCore::fill_bytes` for
/// `rand_chacha::ChaCha8Rng`: fills 16 bytes from the generator's stream and
/// advances its state. The bytes are read back as one little-endian 128-bit
/// value. The result is (pseudo)random; nothing is claimed about it, and two
/// calls may differ.
#[verifier::external_body]
fn chacha_fill_u128(rng: &mut rand_chacha::ChaCha8Rng) -> (r: u128) {
    let mut pool = [0u8; 16];
    rand_core::RngCore::fill_bytes(rng, &mut pool);
    u128::from_le_bytes(pool)
}

/// An owned handle on the ChaCha8 generator. Callers that need randomness
/// take it as an explicit `&mut` argument.
pub struct Rng {
    inner: rand_chacha::ChaCha8Rng,
}

impl Rng {
    /// A deterministically seeded generator, for tests and for replaying.
    pub fn from_seed(seed: u64) -> Rng {
        Rng { inner: chacha_from_seed(seed) }
    }

    /// A generator seeded from the OS entropy source; what a process uses at
    /// startup. Never reused across processes without reseeding.
    pub fn from_entropy() -> Rng {
        let seed = os_entropy_u64();
        Rng { inner: chacha_from_seed(seed) }
    }

    /// Draw 128 bits from the generator. The value is random: no relation
    /// between calls or inputs is promised, and callers must cope with every
    /// possible value, collisions included.
    pub fn next_u128(&mut self) -> u128 {
        chacha_fill_u128(&mut self.inner)
    }
}

} // verus!
