//! The pseudo-random generator behind every identicon: xoshiro256++ seeded
//! with the input's hash.
use vstd::prelude::*;

use rand_xoshiro::rand_core::{RngCore, SeedableRng};
use rand_xoshiro::Xoshiro256PlusPlus;

verus! {

#[verifier::external_type_specification]
#[verifier::external_body]
pub struct ExXoshiro256PlusPlus(Xoshiro256PlusPlus);

/// The `k`-th value (from 0) that `next_u32` returns on a xoshiro256++
/// generator made by `from_seed(seed)`.
pub uninterp spec fn xoshiro_u32(seed: Seq<u8>, k: nat) -> u32;

/// A seeded generator. Its view is the seed it was made from and the number of
/// 32-bit values drawn from it so far: together they fix every later draw.
pub struct Prng {
    inner: Xoshiro256PlusPlus,
    seed: Ghost<Seq<u8>>,
    drawn: Ghost<nat>,
}

impl View for Prng {
    type V = (Seq<u8>, nat);

    closed spec fn view(&self) -> (Seq<u8>, nat) {
        (self.seed@, self.drawn@)
    }
}

impl Prng {
    /// Calls `Xoshiro256PlusPlus::from_seed`. Trusted: the new generator has
    /// drawn nothing yet, so its draws are those that `xoshiro_u32` names for
    /// this seed.
    #[verifier::external_body]
    pub fn from_seed(seed: [u8; 32]) -> (p: Prng)
        ensures
            p@ == (seed@, 0nat),
    {
        Prng { inner: Xoshiro256PlusPlus::from_seed(seed), seed: Ghost(seed@), drawn: Ghost(0) }
    }

    /// Calls `RngCore::next_u32` on the generator. Trusted: it returns the next
    /// value of the seed's sequence and advances the count of draws by one.
    #[verifier::external_body]
    pub fn next_u32(&mut self) -> (r: u32)
        ensures
            r == xoshiro_u32(old(self)@.0, old(self)@.1),
            final(self)@ == (old(self)@.0, old(self)@.1 + 1),
    {
        self.inner.next_u32()
    }

    /// A value in `min..=max`: `min` itself without a draw when the range has
    /// one value, else `min` plus the next draw reduced modulo the range's size.
    pub fn range_u32(&mut self, min: u32, max: u32) -> (r: u32)
        requires
            min <= max,
            max - min < u32::MAX,
        ensures
            min <= r <= max,
            min == max ==> r == min && final(self)@ == old(self)@,
            min < max ==> r == min + (xoshiro_u32(old(self)@.0, old(self)@.1) as int) % ((max - min + 1) as int)
                && final(self)@ == (old(self)@.0, old(self)@.1 + 1),
    {
        if min == max {
            return min;
        }
        let span: u32 = max - min + 1;
        let v = self.next_u32();
        min + (v % span)
    }
}

} // verus!
