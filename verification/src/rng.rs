//! The seeded random stream that the instancer consumes.
//!
//! The generator is rand's `StdRng` (ChaCha12 in the rand version this crate
//! builds against), seeded from 32 bytes. Each value it hands out is a pure
//! function of the seed and of the ranges drawn before it, which is what the
//! scene's determinism rests on; `stream_draw` names that function, and the
//! ghost `seed` and `past` fields record its arguments draw by draw.

use vstd::prelude::*;

verus! {

/// The value rand's `StdRng` yields for a uniform draw over `[lo, hi)` when
/// built from `seed` after the draws recorded in `past`, oldest first, each
/// as its `(lo, hi)` range. ChaCha12 is deterministic and portable, so this
/// is a function of those arguments alone.
pub uninterp spec fn stream_draw(seed: Seq<u8>, past: Seq<(u64, u64)>, lo: u64, hi: u64) -> u64;

#[verifier::external_type_specification]
#[verifier::external_body]
pub struct ExStdRng(rand::rngs::StdRng);

/// A seeded pseudo-random stream of bounded integer draws. The ghost fields
/// mirror what the underlying generator has consumed: `seed` is the 32-byte
/// seed it was built from and `past` the ranges drawn so far, in order.
pub struct SeededRng {
    inner: rand::rngs::StdRng,
    seed: Ghost<Seq<u8>>,
    past: Ghost<Seq<(u64, u64)>>,
}

/// Relies on `rand::SeedableRng::from_seed` for `rand::rngs::StdRng`: builds
/// the generator from the 32-byte seed, deterministically.
#[verifier::external_body]
fn std_rng_from_seed(seed: [u8; 32]) -> rand::rngs::StdRng {
    <rand::rngs::StdRng as rand::SeedableRng>::from_seed(seed)
}

impl SeededRng {
    /// The seed this stream was built from.
    pub closed spec fn seed_view(self) -> Seq<u8> {
        self.seed@
    }

    /// The ranges drawn from this stream so far, oldest first.
    pub closed spec fn drawn(self) -> Seq<(u64, u64)> {
        self.past@
    }

    /// Builds a fresh stream from a 32-byte seed: nothing drawn yet.
    pub fn from_seed(seed: [u8; 32]) -> (r: SeededRng)
        ensures
            r.seed_view() == seed@,
            r.drawn() == Seq::<(u64, u64)>::empty(),
    {
        SeededRng {
            inner: std_rng_from_seed(seed),
            seed: Ghost(seed@),
            past: Ghost(Seq::empty()),
        }
    }

    /// One uniform draw over `[lo, hi)`.
    ///
    /// Relies on `rand::Rng::random_range` on `StdRng`: the result lies in
    /// the (non-empty) range, and is a pure function of the generator's
    /// state, that is of the seed and of the ranges drawn before — `StdRng`
    /// is ChaCha12 here, which rand_chacha documents as deterministic and
    /// portable.
    #[verifier::external_body]
    pub fn draw_in(&mut self, lo: u64, hi: u64) -> (r: u64)
        requires
            lo < hi,
        ensures
            lo <= r < hi,
            r == stream_draw(old(self).seed_view(), old(self).drawn(), lo, hi),
            final(self).seed_view() == old(self).seed_view(),
            final(self).drawn() == old(self).drawn().push((lo, hi)),
    {
        rand::Rng::random_range(&mut self.inner, lo..hi)
    }
}

} // verus!
