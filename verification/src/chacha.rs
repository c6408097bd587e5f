//! The seeded ChaCha8 stream type. Its fields are private to this module,
//! and only the functions here create or advance a stream, each calling
//! the generator and moving the ghost seed and position along with it; so
//! the view `(seed, pos)` of every `Rng` names the stream its generator
//! actually emits: `ChaCha8Rng::seed_from_u64(seed)` after `pos` 32-bit
//! words. Code elsewhere in the crate can read the view but cannot set it.

use vstd::prelude::*;

use rand_chacha::ChaCha8Rng;

verus! {

#[verifier::external_type_specification]
#[verifier::external_body]
pub struct ExChaCha8Rng(ChaCha8Rng);

/// The `u64` that a ChaCha8 generator seeded by `seed_from_u64(seed)`
/// returns from `next_u64` after it has produced `pos` 32-bit words.
pub uninterp spec fn chacha8_u64_at(seed: u64, pos: nat) -> u64;

/// What `SliceRandom::shuffle` leaves in a slice holding `items` when it
/// draws from a generator seeded with `seed` that has produced `pos`
/// words, paired with the generator's word count afterwards.
pub uninterp spec fn chacha8_shuffle(items: Seq<usize>, seed: u64, pos: nat) -> (Seq<usize>, nat);

/// A seeded ChaCha8 stream.
pub struct Rng {
    inner: ChaCha8Rng,
    seed: Ghost<u64>,
    pos: Ghost<nat>,
}

impl View for Rng {
    /// The seed the stream was created from, and the number of 32-bit words
    /// it has produced since.
    type V = (u64, nat);

    closed spec fn view(&self) -> (u64, nat) {
        (self.seed@, self.pos@)
    }
}

/// Seeds a fresh stream (calls `rand_core::SeedableRng::seed_from_u64` on
/// `ChaCha8Rng`). Claimed: the stream starts at word 0 of that seed.
#[verifier::external_body]
pub(crate) fn chacha8_from_seed(seed: u64) -> (r: Rng)
    ensures
        r@ == (seed, 0nat),
{
    Rng {
        inner: <ChaCha8Rng as rand::SeedableRng>::seed_from_u64(seed),
        seed: Ghost(seed),
        pos: Ghost(0),
    }
}

/// Draws one `u64` (calls `rand_core::Rng::next_u64` on `ChaCha8Rng`).
/// Claimed: the value is the stream's value at its current position, and
/// the draw consumes exactly two 32-bit words (the block buffer in
/// `rand_core::block::BlockRng::next_u64_from_u32` always reads two).
#[verifier::external_body]
pub(crate) fn chacha8_next_u64(rng: &mut Rng) -> (x: u64)
    ensures
        x == chacha8_u64_at(old(rng)@.0, old(rng)@.1),
        final(rng)@ == (old(rng)@.0, old(rng)@.1 + 2),
{
    rand::Rng::next_u64(&mut rng.inner)
}

/// Shuffles `items` in place (calls `rand::seq::SliceRandom::shuffle`
/// with the stream). Claimed: the result and the stream's new position
/// are those named by `chacha8_shuffle`, the seed is unchanged, and the
/// slice afterwards holds the same items (Fisher-Yates swaps).
#[verifier::external_body]
pub(crate) fn chacha8_shuffle_usize(items: &mut Vec<usize>, rng: &mut Rng)
    ensures
        (final(items)@, final(rng)@.1) == chacha8_shuffle(old(items)@, old(rng)@.0, old(rng)@.1),
        final(rng)@.0 == old(rng)@.0,
        final(items)@.to_multiset() == old(items)@.to_multiset(),
{
    rand::seq::SliceRandom::shuffle(items.as_mut_slice(), &mut rng.inner)
}

/// What `RngExt::random_range(0..bound)` returns for `usize` when drawing
/// from a stream at `(seed, pos)`, paired with the stream's position
/// afterwards.
pub uninterp spec fn chacha8_index_below(bound: usize, seed: u64, pos: nat) -> (usize, nat);

/// Draws an index uniformly from `0..bound` (calls `rand::RngExt::random_range`
/// with the stream). Claimed: the draw and the stream's new position are
/// those named by `chacha8_index_below`, and the index is below `bound`
/// (documented range contract). `random_range` panics on an empty range,
/// so `bound` must be positive.
#[verifier::external_body]
pub(crate) fn chacha8_random_index(bound: usize, rng: &mut Rng) -> (i: usize)
    requires
        bound > 0,
    ensures
        (i, final(rng)@.1) == chacha8_index_below(bound, old(rng)@.0, old(rng)@.1),
        final(rng)@.0 == old(rng)@.0,
        i < bound,
{
    rand::RngExt::random_range(&mut rng.inner, 0..bound)
}

} // verus!
