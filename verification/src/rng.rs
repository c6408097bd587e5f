//! Seeded random streams. Every stream is a ChaCha8 generator seeded from
//! one `u64`; iteration `i` of a resampling loop always uses child seed
//! `i`, drawn sequentially from the parent before any work is handed out,
//! so results do not depend on how the work is scheduled.
//!
//! A stream is modelled by its seed and the number of 32-bit words it has
//! produced so far; what the generator emits at a given position is named
//! by `chacha8_u64_at`, and what a shuffle does by `chacha8_shuffle`.

use vstd::prelude::*;

pub use crate::chacha::{chacha8_index_below, chacha8_shuffle, chacha8_u64_at, Rng};
pub(crate) use crate::chacha::{
    chacha8_from_seed, chacha8_next_u64, chacha8_random_index, chacha8_shuffle_usize,
};

verus! {

/// Reads 64 bits of operating-system entropy (calls `getrandom::fill` on
/// an 8-byte buffer, read little-endian). `None` when the OS cannot
/// provide entropy. Nothing is claimed about the value.
#[verifier::external_body]
fn os_entropy_u64() -> Option<u64> {
    let mut buf = [0u8; 8];
    match getrandom::fill(&mut buf) {
        Ok(()) => Some(u64::from_le_bytes(buf)),
        Err(_) => None,
    }
}

/// The child seeds drawn from a stream at `(seed, pos)`: the next `n`
/// values it produces, in order.
pub open spec fn child_seed_stream(seed: u64, pos: nat, n: nat) -> Seq<u64> {
    Seq::new(n, |i: int| chacha8_u64_at(seed, pos + 2 * (i as nat)))
}

/// Draw 64 bits of OS entropy; used when the caller passes no seed.
/// `None` when the operating system cannot provide entropy.
pub fn draw_os_seed() -> Option<u64> {
    os_entropy_u64()
}

/// Resolve an optional seed to a concrete one and a stream seeded from it.
/// A given seed is used as is; without one, 64 bits of OS entropy are drawn,
/// and `None` is returned only when the OS cannot provide them.
pub fn resolve_seed(seed: Option<u64>) -> (res: Option<(u64, Rng)>)
    ensures
        seed matches Some(given) ==> (res matches Some((s, _)) && s == given),
        res matches Some((s, r)) ==> r@ == (s, 0nat),
{
    let s = match seed {
        Some(s) => s,
        None => match draw_os_seed() {
            Some(s) => s,
            None => return None,
        },
    };
    Some((s, chacha8_from_seed(s)))
}

/// Pre-compute `n_iterations` child seeds sequentially from `parent`.
pub fn child_seeds(parent: &mut Rng, n_iterations: usize) -> (seeds: Vec<u64>)
    ensures
        seeds@ == child_seed_stream(old(parent)@.0, old(parent)@.1, n_iterations as nat),
        final(parent)@ == (old(parent)@.0, (old(parent)@.1 + 2 * n_iterations) as nat),
{
    let mut seeds: Vec<u64> = Vec::with_capacity(n_iterations);
    let ghost start = parent@;
    for i in 0..n_iterations
        invariant
            parent@.0 == start.0,
            parent@.1 == start.1 + 2 * i,
            seeds@ == child_seed_stream(start.0, start.1, i as nat),
    {
        let s = chacha8_next_u64(parent);
        seeds.push(s);
        assert(seeds@ =~= child_seed_stream(start.0, start.1, (i + 1) as nat));
    }
    seeds
}

impl Rng {
    /// Draws the stream's next `u64`.
    pub fn next_u64(&mut self) -> (x: u64)
        ensures
            x == chacha8_u64_at(old(self)@.0, old(self)@.1),
            final(self)@ == (old(self)@.0, old(self)@.1 + 2),
    {
        chacha8_next_u64(self)
    }
}

/// Re-seed a fresh stream from one child seed.
pub fn child_rng(seed: u64) -> (r: Rng)
    ensures
        r@ == (seed, 0nat),
{
    chacha8_from_seed(seed)
}

/// Asking for more child seeds never changes the earlier ones: the first
/// `n` seeds of a longer draw are exactly the seeds of a draw of `n`.
pub proof fn lemma_child_seeds_prefix_stable(seed: u64, pos: nat, n: nat, m: nat)
    requires
        n <= m,
    ensures
        child_seed_stream(seed, pos, m).subrange(0, n as int) == child_seed_stream(seed, pos, n),
{
    assert(child_seed_stream(seed, pos, m).subrange(0, n as int) =~= child_seed_stream(
        seed,
        pos,
        n,
    ));
}

} // verus!
