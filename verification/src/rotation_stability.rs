//! Argument checks of the PLS1 rotation-stability diagnostic.

use vstd::prelude::*;

use crate::error::ArgError;
use crate::fit::check_same_rows;

verus! {

/// Largest subspace dimension the diagnostic accepts: signed-permutation
/// enumeration costs `2^k · k!` candidates per replicate.
pub const ROTATION_STABILITY_MAX_K: usize = 7;

/// Offset between the run's seed and the seed of the paired-bootstrap
/// stream, so that stream never collides with the subsample draws.
pub const BOOT_SEED_OFFSET: u64 = 0xB007;

/// Seed of the paired-bootstrap stream of a run seeded with `seed`.
pub fn bootstrap_stream_seed(seed: u64) -> (s: u64)
    ensures
        s == (seed + BOOT_SEED_OFFSET) % 0x1_0000_0000_0000_0000,
{
    seed.wrapping_add(BOOT_SEED_OFFSET)
}

/// The checks of the rotation-stability diagnostic made before any
/// numeric work, in order: equal row counts, `1 ≤ k ≤ n_features`,
/// `k ≠ 1` (rotation indeterminacy is meaningless on a line), `k ≤ 7`,
/// and a loading basis, when given, with `k` columns.
pub fn check_rotation_stability_request(
    n_samples: usize,
    n_features: usize,
    y_rows: usize,
    k: usize,
    l_cols: Option<usize>,
) -> (r: Result<(), ArgError>)
    ensures
        r == (if y_rows != n_samples {
            Err(ArgError::DimensionMismatch { x: (n_samples, n_features), y: y_rows })
        } else if k == 0 || k > n_features {
            Err(ArgError::KExceedsMax { k, k_max: n_features })
        } else if k == 1 {
            Err(ArgError::RotationKOne)
        } else if k > ROTATION_STABILITY_MAX_K {
            Err(ArgError::RotationKAboveCap { k })
        } else {
            match l_cols {
                Some(c) => if c != k {
                    Err(ArgError::LoadingWidthMismatch { l_cols: c, k })
                } else {
                    Ok(())
                },
                None => Ok(()),
            }
        }),
{
    check_same_rows(n_samples, n_features, y_rows)?;
    if k == 0 || k > n_features {
        return Err(ArgError::KExceedsMax { k, k_max: n_features });
    }
    if k == 1 {
        return Err(ArgError::RotationKOne);
    }
    if k > ROTATION_STABILITY_MAX_K {
        return Err(ArgError::RotationKAboveCap { k });
    }
    if let Some(c) = l_cols {
        if c != k {
            return Err(ArgError::LoadingWidthMismatch { l_cols: c, k });
        }
    }
    Ok(())
}

} // verus!
