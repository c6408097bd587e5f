//! Permutation-null engine options and its argument checks.

use vstd::prelude::*;

use crate::error::{ArgError, CountName};
use crate::fit::check_same_rows;

verus! {

/// Tuning knobs of the permutation-null engine.
#[derive(Debug, Clone, Copy)]
pub struct PermNullOpts {
    /// Number of permutations. Must be ≥ 100 (per-voxel-z noise floor).
    pub n_perm: usize,
    /// If true, retain and return the full `(n_perm, D)` β-matrix.
    pub return_perm_matrix: bool,
    /// Caller asserts X is already column-standardized.
    pub pre_standardized: bool,
    /// Disable parallelism (deterministic byte-for-byte).
    pub disable_parallelism: bool,
    /// Print progress to stderr (reserved).
    pub verbose: bool,
}

/// Fewest permutations the engine accepts.
pub const PERM_NULL_MIN_N_PERM: usize = 100;

impl PermNullOpts {
    /// Validate the arguments: `n_perm ≥ 100`, then `k ≥ 1`.
    pub fn validate(&self, k: usize) -> (r: Result<(), ArgError>)
        ensures
            r == (if self.n_perm < PERM_NULL_MIN_N_PERM {
                Err(
                    ArgError::CountTooSmall {
                        count: CountName::NPerm,
                        got: self.n_perm,
                        min: PERM_NULL_MIN_N_PERM,
                    },
                )
            } else if k < 1 {
                Err(ArgError::CountTooSmall { count: CountName::K, got: k, min: 1 })
            } else {
                Ok(())
            }),
    {
        if self.n_perm < PERM_NULL_MIN_N_PERM {
            return Err(
                ArgError::CountTooSmall {
                    count: CountName::NPerm,
                    got: self.n_perm,
                    min: PERM_NULL_MIN_N_PERM,
                },
            );
        }
        if k < 1 {
            return Err(ArgError::CountTooSmall { count: CountName::K, got: k, min: 1 });
        }
        Ok(())
    }
}

/// The checks of the permutation-null engine made before any numeric
/// work, in order: the options, equal row counts, and `k ≤ n_features`.
pub fn check_perm_null_request(
    opts: &PermNullOpts,
    k: usize,
    n_samples: usize,
    n_features: usize,
    y_rows: usize,
) -> (r: Result<(), ArgError>)
    ensures
        r == (if opts.n_perm < PERM_NULL_MIN_N_PERM {
            Err(
                ArgError::CountTooSmall {
                    count: CountName::NPerm,
                    got: opts.n_perm,
                    min: PERM_NULL_MIN_N_PERM,
                },
            )
        } else if k < 1 {
            Err(ArgError::CountTooSmall { count: CountName::K, got: k, min: 1 })
        } else if y_rows != n_samples {
            Err(ArgError::DimensionMismatch { x: (n_samples, n_features), y: y_rows })
        } else if k > n_features {
            Err(ArgError::KExceedsMax { k, k_max: n_features })
        } else {
            Ok(())
        }),
{
    opts.validate(k)?;
    check_same_rows(n_samples, n_features, y_rows)?;
    if k > n_features {
        return Err(ArgError::KExceedsMax { k, k_max: n_features });
    }
    Ok(())
}

} // verus!
