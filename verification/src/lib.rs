//! plskit — the integer-valued core of a PLS regression toolkit with
//! resampling inference: option types, method dispatch, argument checks,
//! index bookkeeping for folds / splits / permutations, seeded random
//! streams, and the execution-route rules of the resampling engines.

use vstd::prelude::*;

/// The seeded ChaCha8 stream type and the generator calls behind it.
pub mod chacha;
/// Route choice for the resampling loops.
pub mod dual_route;
/// Error kinds and the argument errors decided before numeric work.
pub mod error;
/// K-selection options and checks.
pub mod find_k;
/// PLS1 fit options and fit argument checks.
pub mod fit;
/// Fold partitioning of shuffled indices.
pub mod linalg;
/// Permutation-null engine options and checks.
pub mod perm_null;
/// PLS3 / PLSSVD options and checks.
pub mod pls3;
/// Shape check of PLS1 prediction.
pub mod predict;
/// Row-count agreement of the preprocess inputs.
pub mod preprocess;
/// Index draws for resampling.
pub mod resample;
/// Seeded random streams.
pub mod rng;
/// Shape checks of simple-structure rotation.
pub mod rotate;
/// Rotation-stability diagnostic checks.
pub mod rotation_stability;
/// Per-component (sequential) test arguments.
pub mod sequential;
/// Index draws of the subsampling engine.
pub mod subsample;

verus! {

/// The version string of this library.
pub fn version() -> (v: &'static str)
    ensures
        v@ == "0.5.0"@,
{
    "0.5.0"
}

} // verus!
