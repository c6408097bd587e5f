//! Error classification. Every error the toolkit reports belongs to one
//! `ErrorKind`, whose stable snake_case code is what wrappers expose.
//! `ArgError` is the part of the error space that is decided by counts,
//! shapes and option values alone, before any numeric work starts.

use vstd::prelude::*;

use crate::pls3::TransformWhich;
use crate::signal_test::ConfirmatoryMethod;

verus! {

/// The kinds of error the toolkit distinguishes.
#[derive(Debug, Clone, Copy, PartialEq, Eq, Structural)]
pub enum ErrorKind {
    /// X and y have incompatible row counts.
    DimensionMismatch,
    /// Requested k exceeds the maximum supported for this dataset.
    KExceedsMax,
    /// Input matrix or vector contains NaN or infinity.
    NonFiniteInput,
    /// NIPALS loop did not converge within the iteration budget.
    ConvergenceFailure,
    /// Generic invalid argument.
    InvalidArgument,
    /// Internal bug.
    Internal,
    /// Requested rotation method is not implemented.
    RotationMethodNotImplemented,
    /// Method-specific args had unknown, missing or wrong-typed entries.
    InvalidArgs,
    /// Generic invalid input (shape, finiteness, K=0, ...).
    InvalidInput,
    /// Two arrays had incompatible shapes.
    ShapeMismatch,
    /// Re-rotation of an already rotated model.
    AlreadyRotated,
    /// Observation weights are invalid.
    InvalidWeights,
    /// Too many resamples failed per-subsample validation.
    ResamplingDegenerate,
    /// Per-resample failure rate exceeded its threshold.
    ResampleFailureRateExceeded,
    /// More than half of the permutation-null refits failed.
    PermNullDegenerate,
}

impl ErrorKind {
    /// The stable code of each kind: the variant name in snake_case.
    pub open spec fn code_text(self) -> Seq<char> {
        match self {
            ErrorKind::DimensionMismatch => "dimension_mismatch"@,
            ErrorKind::KExceedsMax => "k_exceeds_max"@,
            ErrorKind::NonFiniteInput => "non_finite_input"@,
            ErrorKind::ConvergenceFailure => "convergence_failure"@,
            ErrorKind::InvalidArgument => "invalid_argument"@,
            ErrorKind::Internal => "internal"@,
            ErrorKind::RotationMethodNotImplemented => "rotation_method_not_implemented"@,
            ErrorKind::InvalidArgs => "invalid_args"@,
            ErrorKind::InvalidInput => "invalid_input"@,
            ErrorKind::ShapeMismatch => "shape_mismatch"@,
            ErrorKind::AlreadyRotated => "already_rotated"@,
            ErrorKind::InvalidWeights => "invalid_weights"@,
            ErrorKind::ResamplingDegenerate => "resampling_degenerate"@,
            ErrorKind::ResampleFailureRateExceeded => "resample_failure_rate_exceeded"@,
            ErrorKind::PermNullDegenerate => "perm_null_degenerate"@,
        }
    }

    /// Stable string code used by wrappers to populate their error objects.
    pub fn code(self) -> (c: &'static str)
        ensures
            c@ == self.code_text(),
    {
        match self {
            ErrorKind::DimensionMismatch => "dimension_mismatch",
            ErrorKind::KExceedsMax => "k_exceeds_max",
            ErrorKind::NonFiniteInput => "non_finite_input",
            ErrorKind::ConvergenceFailure => "convergence_failure",
            ErrorKind::InvalidArgument => "invalid_argument",
            ErrorKind::Internal => "internal",
            ErrorKind::RotationMethodNotImplemented => "rotation_method_not_implemented",
            ErrorKind::InvalidArgs => "invalid_args",
            ErrorKind::InvalidInput => "invalid_input",
            ErrorKind::ShapeMismatch => "shape_mismatch",
            ErrorKind::AlreadyRotated => "already_rotated",
            ErrorKind::InvalidWeights => "invalid_weights",
            ErrorKind::ResamplingDegenerate => "resampling_degenerate",
            ErrorKind::ResampleFailureRateExceeded => "resample_failure_rate_exceeded",
            ErrorKind::PermNullDegenerate => "perm_null_degenerate",
        }
    }
}

/// Which count an argument error is about.
#[derive(Debug, Clone, Copy, PartialEq, Eq, Structural)]
pub enum CountName {
    /// Number of permutations.
    NPerm,
    /// Number of cross-validation folds.
    NFolds,
    /// Number of split-half repetitions.
    NSplits,
    /// Number of components.
    K,
}

/// Which block of a two-block (X, Y) analysis an error is about.
#[derive(Debug, Clone, Copy, PartialEq, Eq, Structural)]
pub enum Block {
    /// The X (feature) block.
    X,
    /// The Y (target) block.
    Y,
}

/// Errors decided by counts, shapes and option values alone.
#[derive(Debug, Clone, Copy, PartialEq, Eq)]
pub enum ArgError {
    /// X has `x = (rows, cols)` but y has `y` rows (or, for prediction,
    /// the model expects `y` columns).
    DimensionMismatch { x: (usize, usize), y: usize },
    /// Requested `k` components where at most `k_max` are supported.
    KExceedsMax { k: usize, k_max: usize },
    /// `k == 0` requested for a fit.
    KZero,
    /// A count is below its floor.
    CountTooSmall { count: CountName, got: usize, min: usize },
    /// Sparse keep-count of zero (an empty component).
    KeepZero,
    /// Sparse keep-count above the number of features.
    KeepExceedsFeatures { keep: usize, n_features: usize },
    /// Sparse keep-count together with a subsampling CI (post-selection
    /// inference).
    KeepWithCi,
    /// The method has no per-component (sequential) variant.
    NoSequentialVariant { method: ConfirmatoryMethod },
    /// Observation weights passed to a family that does not implement them.
    WeightsNotSupported,
    /// `which` asks for a block whose new data was not supplied.
    BlockNotSupplied { which: TransformWhich, block: Block },
    /// New data for a block has `got` columns; the model was fit on `expected`.
    BlockColumnMismatch { block: Block, got: usize, expected: usize },
    /// The model's saliences for a block have `got` columns but `k_used` is different.
    SalienceWidthMismatch { block: Block, got: usize, k_used: usize },
    /// The model's moments for a block have the wrong lengths.
    MomentLengthMismatch { block: Block, mean_len: usize, scale_len: usize, expected: usize },
    /// The test supports `k == 1` only.
    KNotOne { k: usize },
    /// The test does not support this method.
    MethodNotSupported { method: ConfirmatoryMethod },
    /// Too few rows for a split-half method: `n < k + 5`.
    SplitFloor { n: usize, k: usize },
    /// The no-refit split-half permutation test needs `k == 1`.
    NoRefitNeedsKOne { k: usize },
    /// The no-refit split-half permutation test takes no weights.
    NoRefitWeighted,
    /// The no-refit split-half permutation test takes no sparse keep-count.
    NoRefitSparseKeep,
    /// Rotation-stability diagnostic on a one-dimensional subspace.
    RotationKOne,
    /// Rotation-stability diagnostic above its enumeration cap.
    RotationKAboveCap { k: usize },
    /// A loading basis with `l_cols` columns for `k` components.
    LoadingWidthMismatch { l_cols: usize, k: usize },
    /// Rotation of a weight matrix with no columns.
    RotationNoComponents,
}

impl ArgError {
    /// The kind each argument error is reported as.
    pub open spec fn kind_of(self) -> ErrorKind {
        match self {
            ArgError::DimensionMismatch { .. } => ErrorKind::DimensionMismatch,
            ArgError::KExceedsMax { .. } => ErrorKind::KExceedsMax,
            ArgError::BlockColumnMismatch { .. }
            | ArgError::SalienceWidthMismatch { .. }
            | ArgError::MomentLengthMismatch { .. }
            | ArgError::LoadingWidthMismatch { .. } => ErrorKind::ShapeMismatch,
            ArgError::RotationNoComponents => ErrorKind::InvalidInput,
            _ => ErrorKind::InvalidArgument,
        }
    }

    /// The kind this error is reported as.
    pub fn kind(&self) -> (k: ErrorKind)
        ensures
            k == self.kind_of(),
    {
        match self {
            ArgError::DimensionMismatch { .. } => ErrorKind::DimensionMismatch,
            ArgError::KExceedsMax { .. } => ErrorKind::KExceedsMax,
            ArgError::BlockColumnMismatch { .. }
            | ArgError::SalienceWidthMismatch { .. }
            | ArgError::MomentLengthMismatch { .. }
            | ArgError::LoadingWidthMismatch { .. } => ErrorKind::ShapeMismatch,
            ArgError::RotationNoComponents => ErrorKind::InvalidInput,
            _ => ErrorKind::InvalidArgument,
        }
    }

    /// Stable string code of this error's kind.
    pub fn code(&self) -> (c: &'static str)
        ensures
            c@ == self.kind_of().code_text(),
    {
        self.kind().code()
    }
}

/// Distinct error kinds report distinct codes, so a wrapper can branch on
/// the code alone.
pub proof fn lemma_codes_distinct(a: ErrorKind, b: ErrorKind)
    requires
        a != b,
    ensures
        a.code_text() != b.code_text(),
{
        reveal_strlit("dimension_mismatch");
        reveal_strlit("k_exceeds_max");
        reveal_strlit("non_finite_input");
        reveal_strlit("convergence_failure");
        reveal_strlit("invalid_argument");
        reveal_strlit("internal");
        reveal_strlit("rotation_method_not_implemented");
        reveal_strlit("invalid_args");
        reveal_strlit("invalid_input");
        reveal_strlit("shape_mismatch");
        reveal_strlit("already_rotated");
        reveal_strlit("invalid_weights");
        reveal_strlit("resampling_degenerate");
        reveal_strlit("resample_failure_rate_exceeded");
        reveal_strlit("perm_null_degenerate");
    if a.code_text() == b.code_text() {
        assert(a.code_text().len() == b.code_text().len());
        assert(a.code_text()[0] == b.code_text()[0]);
    }
}

} // verus!
