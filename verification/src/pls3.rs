//! PLS3 / PLSSVD (SVD of the standardized cross-covariance `X̃'Ỹ`): fit
//! options, the score blocks a transform can produce, and the argument
//! checks made before any numeric work.

use vstd::prelude::*;

use crate::error::{ArgError, Block};
use crate::fit::ParChoice;

verus! {

/// Knobs for a PLS3 fit.
#[derive(Debug, Clone, Copy)]
pub struct Pls3FitOpts {
    /// Skip X centering/scaling; the caller asserts X is already
    /// standardized (the recorded moments are then 0 / 1).
    pub pre_standardized_x: bool,
    /// Skip Y centering/scaling; same contract as `pre_standardized_x`.
    pub pre_standardized_y: bool,
    /// Parallelism strategy for the score matmuls.
    pub par: ParChoice,
}

impl Default for Pls3FitOpts {
    fn default() -> (opts: Self)
        ensures
            !opts.pre_standardized_x,
            !opts.pre_standardized_y,
            opts.par == ParChoice::Auto,
    {
        Self { pre_standardized_x: false, pre_standardized_y: false, par: ParChoice::Auto }
    }
}

/// Which score block a PLS3 transform should produce.
#[derive(Debug, Clone, Copy, PartialEq, Eq, Structural)]
pub enum TransformWhich {
    /// Project new X only.
    XScores,
    /// Project new Y only.
    YScores,
    /// Project both blocks.
    Both,
}

impl TransformWhich {
    /// The public snake_case name of each choice.
    pub open spec fn name_text(self) -> Seq<char> {
        match self {
            TransformWhich::XScores => "x_scores"@,
            TransformWhich::YScores => "y_scores"@,
            TransformWhich::Both => "both"@,
        }
    }

    /// Whether this choice asks for the given block.
    pub open spec fn wants(self, block: Block) -> bool {
        match block {
            Block::X => self == TransformWhich::XScores || self == TransformWhich::Both,
            Block::Y => self == TransformWhich::YScores || self == TransformWhich::Both,
        }
    }

    /// Public string identifier (snake_case) used in wrapper APIs.
    pub fn as_str(self) -> (s: &'static str)
        ensures
            s@ == self.name_text(),
    {
        match self {
            TransformWhich::XScores => "x_scores",
            TransformWhich::YScores => "y_scores",
            TransformWhich::Both => "both",
        }
    }

    /// Whether the X block is asked for.
    pub fn needs_x(self) -> (b: bool)
        ensures
            b == self.wants(Block::X),
    {
        matches!(self, TransformWhich::XScores | TransformWhich::Both)
    }

    /// Whether the Y block is asked for.
    pub fn needs_y(self) -> (b: bool)
        ensures
            b == self.wants(Block::Y),
    {
        matches!(self, TransformWhich::YScores | TransformWhich::Both)
    }
}

/// Every choice asks for at least one block, and `Both` is exactly the
/// choice that asks for both.
pub proof fn lemma_transform_asks_for_a_block(which: TransformWhich)
    ensures
        which.wants(Block::X) || which.wants(Block::Y),
        (which.wants(Block::X) && which.wants(Block::Y)) <==> which == TransformWhich::Both,
{
}

/// The checks of a PLS3 fit made before the finiteness check: X and Y
/// share their row count, and no observation weights are passed (this
/// family does not implement them).
pub fn check_pls3_rows(n_samples: usize, n_features: usize, y_rows: usize, weighted: bool) -> (r:
    Result<(), ArgError>)
    ensures
        r == (if y_rows != n_samples {
            Err(ArgError::DimensionMismatch { x: (n_samples, n_features), y: y_rows })
        } else if weighted {
            Err(ArgError::WeightsNotSupported)
        } else {
            Ok(())
        }),
{
    if y_rows != n_samples {
        return Err(ArgError::DimensionMismatch { x: (n_samples, n_features), y: y_rows });
    }
    if weighted {
        return Err(ArgError::WeightsNotSupported);
    }
    Ok(())
}

/// The component-count checks of a PLS3 fit: `1 ≤ k ≤ min(p, q)`.
pub fn check_pls3_k(k: usize, n_features: usize, n_targets: usize) -> (r: Result<(), ArgError>)
    ensures
        r == (if k == 0 {
            Err(ArgError::KZero)
        } else if k > n_features || k > n_targets {
            Err(
                ArgError::KExceedsMax {
                    k,
                    k_max: if n_features <= n_targets {
                        n_features
                    } else {
                        n_targets
                    },
                },
            )
        } else {
            Ok(())
        }),
{
    if k == 0 {
        return Err(ArgError::KZero);
    }
    let k_max = if n_features <= n_targets {
        n_features
    } else {
        n_targets
    };
    if k > k_max {
        return Err(ArgError::KExceedsMax { k, k_max });
    }
    Ok(())
}

/// What a transform checks for one block before projecting it, in order:
/// nothing when `which` does not ask for the block; otherwise the new data
/// must be supplied, have the model's column count, and the model's
/// saliences and moments for that block must agree with each other.
pub open spec fn transform_block_error(
    which: TransformWhich,
    block: Block,
    new_cols: Option<usize>,
    model_rows: usize,
    salience_cols: usize,
    k_used: usize,
    mean_len: usize,
    scale_len: usize,
) -> Option<ArgError> {
    if !which.wants(block) {
        None
    } else {
        match new_cols {
            None => Some(ArgError::BlockNotSupplied { which, block }),
            Some(c) => if c != model_rows {
                Some(ArgError::BlockColumnMismatch { block, got: c, expected: model_rows })
            } else if salience_cols != k_used {
                Some(ArgError::SalienceWidthMismatch { block, got: salience_cols, k_used })
            } else if mean_len != model_rows || scale_len != model_rows {
                Some(
                    ArgError::MomentLengthMismatch {
                        block,
                        mean_len,
                        scale_len,
                        expected: model_rows,
                    },
                )
            } else {
                None
            },
        }
    }
}

/// Shape checks of a transform for one block. `new_cols` is the column
/// count of the new data for that block (`None` when not supplied);
/// `model_rows` is the row count of the model's saliences for the block.
pub fn check_transform_block(
    which: TransformWhich,
    block: Block,
    new_cols: Option<usize>,
    model_rows: usize,
    salience_cols: usize,
    k_used: usize,
    mean_len: usize,
    scale_len: usize,
) -> (r: Result<(), ArgError>)
    ensures
        r is Ok <==> transform_block_error(
            which,
            block,
            new_cols,
            model_rows,
            salience_cols,
            k_used,
            mean_len,
            scale_len,
        ) is None,
        r matches Err(e) ==> transform_block_error(
            which,
            block,
            new_cols,
            model_rows,
            salience_cols,
            k_used,
            mean_len,
            scale_len,
        ) == Some(e),
{
    let wanted = match block {
        Block::X => which.needs_x(),
        Block::Y => which.needs_y(),
    };
    if !wanted {
        return Ok(());
    }
    let c = match new_cols {
        None => return Err(ArgError::BlockNotSupplied { which, block }),
        Some(c) => c,
    };
    if c != model_rows {
        return Err(ArgError::BlockColumnMismatch { block, got: c, expected: model_rows });
    }
    if salience_cols != k_used {
        return Err(ArgError::SalienceWidthMismatch { block, got: salience_cols, k_used });
    }
    if mean_len != model_rows || scale_len != model_rows {
        return Err(
            ArgError::MomentLengthMismatch { block, mean_len, scale_len, expected: model_rows },
        );
    }
    Ok(())
}

} // verus!
