//! PLS1 fit options and the argument checks a fit makes before any
//! numeric work.

use vstd::prelude::*;

use crate::error::ArgError;

verus! {

/// How a PLS1 fit decides how many components to extract.
#[derive(Debug, Clone, Copy)]
pub enum KSpec {
    /// Fixed component count requested by the caller.
    Fixed(usize),
}

/// Parallelism strategy for the NIPALS kernel.
///
/// `Auto` (the default) runs sequentially when `n * d * k < 1_000_000` and
/// on the global thread pool otherwise; below that size thread overhead
/// dominates. Resamplers force `Sequential` for their inner fits, since the outer
/// loop already saturates the cores.
#[derive(Debug, Clone, Copy, PartialEq, Eq, Structural)]
pub enum ParChoice {
    /// Decide per fit based on `n * d * k`.
    Auto,
    /// Force sequential execution.
    Sequential,
}

/// Knobs for a PLS1 fit.
#[derive(Debug, Clone, Copy)]
pub struct FitOpts {
    /// Skip the centering/scaling step; the caller asserts X and y are
    /// already standardized.
    pub pre_standardized: bool,
    /// When true (default), the fit rejects an effective sample size below
    /// `k + 1`. Per-iteration internal calls set it to false.
    pub check_n_eff: bool,
    /// Parallelism strategy for the NIPALS kernel.
    pub par: ParChoice,
    /// Sparse keep-count: retain the `keep` largest-|w| coordinates per
    /// component. `None` (default) is the dense fit.
    pub keep: Option<usize>,
}

impl Default for FitOpts {
    fn default() -> (opts: Self)
        ensures
            !opts.pre_standardized,
            opts.check_n_eff,
            opts.par == ParChoice::Auto,
            opts.keep is None,
    {
        Self { pre_standardized: false, check_n_eff: true, par: ParChoice::Auto, keep: None }
    }
}

/// Problem size from which `ParChoice::Auto` goes parallel.
pub const PAR_WORK_THRESHOLD: usize = 1_000_000;

/// Whether a fit of an `n × d` problem with `k` components runs on the
/// global thread pool (`true`) or sequentially (`false`). `Sequential` is always
/// sequential; `Auto` goes parallel exactly when `n * d * k` reaches the
/// threshold (the product saturates, so overflow counts as large).
pub fn resolve_par(choice: ParChoice, n: usize, d: usize, k: usize) -> (parallel: bool)
    ensures
        parallel == (choice == ParChoice::Auto && n * d * k >= PAR_WORK_THRESHOLD),
{
    match choice {
        ParChoice::Sequential => false,
        ParChoice::Auto => {
            let nd = match n.checked_mul(d) {
                Some(v) => v,
                None => {
                    if k == 0 {
                        return false;
                    }
                    assert(n * d * k >= PAR_WORK_THRESHOLD) by (nonlinear_arith)
                        requires
                            n * d > usize::MAX,
                            k >= 1,
                    ;
                    return true;
                },
            };
            match nd.checked_mul(k) {
                Some(work) => work >= PAR_WORK_THRESHOLD,
                None => true,
            }
        },
    }
}

/// Validate a sparse keep-count against the feature dimension:
/// `keep ∈ 1..=n_features` (`keep == n_features` is the dense case).
pub fn validate_keep(keep: usize, n_features: usize) -> (r: Result<(), ArgError>)
    ensures
        r == (if keep == 0 {
            Err(ArgError::KeepZero)
        } else if keep > n_features {
            Err(ArgError::KeepExceedsFeatures { keep, n_features })
        } else {
            Ok(())
        }),
{
    if keep == 0 {
        return Err(ArgError::KeepZero);
    }
    if keep > n_features {
        return Err(ArgError::KeepExceedsFeatures { keep, n_features });
    }
    Ok(())
}

/// X (`n_samples × n_features`) and y (`y_rows` long) must have the same
/// number of rows.
pub fn check_same_rows(n_samples: usize, n_features: usize, y_rows: usize) -> (r: Result<
    (),
    ArgError,
>)
    ensures
        r == (if y_rows != n_samples {
            Err(ArgError::DimensionMismatch { x: (n_samples, n_features), y: y_rows })
        } else {
            Ok(())
        }),
{
    if y_rows != n_samples {
        return Err(ArgError::DimensionMismatch { x: (n_samples, n_features), y: y_rows });
    }
    Ok(())
}

/// The component-count checks of a PLS1 fit, made after the row and
/// finiteness checks: `k ≥ 1`, `k ≤ n_features`, then the keep-count.
pub fn check_fit_k(k: KSpec, n_features: usize, keep: Option<usize>) -> (r: Result<(), ArgError>)
    ensures
        r == (match k {
            KSpec::Fixed(kr) => if kr == 0 {
                Err(ArgError::KZero)
            } else if kr > n_features {
                Err(ArgError::KExceedsMax { k: kr, k_max: n_features })
            } else {
                match keep {
                    Some(kp) => if kp == 0 {
                        Err(ArgError::KeepZero)
                    } else if kp > n_features {
                        Err(ArgError::KeepExceedsFeatures { keep: kp, n_features })
                    } else {
                        Ok(())
                    },
                    None => Ok(()),
                }
            },
        }),
{
    let KSpec::Fixed(k_requested) = k;
    if k_requested == 0 {
        return Err(ArgError::KZero);
    }
    if k_requested > n_features {
        return Err(ArgError::KExceedsMax { k: k_requested, k_max: n_features });
    }
    if let Some(kp) = keep {
        validate_keep(kp, n_features)?;
    }
    Ok(())
}

} // verus!
