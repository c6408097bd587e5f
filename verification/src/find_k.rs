//! K-selection options and the argument checks of the K-selection entry
//! points.

use vstd::prelude::*;

use crate::error::ArgError;
use crate::fit::check_same_rows;
use crate::sequential::check_sequence_k;
use crate::signal_test::ConfirmatoryMethod;

verus! {

/// Selector used by optimal-K selection to pick K* from the candidate range.
#[derive(Debug, Clone, Copy, PartialEq, Eq, Structural)]
pub enum Selector {
    /// Maximize CV R² with the 1-SE rule (default).
    R2Se,
    /// Maximize CV R² without the 1-SE rule.
    R2Max,
    /// Minimize `BIC(k) = n · log(SSR / n) + k · log(n)`.
    Bic,
}

impl Selector {
    /// The selector's name as reported on results.
    pub open spec fn name_text(self) -> Seq<char> {
        match self {
            Selector::R2Se => "r2_se"@,
            Selector::R2Max => "r2_max"@,
            Selector::Bic => "bic"@,
        }
    }

    /// The selector's name as reported on results (`"r2_se"`, `"r2_max"`,
    /// `"bic"`).
    pub fn as_str(self) -> (s: &'static str)
        ensures
            s@ == self.name_text(),
    {
        match self {
            Selector::R2Se => "r2_se",
            Selector::R2Max => "r2_max",
            Selector::Bic => "bic",
        }
    }
}

/// Options of optimal-K selection.
#[derive(Debug, Clone, Copy)]
pub struct FindKOptimalOpts {
    /// Which selection criterion to use.
    pub selector: Selector,
    /// Number of CV folds (CV selectors only).
    pub n_folds: usize,
    /// Optional same-sample sequential diagnostic on K* (any method with a
    /// per-component reading). Selection and test share data, so its
    /// p-values are diagnostic only.
    pub diagnostic: Option<ConfirmatoryMethod>,
    /// Number of permutations for a permutation-based diagnostic.
    pub n_perm: usize,
    /// Number of split-half repetitions for a split-based diagnostic.
    pub n_splits: usize,
    /// Caller asserts X and y are already standardized.
    pub pre_standardized: bool,
    /// RNG seed; `None` draws from OS entropy.
    pub seed: Option<u64>,
    /// Disable parallelism (forces serial execution).
    pub disable_parallelism: bool,
    /// Print progress to stderr (reserved).
    pub verbose: bool,
}

impl Default for FindKOptimalOpts {
    fn default() -> (opts: Self)
        ensures
            opts.selector == Selector::R2Se,
            opts.n_folds == 5,
            opts.diagnostic is None,
            opts.n_perm == 1000,
            opts.n_splits == 50,
            !opts.pre_standardized,
            opts.seed is None,
            !opts.disable_parallelism,
            !opts.verbose,
    {
        Self {
            selector: Selector::R2Se,
            n_folds: 5,
            diagnostic: None,
            n_perm: 1000,
            n_splits: 50,
            pre_standardized: false,
            seed: None,
            disable_parallelism: false,
            verbose: false,
        }
    }
}

/// The checks of optimal-K selection made before any numeric work, in
/// order: equal row counts, `1 ≤ k_max ≤ n_features`, and no score
/// diagnostic (the score test has no sequential variant).
pub fn check_find_k_optimal_request(
    n_samples: usize,
    n_features: usize,
    y_rows: usize,
    k_max: usize,
    diagnostic: Option<ConfirmatoryMethod>,
) -> (r: Result<(), ArgError>)
    ensures
        r == (if y_rows != n_samples {
            Err(ArgError::DimensionMismatch { x: (n_samples, n_features), y: y_rows })
        } else if k_max == 0 || k_max > n_features {
            Err(ArgError::KExceedsMax { k: k_max, k_max: n_features })
        } else if diagnostic == Some(ConfirmatoryMethod::Score) {
            Err(ArgError::NoSequentialVariant { method: ConfirmatoryMethod::Score })
        } else {
            Ok(())
        }),
{
    check_same_rows(n_samples, n_features, y_rows)?;
    check_sequence_k(k_max, n_features)?;
    if let Some(ConfirmatoryMethod::Score) = diagnostic {
        return Err(ArgError::NoSequentialVariant { method: ConfirmatoryMethod::Score });
    }
    Ok(())
}

/// The checks of sequence K selection made before any numeric work:
/// equal row counts, then `1 ≤ k_max ≤ n_features`.
pub fn check_find_k_sequence_request(
    n_samples: usize,
    n_features: usize,
    y_rows: usize,
    k_max: usize,
) -> (r: Result<(), ArgError>)
    ensures
        r == (if y_rows != n_samples {
            Err(ArgError::DimensionMismatch { x: (n_samples, n_features), y: y_rows })
        } else if k_max == 0 || k_max > n_features {
            Err(ArgError::KExceedsMax { k: k_max, k_max: n_features })
        } else {
            Ok(())
        }),
{
    check_same_rows(n_samples, n_features, y_rows)?;
    check_sequence_k(k_max, n_features)
}

/// The fold count and component cap of K-selection by cross-validation
/// on `n` rows: the requested fold count clamped to `2..=max(n - 2, 2)`,
/// and `k_max` capped at `n - folds - 2` (saturating), but at least one.
pub open spec fn cv_plan_of(n: nat, k_max: nat, n_folds: nat) -> (nat, nat) {
    let room: nat = if n >= 2 {
        (n - 2) as nat
    } else {
        0
    };
    let folds: nat = if n_folds <= room {
        n_folds
    } else {
        room
    };
    let folds: nat = if folds >= 2 {
        folds
    } else {
        2
    };
    let comp_room: nat = if n >= folds + 2 {
        (n - folds - 2) as nat
    } else {
        0
    };
    let comp: nat = if k_max <= comp_room {
        k_max
    } else {
        comp_room
    };
    (folds, if comp >= 1 {
        comp
    } else {
        1
    })
}

/// What the cross-validation plan keeps of the request: the requested
/// fold count whenever it is at least two and leaves two rows spare, the
/// requested component cap whenever it fits in the rows left after the
/// folds and two more, and otherwise the largest that fits (never below
/// one component or two folds).
pub proof fn lemma_cv_plan_keeps_request(n: nat, k_max: nat, n_folds: nat)
    ensures
        2 <= n_folds && n_folds + 2 <= n ==> cv_plan_of(n, k_max, n_folds).0 == n_folds,
        n_folds + 2 > n && n >= 4 ==> cv_plan_of(n, k_max, n_folds).0 == n - 2,
        n_folds < 2 || n < 4 ==> cv_plan_of(n, k_max, n_folds).0 == 2,
        1 <= k_max && cv_plan_of(n, k_max, n_folds).0 + 2 + k_max <= n ==> cv_plan_of(
            n,
            k_max,
            n_folds,
        ).1 == k_max,
        cv_plan_of(n, k_max, n_folds).0 + 2 + k_max > n && cv_plan_of(n, k_max, n_folds).0 + 3 <= n
            ==> cv_plan_of(n, k_max, n_folds).1 == n - cv_plan_of(n, k_max, n_folds).0 - 2,
        cv_plan_of(n, k_max, n_folds).0 + 3 > n || k_max == 0 ==> cv_plan_of(n, k_max, n_folds).1
            == 1,
{
}

/// `(n_folds, max_comp)` actually used by K-selection by cross-validation.
pub fn cv_plan(n: usize, k_max: usize, n_folds: usize) -> (plan: (usize, usize))
    ensures
        plan.0 as nat == cv_plan_of(n as nat, k_max as nat, n_folds as nat).0,
        plan.1 as nat == cv_plan_of(n as nat, k_max as nat, n_folds as nat).1,
        plan.0 >= 2,
        plan.1 >= 1,
        k_max >= 1 ==> plan.1 <= k_max,
        n >= 4 ==> plan.0 + 2 <= n,
        2 <= n_folds && n_folds + 2 <= n ==> plan.0 == n_folds,
        1 <= k_max && plan.0 + 2 + k_max <= n ==> plan.1 == k_max,
        plan.0 + 2 + k_max > n && plan.0 + 3 <= n ==> plan.1 == n - plan.0 - 2,
        plan.0 + 3 > n ==> plan.1 == 1,
{
    let room = n.saturating_sub(2);
    let mut folds = if n_folds <= room {
        n_folds
    } else {
        room
    };
    if folds < 2 {
        folds = 2;
    }
    let comp_room = n.saturating_sub(folds + 2);
    let mut comp = if k_max <= comp_room {
        k_max
    } else {
        comp_room
    };
    if comp < 1 {
        comp = 1;
    }
    (folds, comp)
}

} // verus!
