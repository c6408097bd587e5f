//! Per-component (sequential) test arguments: which confirmatory methods
//! have a per-component reading, their defaults, and how one step's
//! arguments map onto the confirmatory test.

use vstd::prelude::*;

use crate::error::ArgError;
use crate::signal_test::{ConfirmatoryArgs, ConfirmatoryMethod};

verus! {

/// Method-specific arguments of a sequential test step. `Score` and the
/// no-refit split test have no sequential variant and cannot be expressed.
#[derive(Debug, Clone, Copy)]
pub enum SequentialArgs {
    /// Raw permutation CV R² test per component.
    RawPerm {
        /// Number of permutations.
        n_perm: usize,
    },
    /// Split-half NB test per component.
    SplitNb {
        /// Number of split-half repetitions.
        n_splits: usize,
    },
    /// Permutation-calibrated split-half test per component.
    SplitPerm {
        /// Number of permutations.
        n_perm: usize,
        /// Number of split-half repetitions.
        n_splits: usize,
    },
    /// Universal-inference split-LR e-value per component.
    E,
}

/// The methods with a per-component reading.
pub open spec fn has_sequential_variant(method: ConfirmatoryMethod) -> bool {
    method != ConfirmatoryMethod::Score && method != ConfirmatoryMethod::SplitPermNr
}

impl SequentialArgs {
    /// The confirmatory method each variant maps onto.
    pub open spec fn method_of(self) -> ConfirmatoryMethod {
        match self {
            SequentialArgs::RawPerm { .. } => ConfirmatoryMethod::RawPerm,
            SequentialArgs::SplitNb { .. } => ConfirmatoryMethod::SplitNb,
            SequentialArgs::SplitPerm { .. } => ConfirmatoryMethod::SplitPerm,
            SequentialArgs::E => ConfirmatoryMethod::E,
        }
    }

    /// The number of permutations a step asks for, where the method
    /// permutes.
    pub open spec fn perm_count(self) -> Option<usize> {
        match self {
            SequentialArgs::RawPerm { n_perm } => Some(n_perm),
            SequentialArgs::SplitPerm { n_perm, .. } => Some(n_perm),
            _ => None,
        }
    }

    /// The number of split-half repetitions a step asks for, where the
    /// method splits.
    pub open spec fn split_count(self) -> Option<usize> {
        match self {
            SequentialArgs::SplitNb { n_splits } => Some(n_splits),
            SequentialArgs::SplitPerm { n_splits, .. } => Some(n_splits),
            _ => None,
        }
    }

    /// The confirmatory arguments one step runs with: the same counts, and
    /// five CV folds for the raw permutation test.
    pub open spec fn confirmatory_of(self) -> ConfirmatoryArgs {
        match self {
            SequentialArgs::RawPerm { n_perm } => ConfirmatoryArgs::RawPerm { n_perm, n_folds: 5 },
            SequentialArgs::SplitNb { n_splits } => ConfirmatoryArgs::SplitNb { n_splits },
            SequentialArgs::SplitPerm { n_perm, n_splits } => ConfirmatoryArgs::SplitPerm {
                n_perm,
                n_splits,
            },
            SequentialArgs::E => ConfirmatoryArgs::E,
        }
    }

    /// The sequential arguments of a method with the given counts.
    pub open spec fn with_counts_of(method: ConfirmatoryMethod, n_perm: usize, n_splits: usize) -> Option<
        SequentialArgs,
    > {
        match method {
            ConfirmatoryMethod::RawPerm => Some(SequentialArgs::RawPerm { n_perm }),
            ConfirmatoryMethod::SplitNb => Some(SequentialArgs::SplitNb { n_splits }),
            ConfirmatoryMethod::SplitPerm => Some(SequentialArgs::SplitPerm { n_perm, n_splits }),
            ConfirmatoryMethod::E => Some(SequentialArgs::E),
            ConfirmatoryMethod::Score | ConfirmatoryMethod::SplitPermNr => None,
        }
    }

    /// The confirmatory-test method tag this variant maps onto.
    pub fn method(&self) -> (m: ConfirmatoryMethod)
        ensures
            m == self.method_of(),
    {
        match self {
            SequentialArgs::RawPerm { .. } => ConfirmatoryMethod::RawPerm,
            SequentialArgs::SplitNb { .. } => ConfirmatoryMethod::SplitNb,
            SequentialArgs::SplitPerm { .. } => ConfirmatoryMethod::SplitPerm,
            SequentialArgs::E => ConfirmatoryMethod::E,
        }
    }

    /// Default args for a given method: 1000 permutations, 50 splits.
    /// `None` for the methods with no per-component reading.
    pub fn defaults_for(method: ConfirmatoryMethod) -> (args: Option<Self>)
        ensures
            args == Self::with_counts_of(method, 1000, 50),
            args is Some <==> has_sequential_variant(method),
            args matches Some(a) ==> a.method_of() == method,
    {
        Some(
            match method {
                ConfirmatoryMethod::RawPerm => SequentialArgs::RawPerm { n_perm: 1000 },
                ConfirmatoryMethod::SplitNb => SequentialArgs::SplitNb { n_splits: 50 },
                ConfirmatoryMethod::SplitPerm => SequentialArgs::SplitPerm {
                    n_perm: 1000,
                    n_splits: 50,
                },
                ConfirmatoryMethod::E => SequentialArgs::E,
                ConfirmatoryMethod::Score | ConfirmatoryMethod::SplitPermNr => return None,
            },
        )
    }

    /// Translate to the corresponding confirmatory arguments for the
    /// per-step call. The step runs the same method.
    pub fn to_confirmatory_args(self) -> (args: ConfirmatoryArgs)
        ensures
            args == self.confirmatory_of(),
            args.method_of() == self.method_of(),
            args.perm_count() == self.perm_count(),
            args.split_count() == self.split_count(),
            args.fold_count() == (if self.method_of() == ConfirmatoryMethod::RawPerm {
                Some(5usize)
            } else {
                None
            }),
    {
        match self {
            SequentialArgs::RawPerm { n_perm } => ConfirmatoryArgs::RawPerm { n_perm, n_folds: 5 },
            SequentialArgs::SplitNb { n_splits } => ConfirmatoryArgs::SplitNb { n_splits },
            SequentialArgs::SplitPerm { n_perm, n_splits } => ConfirmatoryArgs::SplitPerm {
                n_perm,
                n_splits,
            },
            SequentialArgs::E => ConfirmatoryArgs::E,
        }
    }

    /// The sequential arguments of `method` with the caller's permutation
    /// and split counts, as a K-selection run builds them; an error for a
    /// method with no per-component reading.
    pub fn with_counts(method: ConfirmatoryMethod, n_perm: usize, n_splits: usize) -> (r: Result<
        Self,
        ArgError,
    >)
        ensures
            r matches Ok(a) ==> Self::with_counts_of(method, n_perm, n_splits) == Some(a),
            r is Err <==> !has_sequential_variant(method),
            r matches Err(e) ==> e == (ArgError::NoSequentialVariant { method }),
    {
        let defaults = match Self::defaults_for(method) {
            Some(a) => a,
            None => return Err(ArgError::NoSequentialVariant { method }),
        };
        Ok(
            match defaults {
                SequentialArgs::RawPerm { .. } => SequentialArgs::RawPerm { n_perm },
                SequentialArgs::SplitNb { .. } => SequentialArgs::SplitNb { n_splits },
                SequentialArgs::SplitPerm { .. } => SequentialArgs::SplitPerm { n_perm, n_splits },
                SequentialArgs::E => SequentialArgs::E,
            },
        )
    }
}

/// A step's confirmatory arguments map back to the same sequential
/// arguments: `with_counts` and `to_confirmatory_args` lose nothing.
pub proof fn lemma_step_args_round_trip(a: SequentialArgs)
    ensures
        SequentialArgs::with_counts_of(
            a.method_of(),
            match a {
                SequentialArgs::RawPerm { n_perm } => n_perm,
                SequentialArgs::SplitPerm { n_perm, .. } => n_perm,
                _ => 1000usize,
            },
            match a {
                SequentialArgs::SplitNb { n_splits } => n_splits,
                SequentialArgs::SplitPerm { n_splits, .. } => n_splits,
                _ => 50usize,
            },
        ) == Some(a),
        a.confirmatory_of().method_of() == a.method_of(),
        has_sequential_variant(a.method_of()),
{
}

/// Each step runs the same method with the caller's counts: the
/// confirmatory arguments of a step ask for exactly the permutations and
/// splits the sequential arguments ask for, and the raw permutation test
/// cross-validates with 5 folds.
pub proof fn lemma_step_keeps_counts(a: SequentialArgs)
    ensures
        a.confirmatory_of().method_of() == a.method_of(),
        a.confirmatory_of().perm_count() == a.perm_count(),
        a.confirmatory_of().split_count() == a.split_count(),
        a.confirmatory_of().fold_count() == (if a.method_of() == ConfirmatoryMethod::RawPerm {
            Some(5usize)
        } else {
            None
        }),
{
}

/// The component-range check of a sequential run: `1 ≤ k_max ≤ n_features`.
pub fn check_sequence_k(k_max: usize, n_features: usize) -> (r: Result<(), ArgError>)
    ensures
        r == (if k_max == 0 || k_max > n_features {
            Err(ArgError::KExceedsMax { k: k_max, k_max: n_features })
        } else {
            Ok(())
        }),
{
    if k_max == 0 || k_max > n_features {
        return Err(ArgError::KExceedsMax { k: k_max, k_max: n_features });
    }
    Ok(())
}


/// How the test at one component came out against the level `alpha`:
/// rejected (`p < alpha`), not rejected (`p >= alpha`), or indeterminate
/// (a p-value that compares neither way, such as NaN).
#[derive(Debug, Clone, Copy, PartialEq, Eq, Structural)]
pub enum StepOutcome {
    /// `p < alpha`.
    Rejected,
    /// `p >= alpha`.
    NotRejected,
    /// Neither comparison holds.
    Indeterminate,
}

/// The last (1-based) component whose test rejected, among the outcomes
/// of components `1..=outcomes.len()`.
pub open spec fn last_rejected(outcomes: Seq<StepOutcome>) -> Option<nat>
    decreases outcomes.len(),
{
    if outcomes.len() == 0 {
        None
    } else if outcomes.last() == StepOutcome::Rejected {
        Some(outcomes.len())
    } else {
        last_rejected(outcomes.drop_last())
    }
}

/// Whether a run that has seen `outcomes` is over: with early stopping, a
/// run ends at its first non-rejection.
pub open spec fn run_stopped(outcomes: Seq<StepOutcome>, stop_early: bool) -> bool {
    stop_early && outcomes.len() > 0 && outcomes.last() == StepOutcome::NotRejected
}

/// A per-component test sequence over components `1..=k_max`: component
/// `h` is tested on the residual of the first `h - 1`, in order, and with
/// early stopping the sequence ends at the first non-rejection (the closed
/// testing order that controls the family-wise error rate). The result is
/// the last component that rejected.
pub struct SequenceRun {
    k_max: usize,
    stop_early: bool,
    tested: usize,
    last_significant: Option<usize>,
    stopped: bool,
    outcomes: Ghost<Seq<StepOutcome>>,
}

impl SequenceRun {
    /// The component range of the run.
    pub closed spec fn k_max_of(self) -> nat {
        self.k_max as nat
    }

    /// Whether the run ends at its first non-rejection.
    pub closed spec fn stops_early(self) -> bool {
        self.stop_early
    }

    /// The outcomes recorded so far; entry `h - 1` is component `h`'s.
    pub closed spec fn outcomes(self) -> Seq<StepOutcome> {
        self.outcomes@
    }

    /// The run's internal bookkeeping agrees with its recorded outcomes.
    pub closed spec fn wf(self) -> bool {
        &&& self.tested == self.outcomes@.len()
        &&& self.tested <= self.k_max
        &&& self.stopped == run_stopped(self.outcomes@, self.stop_early)
        &&& self.stop_early ==> forall|i: int|
            0 <= i < self.outcomes@.len() - 1 ==> #[trigger] self.outcomes@[i]
                != StepOutcome::NotRejected
        &&& match self.last_significant {
            Some(h) => last_rejected(self.outcomes@) == Some(h as nat),
            None => last_rejected(self.outcomes@) is None,
        }
    }

    /// A fresh run over components `1..=k_max`.
    pub fn new(k_max: usize, stop_early: bool) -> (run: Self)
        ensures
            run.wf(),
            run.k_max_of() == k_max,
            run.stops_early() == stop_early,
            run.outcomes() == Seq::<StepOutcome>::empty(),
    {
        SequenceRun {
            k_max,
            stop_early,
            tested: 0,
            last_significant: None,
            stopped: false,
            outcomes: Ghost(Seq::empty()),
        }
    }

    /// The component to test next: the one after the last tested, while
    /// components remain and the run has not stopped.
    pub fn next_k(&self) -> (k: Option<usize>)
        requires
            self.wf(),
        ensures
            k == (if self.outcomes().len() < self.k_max_of() && !run_stopped(
                self.outcomes(),
                self.stops_early(),
            ) {
                Some((self.outcomes().len() + 1) as usize)
            } else {
                None::<usize>
            }),
    {
        if !self.stopped && self.tested < self.k_max {
            Some(self.tested + 1)
        } else {
            None
        }
    }

    /// Record the outcome of the component `next_k` named.
    pub fn record(&mut self, outcome: StepOutcome)
        requires
            old(self).wf(),
            old(self).outcomes().len() < old(self).k_max_of(),
            !run_stopped(old(self).outcomes(), old(self).stops_early()),
        ensures
            final(self).wf(),
            final(self).k_max_of() == old(self).k_max_of(),
            final(self).stops_early() == old(self).stops_early(),
            final(self).outcomes() == old(self).outcomes().push(outcome),
    {
        let ghost before = self.outcomes@;
        self.tested = self.tested + 1;
        if outcome == StepOutcome::Rejected {
            self.last_significant = Some(self.tested);
        }
        if self.stop_early && outcome == StepOutcome::NotRejected {
            self.stopped = true;
        }
        self.outcomes = Ghost(before.push(outcome));
        assert(self.outcomes@.drop_last() =~= before);
    }

    /// The last component whose test rejected (`None` when none did).
    pub fn last_significant_k(&self) -> (h: Option<usize>)
        requires
            self.wf(),
        ensures
            match h {
                Some(k) => last_rejected(self.outcomes()) == Some(k as nat),
                None => last_rejected(self.outcomes()) is None,
            },
    {
        self.last_significant
    }
}

/// The last rejection lies within the components tested, and rejected.
pub proof fn lemma_last_rejected_is_a_rejection(outcomes: Seq<StepOutcome>)
    ensures
        match last_rejected(outcomes) {
            Some(h) => 1 <= h <= outcomes.len() && outcomes[h - 1] == StepOutcome::Rejected
                && forall|j: int| h <= j < outcomes.len() ==> outcomes[j] != StepOutcome::Rejected,
            None => forall|j: int| 0 <= j < outcomes.len() ==> outcomes[j] != StepOutcome::Rejected,
        },
    decreases outcomes.len(),
{
    if outcomes.len() > 0 {
        let prev = outcomes.drop_last();
        lemma_last_rejected_is_a_rejection(prev);
        assert forall|j: int| 0 <= j < prev.len() implies prev[j] == outcomes[j] by {}
    }
}

/// With early stopping, a run never tests past its first non-rejection:
/// a non-rejection can only be the last outcome recorded, and once it is
/// recorded no further component is offered.
pub proof fn lemma_early_stop_is_final(run: SequenceRun)
    requires
        run.wf(),
        run.stops_early(),
    ensures
        forall|i: int|
            0 <= i < run.outcomes().len() - 1 ==> #[trigger] run.outcomes()[i]
                != StepOutcome::NotRejected,
        run.outcomes().len() > 0 && run.outcomes().last() == StepOutcome::NotRejected ==> run_stopped(
            run.outcomes(),
            run.stops_early(),
        ),
{
}

} // verus!
