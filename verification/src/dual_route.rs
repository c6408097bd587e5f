//! Route choice for the resampling loops that refit on one fixed training
//! subset many times with only the outcome changing: either refit in the
//! primal (feature) space, or precompute the `n_tr × n_tr` Gram matrix once
//! and run every replicate through it (the dual route).
//!
//! One fold or split costs `B·n_tr·p·q` flops primally and
//! `n_tr²·p + B·n_tr²·q` dually (`B` replicates, `p` features, `q` outcome
//! columns), so the dual route pays exactly when
//! `n_tr·(B·q + p) < p·B·q`, i.e. when `n_tr` is below the harmonic
//! combination of `p` and `B·q`. The comparison is made in exact integer
//! arithmetic.

use vstd::prelude::*;

verus! {

/// Hard cap on the training-set size the dual route accepts: the Gram
/// matrix is `n_tr²` doubles per worker, and this bounds it whatever the
/// flop rule says.
pub const DUAL_ROUTE_MAX_N_TR: usize = 4000;

/// `a · b`, saturating at `usize::MAX`.
pub open spec fn saturating_product(a: nat, b: nat) -> nat {
    if a * b > usize::MAX {
        usize::MAX as nat
    } else {
        a * b
    }
}

/// The flop rule: one fold with `bq = B·q` outcome columns is cheaper on
/// the dual route.
pub open spec fn dual_flops_win(n_tr: nat, p: nat, bq: nat) -> bool {
    n_tr * (bq + p) < p * bq
}

/// When the dual route is taken: every size positive, `n_tr` within the
/// memory cap, and the flop rule met with `B·q` saturated at `usize::MAX`.
pub open spec fn dual_route_rule(n_tr: nat, p: nat, n_replicates: nat, q: nat) -> bool {
    &&& n_tr > 0
    &&& p > 0
    &&& n_replicates > 0
    &&& q > 0
    &&& n_tr <= DUAL_ROUTE_MAX_N_TR
    &&& dual_flops_win(n_tr, p, saturating_product(n_replicates, q))
}

/// Should this loop take the dual route? `n_tr` is the training-subset
/// size, `p` the feature count, `n_replicates` the number of outcome
/// columns sharing one precompute (the observed column plus the nulls),
/// and `q` the outcome column count (`1` for PLS1).
pub fn use_dual_route(n_tr: usize, p: usize, n_replicates: usize, q: usize) -> (r: bool)
    ensures
        r == dual_route_rule(n_tr as nat, p as nat, n_replicates as nat, q as nat),
{
    if n_tr == 0 || p == 0 || n_replicates == 0 || q == 0 {
        return false;
    }
    if n_tr > DUAL_ROUTE_MAX_N_TR {
        return false;
    }
    let bq: usize = match n_replicates.checked_mul(q) {
        Some(v) => v,
        None => usize::MAX,
    };
    let n_w = n_tr as u128;
    let p_w = p as u128;
    let bq_w = bq as u128;
    assert(n_w * (bq_w + p_w) <= 4000 * (2 * 0xffff_ffff_ffff_ffffu128)) by (nonlinear_arith)
        requires
            n_w <= 4000,
            bq_w <= 0xffff_ffff_ffff_ffffu128,
            p_w <= 0xffff_ffff_ffff_ffffu128,
    ;
    assert(p_w * bq_w <= 0xffff_ffff_ffff_ffffu128 * 0xffff_ffff_ffff_ffffu128) by (nonlinear_arith)
        requires
            bq_w <= 0xffff_ffff_ffff_ffffu128,
            p_w <= 0xffff_ffff_ffff_ffffu128,
    ;
    n_w * (bq_w + p_w) < p_w * bq_w
}

/// Both halves of the rule have to hold: the dual route is never taken
/// when the Gram matrix would be at least as large as the data
/// (`n_tr ≥ p`) or when there are too few outcome columns to amortize the
/// precompute (`n_tr ≥ B·q`).
pub proof fn lemma_dual_route_needs_both_halves(n_tr: nat, p: nat, n_replicates: nat, q: nat)
    requires
        dual_route_rule(n_tr, p, n_replicates, q),
    ensures
        n_tr < p,
        n_tr < saturating_product(n_replicates, q),
{
    let bq = saturating_product(n_replicates, q);
    assert(n_tr * (bq + p) == n_tr * bq + n_tr * p) by (nonlinear_arith);
    if n_tr >= p {
        assert(n_tr * bq >= p * bq) by (nonlinear_arith)
            requires
                n_tr >= p,
        ;
    }
    if n_tr >= bq {
        assert(n_tr * p >= bq * p) by (nonlinear_arith)
            requires
                n_tr >= bq,
        ;
        assert(bq * p == p * bq) by (nonlinear_arith);
    }
}

/// The rule is a threshold on `n_tr`: a route taken at some training size
/// is also taken at every smaller positive one.
pub proof fn lemma_dual_route_monotone_in_n_tr(n_tr: nat, m: nat, p: nat, n_replicates: nat, q: nat)
    requires
        dual_route_rule(n_tr, p, n_replicates, q),
        0 < m <= n_tr,
    ensures
        dual_route_rule(m, p, n_replicates, q),
{
    let bq = saturating_product(n_replicates, q);
    assert(m * (bq + p) <= n_tr * (bq + p)) by (nonlinear_arith)
        requires
            m <= n_tr,
    ;
}

/// The threshold is the harmonic combination of `p` and `B·q`, not their
/// minimum: when the two are equal, the route needs `n_tr` below half of
/// that common value.
pub proof fn lemma_dual_route_harmonic_when_balanced(n_tr: nat, p: nat, n_replicates: nat, q: nat)
    requires
        dual_route_rule(n_tr, p, n_replicates, q),
        saturating_product(n_replicates, q) == p,
    ensures
        2 * n_tr < p,
{
    assert(n_tr * (p + p) == 2 * (n_tr * p)) by (nonlinear_arith);
    if 2 * n_tr >= p {
        assert(2 * n_tr * p >= p * p) by (nonlinear_arith)
            requires
                2 * n_tr >= p,
        ;
        assert(2 * (n_tr * p) == 2 * n_tr * p) by (nonlinear_arith);
    }
}

} // verus!
