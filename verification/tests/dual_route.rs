use plskit::dual_route::{use_dual_route, DUAL_ROUTE_MAX_N_TR};

#[test]
fn pls3_fmri_scale_takes_the_dual_route() {
    // n_tr = 50, p = 300_000, q = 10 ⇒ est. ~200× speedup.
    assert!(use_dual_route(50, 300_000, 1000, 10));
}

#[test]
fn pls1_small_n_wide_p_takes_the_dual_route() {
    // n_tr = 80, p = 300_000, q = 1 ⇒ est. ~12× speedup.
    assert!(use_dual_route(80, 300_000, 1000, 1));
}

#[test]
fn pls1_mid_n_narrow_p_stays_primal() {
    // n_tr = 400, p = 200, q = 1 ⇒ est. 0.5× (slower).
    assert!(!use_dual_route(400, 200, 1000, 1));
}

#[test]
fn embedding_scale_stays_primal() {
    assert!(!use_dual_route(10_692, 400, 1000, 1));
}

#[test]
fn memory_cap_overrides_a_favourable_flop_count() {
    let n_tr = DUAL_ROUTE_MAX_N_TR + 1;
    let p = 1_000_000_usize;
    let n_rep = 100_000_usize;
    let flop_rule_says_yes = (n_tr as f64) * ((n_rep + p) as f64) < (p as f64) * (n_rep as f64);
    assert!(
        flop_rule_says_yes,
        "test premise: flop rule must favour dual here"
    );
    assert!(!use_dual_route(n_tr, p, n_rep, 1));
    // One row under the cap, the same input routes dual.
    assert!(use_dual_route(DUAL_ROUTE_MAX_N_TR, p, n_rep, 1));
}

#[test]
fn too_few_replicates_stays_primal() {
    assert!(!use_dual_route(1000, 10_000_000, 2, 1));
}

#[test]
fn gram_bigger_than_the_data_stays_primal() {
    assert!(!use_dual_route(500, 100, 1_000_000, 1));
}

#[test]
fn harmonic_form_is_stricter_than_the_min() {
    let (p, bq) = (1000_usize, 1000_usize);
    let half = p / 2;
    assert!(!use_dual_route(half + 10, p, bq, 1));
    assert!(use_dual_route(half - 10, p, bq, 1));
}

#[test]
fn degenerate_inputs_stay_primal() {
    assert!(!use_dual_route(0, 0, 0, 0));
    assert!(!use_dual_route(10, 0, 100, 1));
    assert!(!use_dual_route(10, 100, 0, 1));
    assert!(!use_dual_route(10, 100, 100, 0));
}

#[test]
fn dual_route_threshold_is_exact_at_the_boundary() {
    // n·(bq + p) < p·bq with p = bq = 1000: n < 500 exactly.
    assert!(use_dual_route(499, 1000, 1000, 1));
    assert!(!use_dual_route(500, 1000, 1000, 1));
}

#[test]
fn dual_route_saturates_the_replicate_product() {
    // B·q overflows usize and saturates: the route is then decided by n_tr < p.
    assert!(use_dual_route(10, 100, usize::MAX, 2));
    assert!(!use_dual_route(100, 100, usize::MAX, 2));
}

#[test]
fn dual_route_monotone_in_training_size_example() {
    assert!(use_dual_route(80, 300_000, 1000, 1));
    for n_tr in 1..80 {
        assert!(use_dual_route(n_tr, 300_000, 1000, 1));
    }
}
