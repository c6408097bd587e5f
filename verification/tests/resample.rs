use plskit::resample::{
    draw_permutations, draw_splits, one_split, permute_indices, shuffled_folds, split_sizes,
};
use plskit::rng::resolve_seed;

#[test]
#[allow(clippy::similar_names)]
fn split_sizes_clamps_to_n_minus_three() {
    // n=10 → want=5, but k+2=2 doesn't bump and 5 ≤ n-3=7 so n_tr=5
    let (n_tr, n_te) = split_sizes(10, 1);
    assert_eq!(n_tr, 5);
    assert_eq!(n_te, 5);
}

#[test]
#[allow(clippy::similar_names)]
fn split_sizes_bumps_for_small_train() {
    // n=10, k=5: want=5, max(5, 5+2=7)=7
    let (n_tr, n_te) = split_sizes(10, 5);
    assert_eq!(n_tr, 7);
    assert_eq!(n_te, 3);
}

#[test]
fn split_sizes_caps_at_n_minus_three() {
    // n=10, k=8: want=5, raised to 10, capped at 7.
    assert_eq!(split_sizes(10, 8), (7, 3));
    // Fewer than three rows: the cap saturates at zero.
    assert_eq!(split_sizes(2, 0), (0, 2));
}

#[test]
fn one_split_partitions_indices() {
    let (_, mut rng) = resolve_seed(Some(11)).unwrap();
    let (tr, te) = one_split(10, 7, &mut rng);
    assert_eq!(tr.len(), 7);
    assert_eq!(te.len(), 3);
    let mut all: Vec<usize> = tr.iter().chain(te.iter()).copied().collect();
    all.sort_unstable();
    assert_eq!(all, (0..10).collect::<Vec<_>>());
}

#[test]
fn permute_indices_returns_permutation() {
    let (_, mut rng) = resolve_seed(Some(3)).unwrap();
    let p = permute_indices(20, &mut rng);
    let mut sorted = p.clone();
    sorted.sort_unstable();
    assert_eq!(sorted, (0..20).collect::<Vec<_>>());
}

#[test]
fn permute_indices_same_seed_same_permutation() {
    let (_, mut a) = resolve_seed(Some(5)).unwrap();
    let (_, mut b) = resolve_seed(Some(5)).unwrap();
    assert_eq!(permute_indices(50, &mut a), permute_indices(50, &mut b));
    // The streams stay in step afterwards.
    assert_eq!(a.next_u64(), b.next_u64());
}

#[test]
fn permute_indices_actually_shuffles() {
    let (_, mut rng) = resolve_seed(Some(5)).unwrap();
    let p = permute_indices(50, &mut rng);
    assert_ne!(p, (0..50).collect::<Vec<_>>());
}

#[test]
fn draw_splits_are_fixed_partitions() {
    let (_, mut rng) = resolve_seed(Some(17)).unwrap();
    let splits = draw_splits(12, 7, 5, &mut rng);
    assert_eq!(splits.len(), 5);
    for (tr, te) in &splits {
        assert_eq!(tr.len(), 7);
        assert_eq!(te.len(), 5);
        let mut all: Vec<usize> = tr.iter().chain(te.iter()).copied().collect();
        all.sort_unstable();
        assert_eq!(all, (0..12).collect::<Vec<_>>());
    }
    // Drawing the splits one by one gives the same splits.
    let (_, mut again) = resolve_seed(Some(17)).unwrap();
    for (tr, te) in &splits {
        let (tr2, te2) = one_split(12, 7, &mut again);
        assert_eq!(tr, &tr2);
        assert_eq!(te, &te2);
    }
}

#[test]
fn draw_permutations_are_permutations() {
    let (_, mut rng) = resolve_seed(Some(23)).unwrap();
    let perms = draw_permutations(9, 4, &mut rng);
    assert_eq!(perms.len(), 4);
    for p in &perms {
        let mut s = p.clone();
        s.sort_unstable();
        assert_eq!(s, (0..9).collect::<Vec<_>>());
    }
}

#[test]
fn shuffled_folds_cover_every_row_once() {
    let (_, mut rng) = resolve_seed(Some(29)).unwrap();
    let folds = shuffled_folds(11, 3, &mut rng);
    assert_eq!(folds.iter().map(Vec::len).collect::<Vec<_>>(), vec![4, 4, 3]);
    let mut all: Vec<usize> = folds.concat();
    all.sort_unstable();
    assert_eq!(all, (0..11).collect::<Vec<_>>());
}

#[test]
fn bootstrap_indices_stay_in_range_and_repeat_for_a_seed() {
    let mut a = plskit::rng::child_rng(plskit::rotation_stability::bootstrap_stream_seed(5));
    let mut b = plskit::rng::child_rng(plskit::rotation_stability::bootstrap_stream_seed(5));
    let ia = plskit::resample::draw_bootstrap_indices(40, &mut a);
    let ib = plskit::resample::draw_bootstrap_indices(40, &mut b);
    assert_eq!(ia.len(), 40);
    assert!(ia.iter().all(|&i| i < 40));
    assert_eq!(ia, ib);
    // With replacement: 40 draws from 40 values almost surely repeat one.
    let mut s = ia.clone();
    s.sort_unstable();
    s.dedup();
    assert!(s.len() < 40);
    // The stream moved on: the next resample differs.
    let ic = plskit::resample::draw_bootstrap_indices(40, &mut a);
    assert_ne!(ia, ic);
}
