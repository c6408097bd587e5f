use plskit::rng::resolve_seed;
use plskit::subsample::subsample_indices;

#[test]
fn subsample_indices_partitions_range() {
    let (_, mut rng) = resolve_seed(Some(7)).unwrap();
    let (s, h) = subsample_indices(100, 26, &mut rng);
    assert_eq!(s.len(), 26);
    assert_eq!(h.len(), 74);
    let mut all: Vec<usize> = s.iter().chain(h.iter()).copied().collect();
    all.sort_unstable();
    assert_eq!(all, (0..100).collect::<Vec<_>>());
}

#[test]
fn sign_tally_counts_each_sign_per_coordinate() {
    let rows: Vec<Vec<i8>> = vec![vec![1, 0, -1], vec![1, -1, -1], vec![0, 1, -1], vec![1, 1, 0]];
    let (pos, zero, neg) = plskit::subsample::sign_tally(&rows, 3);
    assert_eq!(pos, vec![3, 2, 0]);
    assert_eq!(zero, vec![1, 1, 1]);
    assert_eq!(neg, vec![0, 1, 3]);
}

#[test]
fn sign_tally_of_no_rows_is_all_zero() {
    let rows: Vec<Vec<i8>> = Vec::new();
    let (pos, zero, neg) = plskit::subsample::sign_tally(&rows, 2);
    assert_eq!(pos, vec![0, 0]);
    assert_eq!(zero, vec![0, 0]);
    assert_eq!(neg, vec![0, 0]);
}
