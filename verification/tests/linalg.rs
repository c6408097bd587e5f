use plskit::linalg::{fold_complement, fold_split};

#[test]
fn fold_split_matches_numpy_array_split() {
    // n=10, 3 folds → sizes [4, 3, 3] per numpy.array_split semantics
    let idx: Vec<usize> = (0..10).collect();
    let folds = fold_split(&idx, 3);
    assert_eq!(folds.len(), 3);
    assert_eq!(folds[0].len(), 4);
    assert_eq!(folds[1].len(), 3);
    assert_eq!(folds[2].len(), 3);
    // No index lost
    let total: usize = folds.iter().map(Vec::len).sum();
    assert_eq!(total, 10);
}

#[test]
fn fold_split_keeps_input_order() {
    let idx: Vec<usize> = vec![9, 3, 7, 1, 0, 5, 2];
    let folds = fold_split(&idx, 3);
    assert_eq!(folds, vec![vec![9, 3, 7], vec![1, 0], vec![5, 2]]);
    let flat: Vec<usize> = folds.concat();
    assert_eq!(flat, idx);
}

#[test]
fn fold_split_more_folds_than_items() {
    let idx: Vec<usize> = vec![4, 2];
    let folds = fold_split(&idx, 4);
    assert_eq!(folds, vec![vec![4], vec![2], vec![], vec![]]);
}

#[test]
fn fold_split_empty_input() {
    let folds = fold_split(&[], 3);
    assert_eq!(folds, vec![Vec::<usize>::new(), vec![], vec![]]);
}

#[test]
fn fold_complement_is_every_other_fold() {
    let idx: Vec<usize> = (0..10).collect();
    let folds = fold_split(&idx, 3);
    assert_eq!(fold_complement(&folds, 0), vec![4, 5, 6, 7, 8, 9]);
    assert_eq!(fold_complement(&folds, 1), vec![0, 1, 2, 3, 7, 8, 9]);
    assert_eq!(fold_complement(&folds, 2), vec![0, 1, 2, 3, 4, 5, 6]);
    for fi in 0..3 {
        let mut all = fold_complement(&folds, fi);
        all.extend_from_slice(&folds[fi]);
        all.sort_unstable();
        assert_eq!(all, idx);
    }
}
