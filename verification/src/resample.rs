//! Index draws for the resampling engines: split-half sizes, random
//! permutations and random train/test splits of `0..n`.

use vstd::prelude::*;

use crate::linalg::{copy_range, fold_len, fold_split, fold_start, fold_views};
use crate::rng::{chacha8_index_below, chacha8_random_index, chacha8_shuffle, chacha8_shuffle_usize, Rng};

verus! {

/// The indices `0..n` in order.
pub open spec fn index_range(n: nat) -> Seq<usize> {
    Seq::new(n, |i: int| i as usize)
}

/// `s` holds each of `0..n` exactly once.
pub open spec fn is_permutation_of_range(s: Seq<usize>, n: nat) -> bool {
    s.to_multiset() == index_range(n).to_multiset()
}

/// Training-half size of a 50/50 split of `n` rows for a `k`-component
/// fit: half the rows, raised to `k + 2`, then capped at `n - 3`
/// (saturating at 0).
pub open spec fn split_train_size(n: nat, k: nat) -> nat {
    let want = n / 2;
    let raised = if want >= k + 2 {
        want
    } else {
        k + 2
    };
    let cap: nat = if n >= 3 {
        (n - 3) as nat
    } else {
        0
    };
    if raised > cap {
        cap
    } else {
        raised
    }
}

/// `(n_train, n_test)` for a 50/50 split-half of `n` rows with `k`
/// components. The split fraction is fixed: the NB calibration assumes
/// balanced halves.
pub fn split_sizes(n: usize, k: usize) -> (sizes: (usize, usize))
    requires
        k + 2 <= usize::MAX,
    ensures
        sizes.0 == split_train_size(n as nat, k as nat),
        sizes.0 + sizes.1 == n,
        n >= 3 ==> sizes.1 >= 3,
        n >= 3 ==> sizes.0 >= n / 2 || sizes.0 == n - 3,
        sizes.0 >= k + 2 || n < k + 5,
        n / 2 >= k + 2 && n >= 5 ==> sizes.0 == n / 2 && sizes.1 == n - n / 2,
{
    let want = n / 2;
    let mut n_train = if want >= k + 2 {
        want
    } else {
        k + 2
    };
    let cap = n.saturating_sub(3);
    if n_train > cap {
        n_train = cap;
    }
    let n_test = n - n_train;
    (n_train, n_test)
}

/// The split is 50/50 whenever neither bound binds: once half the rows
/// reach `k + 2` and `n ≥ 5` (so half the rows leave at least three for
/// testing), the training half is exactly `⌊n/2⌋` rows and the test half
/// the other `⌈n/2⌉`. Otherwise the training half is the nearest size in
/// `k + 2 ..= n - 3`, or `n - 3` when that range is empty.
pub proof fn lemma_split_is_balanced(n: nat, k: nat)
    ensures
        n / 2 >= k + 2 && n >= 5 ==> split_train_size(n, k) == n / 2,
        n / 2 < k + 2 && n >= k + 5 ==> split_train_size(n, k) == k + 2,
        n >= 3 && n < k + 5 ==> split_train_size(n, k) == n - 3,
        n >= 3 ==> split_train_size(n, k) <= n - 3,
{
}

/// The indices `0..n` in order, as a vector.
fn index_vec(n: usize) -> (v: Vec<usize>)
    ensures
        v@ == index_range(n as nat),
{
    let mut v: Vec<usize> = Vec::with_capacity(n);
    for i in 0..n
        invariant
            v@ == index_range(i as nat),
    {
        v.push(i);
        assert(v@ =~= index_range((i + 1) as nat));
    }
    v
}

/// A random permutation of `0..n` drawn from `rng`.
pub fn permute_indices(n: usize, rng: &mut Rng) -> (perm: Vec<usize>)
    ensures
        perm@ == chacha8_shuffle(index_range(n as nat), old(rng)@.0, old(rng)@.1).0,
        final(rng)@ == (
            old(rng)@.0,
            chacha8_shuffle(index_range(n as nat), old(rng)@.0, old(rng)@.1).1,
        ),
        is_permutation_of_range(perm@, n as nat),
{
    let mut perm = index_vec(n);
    chacha8_shuffle_usize(&mut perm, rng);
    perm
}

/// One random `(train, test)` split of `0..n`: the first `n_train` entries
/// of a random permutation, and the rest.
pub fn one_split(n: usize, n_train: usize, rng: &mut Rng) -> (split: (Vec<usize>, Vec<usize>))
    requires
        n_train <= n,
    ensures
        split.0@ + split.1@ == chacha8_shuffle(index_range(n as nat), old(rng)@.0, old(rng)@.1).0,
        final(rng)@ == (
            old(rng)@.0,
            chacha8_shuffle(index_range(n as nat), old(rng)@.0, old(rng)@.1).1,
        ),
        split.0.len() == n_train,
        split.1.len() == n - n_train,
        is_permutation_of_range(split.0@ + split.1@, n as nat),
{
    let perm = permute_indices(n, rng);
    proof {
        assert(perm@.to_multiset().len() == index_range(n as nat).to_multiset().len());
        perm@.to_multiset_ensures();
        index_range(n as nat).to_multiset_ensures();
    }
    let train = copy_range(perm.as_slice(), 0, n_train);
    let test = copy_range(perm.as_slice(), n_train, n);
    assert(train@ + test@ =~= perm@);
    (train, test)
}

/// Cross-validation folds of `0..n`: the indices shuffled once by `rng`,
/// then split in order into `n_folds` almost-equal folds.
pub fn shuffled_folds(n: usize, n_folds: usize, rng: &mut Rng) -> (folds: Vec<Vec<usize>>)
    requires
        n_folds > 0,
    ensures
        folds.len() == n_folds,
        fold_views(folds@).flatten() == chacha8_shuffle(
            index_range(n as nat),
            old(rng)@.0,
            old(rng)@.1,
        ).0,
        final(rng)@ == (
            old(rng)@.0,
            chacha8_shuffle(index_range(n as nat), old(rng)@.0, old(rng)@.1).1,
        ),
        forall|i: int|
            0 <= i < n_folds ==> #[trigger] folds[i]@.len() == fold_len(
                n as nat,
                n_folds as nat,
                i as nat,
            ),
        is_permutation_of_range(fold_views(folds@).flatten(), n as nat),
{
    let perm = permute_indices(n, rng);
    proof {
        perm@.to_multiset_ensures();
        index_range(n as nat).to_multiset_ensures();
    }
    let folds = fold_split(perm.as_slice(), n_folds);
    proof {
        assert forall|i: int| 0 <= i < n_folds implies #[trigger] folds[i]@.len() == fold_len(
            n as nat,
            n_folds as nat,
            i as nat,
        ) by {
            crate::linalg::lemma_fold_start_step(n as nat, n_folds as nat, i as nat);
            crate::linalg::lemma_fold_start_bounds(n as nat, n_folds as nat, (i + 1) as nat);
        }
        assert(fold_views(folds@) =~= folds@.map_values(|v: Vec<usize>| v@));
    }
    folds
}

/// `count` permutations of `0..n` drawn one after another from a stream
/// at `(seed, pos)`, with the stream's position afterwards.
pub open spec fn permutation_chain(n: nat, seed: u64, pos: nat, count: nat) -> (Seq<Seq<usize>>, nat)
    decreases count,
{
    if count == 0 {
        (Seq::empty(), pos)
    } else {
        let (prev, p) = permutation_chain(n, seed, pos, (count - 1) as nat);
        let (perm, p2) = chacha8_shuffle(index_range(n), seed, p);
        (prev.push(perm), p2)
    }
}

proof fn lemma_permutation_chain_len(n: nat, seed: u64, pos: nat, count: nat)
    ensures
        permutation_chain(n, seed, pos, count).0.len() == count,
    decreases count,
{
    if count > 0 {
        lemma_permutation_chain_len(n, seed, pos, (count - 1) as nat);
    }
}

/// `n_perm` random permutations of `0..n`, drawn sequentially from `rng`.
pub fn draw_permutations(n: usize, n_perm: usize, rng: &mut Rng) -> (perms: Vec<Vec<usize>>)
    ensures
        perms@.map_values(|v: Vec<usize>| v@) == permutation_chain(
            n as nat,
            old(rng)@.0,
            old(rng)@.1,
            n_perm as nat,
        ).0,
        final(rng)@ == (
            old(rng)@.0,
            permutation_chain(n as nat, old(rng)@.0, old(rng)@.1, n_perm as nat).1,
        ),
        forall|b: int| 0 <= b < n_perm ==> is_permutation_of_range(#[trigger] perms[b]@, n as nat),
{
    let ghost start = rng@;
    let mut perms: Vec<Vec<usize>> = Vec::with_capacity(n_perm);
    for b in 0..n_perm
        invariant
            rng@.0 == start.0,
            perms.len() == b,
            perms@.map_values(|v: Vec<usize>| v@) == permutation_chain(
                n as nat,
                start.0,
                start.1,
                b as nat,
            ).0,
            rng@.1 == permutation_chain(n as nat, start.0, start.1, b as nat).1,
            forall|c: int| 0 <= c < b ==> is_permutation_of_range(#[trigger] perms[c]@, n as nat),
    {
        let perm = permute_indices(n, rng);
        let ghost before = perms@.map_values(|v: Vec<usize>| v@);
        perms.push(perm);
        assert(perms@.map_values(|v: Vec<usize>| v@) =~= before.push(perm@));
    }
    perms
}

/// The first `n_train` entries of a permutation (the training half) and
/// the rest (the test half).
pub open spec fn split_at_train(perm: Seq<usize>, n_train: nat) -> (Seq<usize>, Seq<usize>) {
    (perm.subrange(0, n_train as int), perm.subrange(n_train as int, perm.len() as int))
}

/// `n_splits` random `(train, test)` splits of `0..n`, drawn sequentially
/// from `rng` and fixed for the rest of the test.
pub fn draw_splits(n: usize, n_train: usize, n_splits: usize, rng: &mut Rng) -> (splits: Vec<
    (Vec<usize>, Vec<usize>),
>)
    requires
        n_train <= n,
    ensures
        splits.len() == n_splits,
        forall|j: int|
            0 <= j < n_splits ==> (#[trigger] splits[j]).0@ == split_at_train(
                permutation_chain(n as nat, old(rng)@.0, old(rng)@.1, n_splits as nat).0[j],
                n_train as nat,
            ).0 && splits[j].1@ == split_at_train(
                permutation_chain(n as nat, old(rng)@.0, old(rng)@.1, n_splits as nat).0[j],
                n_train as nat,
            ).1,
        final(rng)@ == (
            old(rng)@.0,
            permutation_chain(n as nat, old(rng)@.0, old(rng)@.1, n_splits as nat).1,
        ),
        forall|j: int|
            0 <= j < n_splits ==> (#[trigger] splits[j]).0@.len() == n_train && is_permutation_of_range(
                splits[j].0@ + splits[j].1@,
                n as nat,
            ),
{
    let ghost start = rng@;
    let mut splits: Vec<(Vec<usize>, Vec<usize>)> = Vec::with_capacity(n_splits);
    for j in 0..n_splits
        invariant
            n_train <= n,
            rng@.0 == start.0,
            splits.len() == j,
            rng@.1 == permutation_chain(n as nat, start.0, start.1, j as nat).1,
            forall|i: int|
                0 <= i < j ==> (#[trigger] splits[i]).0@ == split_at_train(
                    permutation_chain(n as nat, start.0, start.1, j as nat).0[i],
                    n_train as nat,
                ).0 && splits[i].1@ == split_at_train(
                    permutation_chain(n as nat, start.0, start.1, j as nat).0[i],
                    n_train as nat,
                ).1,
            forall|i: int|
                0 <= i < j ==> (#[trigger] splits[i]).0@.len() == n_train && is_permutation_of_range(
                    splits[i].0@ + splits[i].1@,
                    n as nat,
                ),
    {
        let split = one_split(n, n_train, rng);
        proof {
            let prev = permutation_chain(n as nat, start.0, start.1, j as nat);
            lemma_permutation_chain_len(n as nat, start.0, start.1, j as nat);
            let next = permutation_chain(n as nat, start.0, start.1, (j + 1) as nat);
            assert(next.0 == prev.0.push(chacha8_shuffle(index_range(n as nat), start.0, prev.1).0));
            let perm = next.0[j as int];
            let both = split.0@ + split.1@;
            assert(both == perm);
            assert(split.0@ =~= both.subrange(0, n_train as int));
            assert(split.1@ =~= both.subrange(n_train as int, both.len() as int));
            assert forall|i: int| 0 <= i < j implies next.0[i] == prev.0[i] by {}
        }
        splits.push(split);
    }
    splits
}

/// `count` indices drawn uniformly from `0..bound`, one after another,
/// from a stream at `(seed, pos)`, with the stream's position afterwards.
pub open spec fn index_draw_chain(bound: usize, seed: u64, pos: nat, count: nat) -> (Seq<usize>, nat)
    decreases count,
{
    if count == 0 {
        (Seq::empty(), pos)
    } else {
        let (prev, p) = index_draw_chain(bound, seed, pos, (count - 1) as nat);
        let (i, p2) = chacha8_index_below(bound, seed, p);
        (prev.push(i), p2)
    }
}

/// One bootstrap resample of `b` items: `b` indices drawn uniformly with
/// replacement from `0..b`.
pub fn draw_bootstrap_indices(b: usize, rng: &mut Rng) -> (idx: Vec<usize>)
    requires
        b > 0,
    ensures
        idx@ == index_draw_chain(b, old(rng)@.0, old(rng)@.1, b as nat).0,
        final(rng)@ == (old(rng)@.0, index_draw_chain(b, old(rng)@.0, old(rng)@.1, b as nat).1),
        idx.len() == b,
        forall|i: int| 0 <= i < b ==> #[trigger] idx[i] < b,
{
    let ghost start = rng@;
    let mut idx: Vec<usize> = Vec::with_capacity(b);
    for j in 0..b
        invariant
            b > 0,
            rng@.0 == start.0,
            idx@ == index_draw_chain(b, start.0, start.1, j as nat).0,
            rng@.1 == index_draw_chain(b, start.0, start.1, j as nat).1,
            idx.len() == j,
            forall|i: int| 0 <= i < j ==> #[trigger] idx[i] < b,
    {
        let i = chacha8_random_index(b, rng);
        idx.push(i);
    }
    idx
}

} // verus!
