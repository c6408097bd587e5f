//! Index draws of the subsampling engine.

use vstd::prelude::*;

use crate::linalg::copy_range;
use crate::resample::{index_range, is_permutation_of_range, permute_indices};
use crate::rng::{chacha8_shuffle, Rng};

verus! {

/// Draw a subsample of size `m` without replacement from `0..n`. Returns
/// `(sample, holdout)`, which together hold each of `0..n` exactly once.
pub fn subsample_indices(n: usize, m: usize, rng: &mut Rng) -> (draw: (Vec<usize>, Vec<usize>))
    requires
        m <= n,
    ensures
        draw.0@ + draw.1@ == chacha8_shuffle(index_range(n as nat), old(rng)@.0, old(rng)@.1).0,
        final(rng)@ == (
            old(rng)@.0,
            chacha8_shuffle(index_range(n as nat), old(rng)@.0, old(rng)@.1).1,
        ),
        draw.0.len() == m,
        draw.1.len() == n - m,
        is_permutation_of_range(draw.0@ + draw.1@, n as nat),
{
    let perm = permute_indices(n, rng);
    proof {
        perm@.to_multiset_ensures();
        index_range(n as nat).to_multiset_ensures();
    }
    let sample = copy_range(perm.as_slice(), 0, m);
    let holdout = copy_range(perm.as_slice(), m, n);
    assert(sample@ + holdout@ =~= perm@);
    (sample, holdout)
}


/// How many of `rows` carry the sign code `v` at coordinate `j`.
pub open spec fn sign_count(rows: Seq<Vec<i8>>, j: int, v: i8) -> nat
    decreases rows.len(),
{
    if rows.len() == 0 {
        0
    } else {
        sign_count(rows.drop_last(), j, v) + if rows.last()[j] == v {
            1nat
        } else {
            0nat
        }
    }
}

proof fn lemma_sign_counts_bounded(rows: Seq<Vec<i8>>, j: int)
    ensures
        sign_count(rows, j, 1) + sign_count(rows, j, 0) <= rows.len(),
    decreases rows.len(),
{
    if rows.len() > 0 {
        lemma_sign_counts_bounded(rows.drop_last(), j);
    }
}

/// Per-coordinate tally of the subsample coefficient signs: for each of
/// the `d` coordinates, how many rows carry `+1`, how many `0`, and how
/// many the rest (`-1`).
pub fn sign_tally(rows: &Vec<Vec<i8>>, d: usize) -> (t: (Vec<usize>, Vec<usize>, Vec<usize>))
    requires
        forall|i: int| 0 <= i < rows.len() ==> #[trigger] rows[i].len() == d,
    ensures
        t.0.len() == d,
        t.1.len() == d,
        t.2.len() == d,
        forall|j: int|
            0 <= j < d ==> #[trigger] t.0[j] == sign_count(rows@, j, 1) && t.1[j] == sign_count(
                rows@,
                j,
                0,
            ) && t.2[j] == rows.len() - sign_count(rows@, j, 1) - sign_count(rows@, j, 0),
{
    let mut pos: Vec<usize> = Vec::with_capacity(d);
    let mut zero: Vec<usize> = Vec::with_capacity(d);
    for j in 0..d
        invariant
            pos.len() == j,
            zero.len() == j,
            forall|jj: int| 0 <= jj < j ==> #[trigger] pos[jj] == 0,
            forall|jj: int| 0 <= jj < j ==> #[trigger] zero[jj] == 0,
    {
        pos.push(0);
        zero.push(0);
    }
    let b = rows.len();
    assert(rows@.subrange(0, 0) =~= Seq::<Vec<i8>>::empty());
    for i in 0..b
        invariant
            b == rows.len(),
            forall|r: int| 0 <= r < rows.len() ==> #[trigger] rows[r].len() == d,
            pos.len() == d,
            zero.len() == d,
            forall|jj: int|
                0 <= jj < d ==> #[trigger] pos[jj] == sign_count(rows@.subrange(0, i as int), jj, 1),
            forall|jj: int|
                0 <= jj < d ==> #[trigger] zero[jj] == sign_count(rows@.subrange(0, i as int), jj, 0),
    {
        let ghost prefix = rows@.subrange(0, i as int);
        let ghost next = rows@.subrange(0, i + 1);
        assert(next.drop_last() =~= prefix);
        assert(next.last() == rows[i as int]);
        let row = &rows[i];
        for j in 0..d
            invariant
                b == rows.len(),
                i < b,
                row == rows[i as int],
                row.len() == d,
                pos.len() == d,
                zero.len() == d,
                prefix == rows@.subrange(0, i as int),
                next == rows@.subrange(0, i + 1),
                next.drop_last() == prefix,
                next.last() == rows[i as int],
                forall|jj: int| 0 <= jj < j ==> #[trigger] pos[jj] == sign_count(next, jj, 1),
                forall|jj: int| 0 <= jj < j ==> #[trigger] zero[jj] == sign_count(next, jj, 0),
                forall|jj: int| j <= jj < d ==> #[trigger] pos[jj] == sign_count(prefix, jj, 1),
                forall|jj: int| j <= jj < d ==> #[trigger] zero[jj] == sign_count(prefix, jj, 0),
        {
            proof {
                lemma_sign_counts_bounded(prefix, j as int);
                assert(sign_count(next, j as int, 1) == sign_count(prefix, j as int, 1) + if row[j as int]
                    == 1 {
                    1nat
                } else {
                    0nat
                });
                assert(sign_count(next, j as int, 0) == sign_count(prefix, j as int, 0) + if row[j as int]
                    == 0 {
                    1nat
                } else {
                    0nat
                });
            }
            let v = row[j];
            if v == 1 {
                let c = pos[j];
                pos.set(j, c + 1);
            } else if v == 0 {
                let c = zero[j];
                zero.set(j, c + 1);
            }
        }
    }
    assert(rows@.subrange(0, b as int) =~= rows@);
    let mut neg: Vec<usize> = Vec::with_capacity(d);
    for j in 0..d
        invariant
            b == rows.len(),
            pos.len() == d,
            zero.len() == d,
            neg.len() == j,
            forall|jj: int| 0 <= jj < d ==> #[trigger] pos[jj] == sign_count(rows@, jj, 1),
            forall|jj: int| 0 <= jj < d ==> #[trigger] zero[jj] == sign_count(rows@, jj, 0),
            forall|jj: int| 0 <= jj < j ==> #[trigger] neg[jj] == b - pos[jj] - zero[jj],
    {
        proof {
            lemma_sign_counts_bounded(rows@, j as int);
        }
        neg.push(b - pos[j] - zero[j]);
    }
    (pos, zero, neg)
}

} // verus!
