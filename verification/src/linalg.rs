//! Index partitioning shared by the cross-validation engines.

use vstd::prelude::*;

verus! {

/// Number of items in fold `i` when `n_total` items are split into
/// `n_folds` folds: `n_total / n_folds`, plus one for each of the first
/// `n_total % n_folds` folds.
pub open spec fn fold_len(n_total: nat, n_folds: nat, i: nat) -> nat
    recommends
        n_folds > 0,
{
    n_total / n_folds + if i < n_total % n_folds {
        1nat
    } else {
        0nat
    }
}

/// Position in the input where fold `i` starts: the sizes of folds
/// `0..i` added up.
pub open spec fn fold_start(n_total: nat, n_folds: nat, i: nat) -> nat
    recommends
        n_folds > 0,
{
    i * (n_total / n_folds) + if i < n_total % n_folds {
        i
    } else {
        n_total % n_folds
    }
}

pub(crate) proof fn lemma_fold_start_step(n_total: nat, n_folds: nat, i: nat)
    requires
        n_folds > 0,
    ensures
        fold_start(n_total, n_folds, i + 1) == fold_start(n_total, n_folds, i) + fold_len(
            n_total,
            n_folds,
            i,
        ),
{
    let base = n_total / n_folds;
    assert((i + 1) * base == i * base + base) by (nonlinear_arith);
}

pub(crate) proof fn lemma_fold_start_bounds(n_total: nat, n_folds: nat, i: nat)
    requires
        n_folds > 0,
        i <= n_folds,
    ensures
        fold_start(n_total, n_folds, i) <= n_total,
        i == n_folds ==> fold_start(n_total, n_folds, i) == n_total,
{
    let base = n_total / n_folds;
    let extra = n_total % n_folds;
    vstd::arithmetic::div_mod::lemma_fundamental_div_mod(n_total as int, n_folds as int);
    vstd::arithmetic::div_mod::lemma_mod_bound(n_total as int, n_folds as int);
    assert(i * base <= n_folds * base) by (nonlinear_arith)
        requires
            i <= n_folds,
    ;
    assert(n_folds * base == base * n_folds) by (nonlinear_arith);
}

/// Folds are almost equal: an earlier fold is never smaller than a later
/// one, and never more than one item larger.
pub proof fn lemma_fold_sizes_balanced(n_total: nat, n_folds: nat, i: nat, j: nat)
    requires
        n_folds > 0,
        i <= j,
    ensures
        fold_len(n_total, n_folds, j) <= fold_len(n_total, n_folds, i),
        fold_len(n_total, n_folds, i) <= fold_len(n_total, n_folds, j) + 1,
{
}

/// The items `lo..hi` of `s`, copied into a new vector.
pub(crate) fn copy_range(s: &[usize], lo: usize, hi: usize) -> (v: Vec<usize>)
    requires
        lo <= hi <= s@.len(),
    ensures
        v@ == s@.subrange(lo as int, hi as int),
{
    let mut v: Vec<usize> = Vec::with_capacity(hi - lo);
    let mut j = lo;
    while j < hi
        invariant
            lo <= j <= hi <= s@.len(),
            v@ == s@.subrange(lo as int, j as int),
        decreases hi - j,
    {
        v.push(s[j]);
        j = j + 1;
        assert(v@ =~= s@.subrange(lo as int, j as int));
    }
    v
}

/// Split shuffled indices into `n_folds` (almost-equal) groups, in order:
/// the first `len % n_folds` groups have one extra element (the layout of
/// numpy's `array_split`).
pub fn fold_split(shuffled: &[usize], n_folds: usize) -> (out: Vec<Vec<usize>>)
    requires
        n_folds > 0,
    ensures
        out.len() == n_folds,
        forall|i: int|
            0 <= i < n_folds ==> #[trigger] out[i]@ == shuffled@.subrange(
                fold_start(shuffled@.len(), n_folds as nat, i as nat) as int,
                (fold_start(shuffled@.len(), n_folds as nat, i as nat) + fold_len(
                    shuffled@.len(),
                    n_folds as nat,
                    i as nat,
                )) as int,
            ),
        out@.map_values(|v: Vec<usize>| v@).flatten() == shuffled@,
{
    let n_total = shuffled.len();
    let base = n_total / n_folds;
    let extra = n_total % n_folds;
    let mut out: Vec<Vec<usize>> = Vec::with_capacity(n_folds);
    let mut cursor: usize = 0;
    let ghost n = n_total as nat;
    let ghost k = n_folds as nat;
    for i in 0..n_folds
        invariant
            n == shuffled@.len(),
            n == n_total,
            k == n_folds,
            k > 0,
            base == n / k,
            extra == n % k,
            out.len() == i,
            cursor == fold_start(n, k, i as nat),
            cursor <= n,
            forall|j: int|
                0 <= j < i ==> #[trigger] out[j]@ == shuffled@.subrange(
                    fold_start(n, k, j as nat) as int,
                    (fold_start(n, k, j as nat) + fold_len(n, k, j as nat)) as int,
                ),
            out@.map_values(|v: Vec<usize>| v@).flatten() == shuffled@.subrange(0, cursor as int),
    {
        proof {
            lemma_fold_start_step(n, k, i as nat);
            lemma_fold_start_bounds(n, k, (i + 1) as nat);
            assert(cursor + fold_len(n, k, i as nat) <= n);
        }
        let len: usize = if i < extra {
            base + 1
        } else {
            base
        };
        assert(len == fold_len(n, k, i as nat));
        let fold = copy_range(shuffled, cursor, cursor + len);
        let ghost before = out@.map_values(|v: Vec<usize>| v@);
        out.push(fold);
        proof {
            let after = out@.map_values(|v: Vec<usize>| v@);
            assert(after =~= before.push(fold@));
            before.lemma_flatten_push(fold@);
            assert(shuffled@.subrange(0, (cursor + len) as int) =~= shuffled@.subrange(
                0,
                cursor as int,
            ) + fold@);
        }
        cursor = cursor + len;
    }
    proof {
        lemma_fold_start_bounds(n, k, k);
        assert(shuffled@.subrange(0, cursor as int) =~= shuffled@);
    }
    out
}

/// The views of a list of folds.
pub open spec fn fold_views(folds: Seq<Vec<usize>>) -> Seq<Seq<usize>> {
    folds.map_values(|v: Vec<usize>| v@)
}

/// The training rows of cross-validation fold `fi`: every other fold,
/// concatenated in order.
pub open spec fn complement_of(folds: Seq<Seq<usize>>, fi: int) -> Seq<usize> {
    folds.subrange(0, fi).flatten() + folds.subrange(fi + 1, folds.len() as int).flatten()
}

/// Appends all of `src` to `out`.
fn append_all(out: &mut Vec<usize>, src: &Vec<usize>)
    ensures
        final(out)@ == old(out)@ + src@,
{
    let ghost start = out@;
    let mut j: usize = 0;
    while j < src.len()
        invariant
            j <= src@.len(),
            out@ == start + src@.subrange(0, j as int),
        decreases src@.len() - j,
    {
        out.push(src[j]);
        j = j + 1;
        assert(out@ =~= start + src@.subrange(0, j as int));
    }
    assert(src@.subrange(0, j as int) =~= src@);
}

/// Appends the folds `lo..hi` to `out`, in order.
fn append_folds(out: &mut Vec<usize>, folds: &Vec<Vec<usize>>, lo: usize, hi: usize)
    requires
        lo <= hi <= folds@.len(),
    ensures
        final(out)@ == old(out)@ + fold_views(folds@).subrange(lo as int, hi as int).flatten(),
{
    let ghost start = out@;
    let ghost views = fold_views(folds@);
    let mut j = lo;
    while j < hi
        invariant
            lo <= j <= hi <= folds@.len(),
            views == fold_views(folds@),
            out@ == start + views.subrange(lo as int, j as int).flatten(),
        decreases hi - j,
    {
        append_all(out, &folds[j]);
        proof {
            let before = views.subrange(lo as int, j as int);
            assert(views.subrange(lo as int, j + 1) =~= before.push(views[j as int]));
            before.lemma_flatten_push(views[j as int]);
        }
        j = j + 1;
    }
}

/// The training rows of cross-validation fold `fi`: every other fold,
/// concatenated in fold order.
pub fn fold_complement(folds: &Vec<Vec<usize>>, fi: usize) -> (train: Vec<usize>)
    requires
        fi < folds@.len(),
    ensures
        train@ == complement_of(fold_views(folds@), fi as int),
{
    let n_folds = folds.len();
    let mut train: Vec<usize> = Vec::new();
    append_folds(&mut train, folds, 0, fi);
    append_folds(&mut train, folds, fi + 1, n_folds);
    train
}

/// Training rows and validation rows of a fold together are exactly the
/// rows of all folds: every row is in one of the two, as often as it is in
/// the folds.
pub proof fn lemma_fold_complement_partition(folds: Seq<Seq<usize>>, fi: int)
    requires
        0 <= fi < folds.len(),
    ensures
        (complement_of(folds, fi) + folds[fi]).to_multiset() == folds.flatten().to_multiset(),
{
    let pre = folds.subrange(0, fi);
    let post = folds.subrange(fi + 1, folds.len() as int);
    assert(folds =~= pre + (seq![folds[fi]] + post));
    vstd::seq_lib::lemma_flatten_concat(pre, seq![folds[fi]] + post);
    vstd::seq_lib::lemma_flatten_concat(seq![folds[fi]], post);
    seq![folds[fi]].lemma_flatten_one_element();
    let a = pre.flatten();
    let b = folds[fi];
    let c = post.flatten();
    assert(folds.flatten() == a + (b + c));
    vstd::seq_lib::lemma_multiset_commutative(a, b + c);
    vstd::seq_lib::lemma_multiset_commutative(b, c);
    vstd::seq_lib::lemma_multiset_commutative(a + c, b);
    vstd::seq_lib::lemma_multiset_commutative(a, c);
    assert(complement_of(folds, fi) == a + c);
    assert((a + c).to_multiset().add(b.to_multiset()) =~= a.to_multiset().add(
        b.to_multiset().add(c.to_multiset()),
    ));
}

} // verus!
