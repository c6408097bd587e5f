use plskit::rng::{child_rng, child_seeds, draw_os_seed, resolve_seed};

#[test]
fn child_seeds_are_deterministic_for_fixed_parent_seed() {
    let (_, mut rng_a) = resolve_seed(Some(42)).unwrap();
    let (_, mut rng_b) = resolve_seed(Some(42)).unwrap();
    let a = child_seeds(&mut rng_a, 100);
    let b = child_seeds(&mut rng_b, 100);
    assert_eq!(a, b);
}

#[test]
fn resolve_seed_passes_through_caller_value() {
    let (s, _) = resolve_seed(Some(12345)).unwrap();
    assert_eq!(s, 12345);
}

#[test]
fn resolve_seed_none_returns_nonzero_seed() {
    let (s, _) = resolve_seed(None).unwrap();
    // Probability of OS entropy returning exactly 0 is 2^-64; flag if it happens.
    assert_ne!(s, 0);
}

#[test]
fn child_rng_reproducible_from_seed() {
    let mut a = child_rng(7);
    let mut b = child_rng(7);
    let mut va = vec![0u64; 10];
    let mut vb = vec![0u64; 10];
    for i in 0..10 {
        va[i] = a.next_u64();
        vb[i] = b.next_u64();
    }
    assert_eq!(va, vb);
}

#[test]
fn child_seeds_are_the_next_draws_of_the_parent() {
    let (_, mut parent) = resolve_seed(Some(9)).unwrap();
    let (_, mut twin) = resolve_seed(Some(9)).unwrap();
    let seeds = child_seeds(&mut parent, 5);
    for s in &seeds {
        assert_eq!(*s, twin.next_u64());
    }
    assert_eq!(parent.next_u64(), twin.next_u64());
}

#[test]
fn child_seeds_prefix_is_stable() {
    let (_, mut a) = resolve_seed(Some(31)).unwrap();
    let (_, mut b) = resolve_seed(Some(31)).unwrap();
    let short = child_seeds(&mut a, 8);
    let long = child_seeds(&mut b, 64);
    assert_eq!(&long[..8], &short[..]);
}

#[test]
fn seeded_stream_matches_resolved_stream() {
    let (_, mut a) = resolve_seed(Some(77)).unwrap();
    let mut b = child_rng(77);
    assert_eq!(a.next_u64(), b.next_u64());
}

#[test]
fn different_seeds_give_different_streams() {
    let mut a = child_rng(1);
    let mut b = child_rng(2);
    assert_ne!(a.next_u64(), b.next_u64());
}

#[test]
fn os_seeds_differ_between_draws() {
    let a = draw_os_seed().unwrap();
    let b = draw_os_seed().unwrap();
    assert_ne!(a, b);
}
