use directopt::sampling::{permute_by_draws, shuffled_indices};
use rand::rngs::StdRng;
use rand::{Rng, SeedableRng};

fn is_permutation(v: &[usize], n: usize) -> bool {
    let mut seen = vec![false; n];
    v.len() == n && v.iter().all(|&x| x < n && !std::mem::replace(&mut seen[x], true))
}

#[test]
fn draws_drive_exact_swaps() {
    // positions 3, 2, 1 exchanged with 0, 2, 0
    assert_eq!(permute_by_draws(4, &vec![0, 2, 0]), vec![1, 3, 2, 0]);
    assert_eq!(permute_by_draws(0, &vec![]), Vec::<usize>::new());
    assert_eq!(permute_by_draws(1, &vec![]), vec![0]);
    assert_eq!(permute_by_draws(3, &vec![2, 1]), vec![0, 1, 2]);
}

#[test]
fn shuffle_is_a_permutation_and_reproducible() {
    for n in [0usize, 1, 2, 8, 60, 3072] {
        let mut a = StdRng::seed_from_u64(7);
        let mut b = StdRng::seed_from_u64(7);
        let p = shuffled_indices(&mut a, n);
        assert!(is_permutation(&p, n));
        assert_eq!(p, shuffled_indices(&mut b, n));
    }
}

#[test]
fn shuffle_consumes_the_generator_like_inline_fisher_yates() {
    let n = 20;
    let mut a = StdRng::seed_from_u64(0x2026_0830_0001);
    let p = shuffled_indices(&mut a, n);
    let mut b = StdRng::seed_from_u64(0x2026_0830_0001);
    let mut perm: Vec<usize> = (0..n).collect();
    for i in (1..n).rev() {
        let k = b.gen_range(0..=i);
        perm.swap(i, k);
    }
    assert_eq!(p, perm);
    assert_eq!(a.gen::<u64>(), b.gen::<u64>());
}
