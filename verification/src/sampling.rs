//! Random orderings for Latin hypercube designs: a Fisher–Yates shuffle of
//! the indices `0..n`, driven by a seeded generator.

use vstd::prelude::*;
use rand::rngs::StdRng;
use rand::Rng;

verus! {

/// `rand::rngs::StdRng`, the seeded generator shared with the optimizers.
#[verifier::external_type_specification]
#[verifier::external_body]
pub struct ExStdRng(rand::rngs::StdRng);

/// Calls `rand::Rng::gen_range` with the range `0..=high`. Trusted: the
/// result lies in that range. Which value comes depends on the
/// generator's state; the range is never empty, so the call does not
/// panic.
#[verifier::external_body]
fn draw_index_through(rng: &mut StdRng, high: usize) -> (r: usize)
    ensures
        r <= high,
{
    rng.gen_range(0..=high)
}

/// The indices `0..n` in order.
pub open spec fn identity_order(n: nat) -> Seq<usize> {
    Seq::new(n, |i: int| i as usize)
}

/// `s` with the entries at `i` and `k` exchanged.
pub open spec fn swapped(s: Seq<usize>, i: int, k: int) -> Seq<usize> {
    s.update(i, s[k]).update(k, s[i])
}

/// The number of draws a shuffle of `n` indices takes.
pub open spec fn draw_count(n: nat) -> nat {
    if n == 0 { 0 } else { (n - 1) as nat }
}

/// Whether `draws` can drive a shuffle of `n` indices: draw `t` picks a
/// position at most `n - 1 - t`.
pub open spec fn valid_draws(n: nat, draws: Seq<usize>) -> bool {
    &&& draws.len() == draw_count(n)
    &&& forall|t: int| 0 <= t < draws.len() ==> #[trigger] draws[t] <= n - 1 - t
}

/// The order after the first `t` steps of the shuffle: step `t` exchanges
/// position `n - t` with the position that draw `t - 1` picked.
pub open spec fn shuffle_spec(n: nat, draws: Seq<usize>, t: nat) -> Seq<usize>
    decreases t,
{
    if t == 0 {
        identity_order(n)
    } else {
        swapped(shuffle_spec(n, draws, (t - 1) as nat), n - t, draws[t - 1] as int)
    }
}

/// Whether `s` lists each of `0..n` exactly once.
pub open spec fn is_order_of(s: Seq<usize>, n: nat) -> bool {
    &&& s.len() == n
    &&& forall|i: int| 0 <= i < s.len() ==> #[trigger] s[i] < n
    &&& forall|i: int, j: int| 0 <= i < j < s.len() ==> #[trigger] s[i] != #[trigger] s[j]
}

proof fn lemma_swap_keeps_order(s: Seq<usize>, n: nat, i: int, k: int)
    requires
        is_order_of(s, n),
        0 <= i < n,
        0 <= k < n,
    ensures
        is_order_of(swapped(s, i, k), n),
{
    let r = swapped(s, i, k);
    assert forall|a: int, b: int| 0 <= a < b < r.len() implies #[trigger] r[a] != #[trigger] r[b] by {
        let pa = if a == k { i } else if a == i { k } else { a };
        let pb = if b == k { i } else if b == i { k } else { b };
        assert(r[a] == s[pa]);
        assert(r[b] == s[pb]);
        assert(pa != pb);
        if pa < pb {
            assert(s[pa] != s[pb]);
        } else {
            assert(s[pb] != s[pa]);
        }
    }
}

proof fn lemma_shuffle_prefix_is_order(n: nat, draws: Seq<usize>, t: nat)
    requires
        valid_draws(n, draws),
        t <= draws.len(),
        n <= usize::MAX,
    ensures
        is_order_of(shuffle_spec(n, draws, t), n),
    decreases t,
{
    if t == 0 {
        let s = identity_order(n);
        assert forall|i: int| 0 <= i < s.len() implies #[trigger] s[i] < n by {
            assert(s[i] == i as usize);
        }
        assert forall|i: int, j: int| 0 <= i < j < s.len() implies #[trigger] s[i] != #[trigger] s[j] by {
            assert(s[i] == i as usize);
            assert(s[j] == j as usize);
        }
    } else {
        lemma_shuffle_prefix_is_order(n, draws, (t - 1) as nat);
        assert(draws[t - 1] <= n - 1 - (t - 1));
        lemma_swap_keeps_order(shuffle_spec(n, draws, (t - 1) as nat), n, n - t, draws[t - 1] as int);
    }
}

/// Every run of the shuffle, whatever the draws, lists each index of
/// `0..n` exactly once.
pub proof fn law_shuffle_is_permutation(n: nat, draws: Seq<usize>)
    requires
        valid_draws(n, draws),
        n <= usize::MAX,
    ensures
        is_order_of(shuffle_spec(n, draws, draws.len()), n),
{
    lemma_shuffle_prefix_is_order(n, draws, draws.len());
}

/// Applies the shuffle steps that `draws` pick to the indices `0..n`.
pub fn permute_by_draws(n: usize, draws: &Vec<usize>) -> (r: Vec<usize>)
    requires
        valid_draws(n as nat, draws@),
    ensures
        r@ == shuffle_spec(n as nat, draws@, draws@.len()),
        is_order_of(r@, n as nat),
{
    let mut v: Vec<usize> = Vec::new();
    let mut i: usize = 0;
    while i < n
        invariant
            i <= n,
            v@ == identity_order(i as nat),
        decreases n - i,
    {
        v.push(i);
        i = i + 1;
        assert(v@ =~= identity_order(i as nat));
    }
    let mut t: usize = 0;
    while t < draws.len()
        invariant
            valid_draws(n as nat, draws@),
            t <= draws@.len(),
            v@ == shuffle_spec(n as nat, draws@, t as nat),
            v@.len() == n,
        decreases draws.len() - t,
    {
        let pos = n - 1 - t;
        let k = draws[t];
        let a = v[pos];
        let b = v[k];
        v.set(pos, b);
        v.set(k, a);
        t = t + 1;
        assert(v@ =~= shuffle_spec(n as nat, draws@, t as nat));
    }
    proof {
        law_shuffle_is_permutation(n as nat, draws@);
    }
    v
}

/// A random order of the indices `0..n`: positions `n - 1` down to 1 are
/// each exchanged with a position drawn from the generator at or below
/// it, consuming one draw per position.
pub fn shuffled_indices(rng: &mut StdRng, n: usize) -> (r: Vec<usize>)
    ensures
        is_order_of(r@, n as nat),
{
    let mut draws: Vec<usize> = Vec::new();
    let mut i: usize = if n == 0 { 0 } else { n - 1 };
    while i >= 1
        invariant
            n > 0 ==> i <= n - 1,
            n == 0 ==> i == 0,
            draws@.len() == draw_count(n as nat) - i,
            forall|t: int| 0 <= t < draws@.len() ==> #[trigger] draws@[t] <= n - 1 - t,
        decreases i,
    {
        let k = draw_index_through(rng, i);
        draws.push(k);
        i = i - 1;
    }
    permute_by_draws(n, &draws)
}

} // verus!
