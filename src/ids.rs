use std::collections::HashMap;
use vstd::prelude::*;

verus! {

broadcast use vstd::std_specs::hash::group_hash_axioms;

/// Identifies a registered user.
pub type UserId = u64;

/// Identifies an account.
pub type AccountId = u64;

/// Identifies a payment card.
pub type CardId = u64;

/// Relies on rand::random (rand 0.8): it draws a value from the thread-local
/// generator. Nothing is promised about the value drawn. It panics only when
/// the operating system's generator cannot seed that generator, which no
/// argument can rule out.
pub assume_specification<T>[ rand::random::<T> ]() -> (r: T)
    where
        rand::distributions::Standard: rand::distributions::Distribution<T>,
;

/// The distance from `seed` to `x`, counting upward and wrapping at 2^64.
pub open spec fn wrapping_offset(seed: u64, x: u64) -> int {
    if x >= seed {
        x - seed
    } else {
        x + 0x1_0000_0000_0000_0000 - seed
    }
}

/// `seed + k`, wrapping at 2^64.
pub open spec fn wrapping_step(seed: u64, k: int) -> int {
    if seed + k < 0x1_0000_0000_0000_0000 {
        seed + k
    } else {
        seed + k - 0x1_0000_0000_0000_0000
    }
}

/// Returns a key that `m` does not hold: `seed` itself when it is free,
/// otherwise the first free key found counting upward from `seed`.
pub fn fresh_key<V>(m: &HashMap<u64, V>, seed: u64) -> (r: u64)
    ensures
        !m@.contains_key(r),
        !m@.contains_key(seed) ==> r == seed,
        forall|x: u64| wrapping_offset(seed, x) < wrapping_offset(seed, r) ==> m@.contains_key(x),
{
    let n: usize = m.len();
    let mut k: usize = 0;
    let mut cand: u64 = seed;
    let ghost mut probed: Set<u64> = Set::empty();
    proof {
        assert(m@.dom().finite());
    }
    while m.contains_key(&cand)
        invariant
            n == m@.len(),
            m@.dom().finite(),
            probed.finite(),
            probed.len() == k,
            probed.subset_of(m@.dom()),
            k <= n,
            forall|x: u64| probed.contains(x) <==> wrapping_offset(seed, x) < k,
            cand == wrapping_step(seed, k as int),
        decreases n - k,
    {
        proof {
            assert(wrapping_offset(seed, cand) == k);
            assert(!probed.contains(cand));
            let next = probed.insert(cand);
            assert forall|x: u64| next.contains(x) <==> wrapping_offset(seed, x) < k + 1 by {
                if wrapping_offset(seed, x) == k {
                    assert(x == cand);
                }
            }
            vstd::set_lib::lemma_len_subset(next, m@.dom());
            probed = next;
        }
        k = k + 1;
        cand = cand.wrapping_add(1);
    }
    proof {
        assert forall|x: u64| wrapping_offset(seed, x) < wrapping_offset(seed, cand) implies m@.contains_key(x) by {
            assert(probed.contains(x));
        }
    }
    cand
}

/// Draws a key at random and settles it on one that `m` does not hold.
pub fn random_fresh_key<V>(m: &HashMap<u64, V>) -> (r: u64)
    ensures
        !m@.contains_key(r),
{
    let seed: u64 = rand::random::<u64>();
    fresh_key(m, seed)
}

} // verus!
