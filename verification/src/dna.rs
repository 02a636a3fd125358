use vstd::prelude::*;
use crate::types::{AccountId, BlockNumber, Gender, Hash256};
use crate::hashing::{blake2_256, seed_encoding, account_seed_encoding};

verus! {

broadcast use vstd::array::group_array_axioms;

/// The gender that a DNA (or a random value) stands for: male when its first
/// byte is even, female when it is odd.
pub open spec fn gender_of(dna: Hash256) -> Gender {
    if dna[0] % 2 == 0 {
        Gender::Male
    } else {
        Gender::Female
    }
}

/// The DNA drawn from a random value, a block number and a nonce: the hash
/// of the three.
pub open spec fn dna_from_seed(random: Hash256, block_number: BlockNumber, nonce: u64) -> Hash256 {
    blake2_256(seed_encoding(random, block_number, nonce))
}

/// The DNA drawn from a random seed, an account and a nonce: the hash of
/// the three.
pub open spec fn dna_from_account_seed(
    sender: AccountId,
    seed: Hash256,
    seed_block: BlockNumber,
    nonce: BlockNumber,
) -> Hash256 {
    blake2_256(account_seed_encoding(seed, seed_block, sender, nonce))
}

/// One byte of a bred DNA: the bits of `a` where the selector `r` has a
/// one, the bits of `b` where it has a zero.
pub open spec fn mixed_byte(r: u8, a: u8, b: u8) -> u8 {
    (r & a) | (!r & b)
}

/// `c` is the DNA bred from parents `a` and `b` under the selector `r`.
pub open spec fn is_mix(r: Hash256, a: Hash256, b: Hash256, c: Hash256) -> bool {
    forall|i: int| 0 <= i < 32 ==> #[trigger] c[i] == mixed_byte(r[i], a[i], b[i])
}

/// The DNA bred from parents `a` and `b` under the selector `r`.
pub open spec fn mixed_dna(r: Hash256, a: Hash256, b: Hash256) -> Hash256 {
    choose|c: Hash256| is_mix(r, a, b, c)
}

/// At most one DNA is bred from given parents and selector.
pub proof fn lemma_mix_unique(r: Hash256, a: Hash256, b: Hash256, c: Hash256, d: Hash256)
    requires
        is_mix(r, a, b, c),
        is_mix(r, a, b, d),
    ensures
        c == d,
{
    assert forall|i: int| 0 <= i < 32 implies c[i] == d[i] by {
        assert(c[i] == mixed_byte(r[i], a[i], b[i]));
        assert(d[i] == mixed_byte(r[i], a[i], b[i]));
    }
    assert(c =~= d);
}

/// The DNA bred from `dna1` and `dna2`, taking each bit from `dna1` where
/// `base` has a one and from `dna2` where it has a zero.
pub fn mix_dna(base: &Hash256, dna1: &Hash256, dna2: &Hash256) -> (c: Hash256)
    ensures
        c == mixed_dna(*base, *dna1, *dna2),
        is_mix(*base, *dna1, *dna2, c),
{
    let mut c: Hash256 = *base;
    let mut i: usize = 0;
    while i < 32
        invariant
            i <= 32,
            forall|j: int| 0 <= j < i ==> #[trigger] c[j] == mixed_byte(base[j], dna1[j], dna2[j]),
            forall|j: int| i <= j < 32 ==> #[trigger] c[j] == base[j],
        decreases 32 - i,
    {
        let x: u8 = c[i];
        c[i] = (x & dna1[i]) | (!x & dna2[i]);
        i = i + 1;
    }
    proof {
        let m = mixed_dna(*base, *dna1, *dna2);
        assert(is_mix(*base, *dna1, *dna2, c));
        lemma_mix_unique(*base, *dna1, *dna2, m, c);
    }
    c
}

} // verus!
