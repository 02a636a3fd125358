use vstd::prelude::*;
use sp_runtime::traits::BlakeTwo256;

verus! {

/// What BLAKE2b with a 256-bit digest gives for a byte string.
pub uninterp spec fn blake2_256(data: Seq<u8>) -> [u8; 32];

/// The `n` low bytes of `x`, least significant first.
pub open spec fn le_bytes(x: nat, n: nat) -> Seq<u8>
    decreases n,
{
    if n == 0 {
        Seq::empty()
    } else {
        seq![(x % 256) as u8] + le_bytes(x / 256, (n - 1) as nat)
    }
}

/// SCALE encoding of an optional balance: a tag byte, then the value in 16
/// little-endian bytes when there is one.
pub open spec fn scale_option_u128(x: Option<u128>) -> Seq<u8> {
    match x {
        Option::None => seq![0u8],
        Option::Some(v) => seq![1u8] + le_bytes(v as nat, 16),
    }
}

/// SCALE encoding of a kitty record: its DNA bytes, its optional price, the
/// index of its gender and its owner, one after the other.
pub open spec fn kitty_encoding(dna: [u8; 32], price: Option<u128>, gender: u8, owner: u64) -> Seq<u8> {
    dna@ + scale_option_u128(price) + seq![gender] + le_bytes(owner as nat, 8)
}

/// SCALE encoding of a random value, a block number and a nonce.
pub open spec fn seed_encoding(random: [u8; 32], block_number: u32, nonce: u64) -> Seq<u8> {
    random@ + le_bytes(block_number as nat, 4) + le_bytes(nonce as nat, 8)
}

/// SCALE encoding of a random seed (value and block number), an account
/// and a nonce.
pub open spec fn account_seed_encoding(
    seed: [u8; 32],
    seed_block: u32,
    account: u64,
    nonce: u32,
) -> Seq<u8> {
    seed@ + le_bytes(seed_block as nat, 4) + le_bytes(account as nat, 8) + le_bytes(nonce as nat, 4)
}

/// Calls `BlakeTwo256::hash_of` (sp_runtime) on the tuple
/// `(dna, price, gender, owner)`. Trusted: `hash_of` hashes the SCALE
/// encoding of its argument with BLAKE2b-256, and a tuple encodes as its
/// fields one after the other, which is `kitty_encoding`.
#[verifier::external_body]
pub(crate) fn hash_of_kitty_fields(dna: &[u8; 32], price: Option<u128>, gender: u8, owner: u64) -> (r: [u8; 32])
    ensures
        r == blake2_256(kitty_encoding(*dna, price, gender, owner)),
{
    <BlakeTwo256 as sp_runtime::traits::Hash>::hash_of(&(*dna, price, gender, owner)).0
}

/// Calls `BlakeTwo256::hash_of` (sp_runtime) on
/// `(random, block_number, nonce)`. Trusted: the result is BLAKE2b-256 of
/// `seed_encoding`.
#[verifier::external_body]
pub(crate) fn hash_of_seed(random: &[u8; 32], block_number: u32, nonce: u64) -> (r: [u8; 32])
    ensures
        r == blake2_256(seed_encoding(*random, block_number, nonce)),
{
    <BlakeTwo256 as sp_runtime::traits::Hash>::hash_of(&(*random, block_number, nonce)).0
}

/// Calls `BlakeTwo256::hash_of` (sp_runtime) on
/// `((seed, seed_block), account, nonce)`. Trusted: the result is
/// BLAKE2b-256 of `account_seed_encoding`.
#[verifier::external_body]
pub(crate) fn hash_of_account_seed(seed: &[u8; 32], seed_block: u32, account: u64, nonce: u32) -> (r: [u8; 32])
    ensures
        r == blake2_256(account_seed_encoding(*seed, seed_block, account, nonce)),
{
    <BlakeTwo256 as sp_runtime::traits::Hash>::hash_of(&((*seed, seed_block), account, nonce)).0
}

} // verus!
