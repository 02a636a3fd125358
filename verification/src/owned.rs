use vstd::prelude::*;
use sp_runtime::BoundedVec;
use sp_runtime::traits::ConstU32;
use crate::types::Hash256;

verus! {

#[verifier::external_type_specification]
#[verifier::external_body]
#[verifier::reject_recursive_types(T)]
#[verifier::reject_recursive_types(S)]
pub struct ExBoundedVec<T, S>(BoundedVec<T, S>);

#[verifier::external_type_specification]
#[verifier::external_body]
pub struct ExConstU32<const N: u32>(ConstU32<N>);

/// The kitty identifiers that a bounded list holds, in order. The lists
/// take the widest bound a `u32` can give; the registry checks its own
/// configured bound before each push.
pub uninterp spec fn owned_ids(v: BoundedVec<[u8; 32], ConstU32<4294967295>>) -> Seq<[u8; 32]>;

/// `BoundedVec::default`: an empty list.
#[verifier::external_body]
pub(crate) fn owned_empty() -> (r: BoundedVec<[u8; 32], ConstU32<4294967295>>)
    ensures
        owned_ids(r) == Seq::<[u8; 32]>::empty(),
{
    BoundedVec::default()
}

/// `len` of a bounded list (through its `Deref` to `Vec`).
#[verifier::external_body]
pub(crate) fn owned_len(v: &BoundedVec<[u8; 32], ConstU32<4294967295>>) -> (r: usize)
    ensures
        r == owned_ids(*v).len(),
        r <= 4294967295,
{
    v.len()
}

/// Indexing a bounded list; the index is in range.
#[verifier::external_body]
pub(crate) fn owned_at(v: &BoundedVec<[u8; 32], ConstU32<4294967295>>, i: usize) -> (r: [u8; 32])
    requires
        i < owned_ids(*v).len(),
    ensures
        r == owned_ids(*v)[i as int],
{
    v[i]
}

/// `BoundedVec::try_push`: appends when the list holds fewer than its
/// bound (`u32::MAX`) items, else hands the item back and leaves the list as it
/// was.
#[verifier::external_body]
pub(crate) fn owned_try_push(v: &mut BoundedVec<[u8; 32], ConstU32<4294967295>>, id: [u8; 32]) -> (r: Result<(), Hash256>)
    ensures
        r is Ok <==> owned_ids(*old(v)).len() < 4294967295,
        r is Ok ==> owned_ids(*final(v)) == owned_ids(*old(v)).push(id),
        r is Err ==> owned_ids(*final(v)) == owned_ids(*old(v)),
        r matches Err(back) ==> back == id,
{
    v.try_push(id)
}

/// `BoundedVec::swap_remove`: removes the item at `i`, putting the last
/// item in its place; the index is in range.
#[verifier::external_body]
pub(crate) fn owned_swap_remove(v: &mut BoundedVec<[u8; 32], ConstU32<4294967295>>, i: usize) -> (r: [u8; 32])
    requires
        i < owned_ids(*old(v)).len(),
    ensures
        r == owned_ids(*old(v))[i as int],
        owned_ids(*final(v)) == owned_ids(*old(v)).update(i as int, owned_ids(*old(v)).last()).drop_last(),
{
    v.swap_remove(i)
}

} // verus!
