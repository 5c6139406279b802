//! The well-known identifier of the privileged allocator.

use vstd::prelude::*;

verus! {

/// The length of every account identifier, in bytes.
pub const ID_LEN: usize = 32;

/// The well-known identifier of the privileged allocator: thirty-two zero
/// bytes.
pub open spec fn allocator_id() -> Seq<u8> {
    Seq::new(ID_LEN as nat, |i: int| 0u8)
}

/// The allocator identifier built locally, without consulting the outside
/// environment.
pub fn local_allocator_id() -> (r: Vec<u8>)
    ensures
        r@ == allocator_id(),
{
    let mut v: Vec<u8> = Vec::new();
    let mut i: usize = 0;
    while i < ID_LEN
        invariant
            i <= ID_LEN,
            v@.len() == i,
            forall|k: int| 0 <= k < i ==> v@[k] == 0u8,
        decreases ID_LEN - i,
    {
        v.push(0u8);
        i += 1;
    }
    proof {
        assert(v@ =~= allocator_id());
    }
    v
}

/// Relies on solana_sdk_ids::system_program::id: the system allocator's
/// identifier is the fixed address of thirty-two zero bytes (the base58 text
/// of thirty-two "1" digits).
#[verifier::external_body]
pub(crate) fn well_known_allocator_id() -> (r: Vec<u8>)
    ensures
        r@ == allocator_id(),
{
    solana_sdk_ids::system_program::id().to_bytes().to_vec()
}

} // verus!
