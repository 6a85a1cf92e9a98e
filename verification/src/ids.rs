//! Public-key account identifiers.
//!
//! Identity is supplied by an external collaborator (an identity system
//! producing unforgeable public keys); the ledger only stores the raw
//! 32-byte value and compares identifiers for equality.

use vstd::prelude::*;

verus! {

broadcast use vstd::array::group_array_axioms;

/// A 32-byte public-key identifier of an account: a member, provider,
/// verifier, voter, or the aggregate's admin.
#[derive(Clone, Copy, Debug, PartialEq, Eq)]
pub struct AccountId {
    pub bytes: [u8; 32],
}

impl AccountId {
    /// Wraps raw key bytes as an identifier.
    pub fn new(bytes: [u8; 32]) -> (r: AccountId)
        ensures
            r.bytes == bytes,
    {
        AccountId { bytes }
    }
}

/// Compares two identifiers byte for byte.
pub fn id_eq(a: &AccountId, b: &AccountId) -> (r: bool)
    ensures
        r == (a == b),
{
    let mut i: usize = 0;
    while i < 32
        invariant
            0 <= i <= 32,
            forall|k: int| 0 <= k < i ==> a.bytes@[k] == b.bytes@[k],
        decreases 32 - i,
    {
        if a.bytes[i] != b.bytes[i] {
            return false;
        }
        i += 1;
    }
    proof {
        assert(a.bytes@ =~= b.bytes@);
        assert(a.bytes == b.bytes);
    }
    true
}

/// Whether a sequence of identifiers contains the given one.
pub open spec fn seq_contains_id(ids: Seq<AccountId>, target: AccountId) -> bool {
    exists|k: int| 0 <= k < ids.len() && ids[k] == target
}

/// Linear membership test over a list of identifiers.
pub fn contains_id(ids: &Vec<AccountId>, target: &AccountId) -> (r: bool)
    ensures
        r == seq_contains_id(ids@, *target),
{
    let mut i: usize = 0;
    while i < ids.len()
        invariant
            0 <= i <= ids@.len(),
            forall|k: int| 0 <= k < i ==> ids@[k] != *target,
        decreases ids@.len() - i,
    {
        if id_eq(&ids[i], target) {
            assert(ids@[i as int] == *target);
            return true;
        }
        i += 1;
    }
    false
}

/// Whether a list of identifiers holds no duplicate; matches
/// [`crate::claims::verifiers_unique`].
pub fn all_ids_distinct(ids: &Vec<AccountId>) -> (r: bool)
    ensures
        r == crate::claims::verifiers_unique(ids@),
{
    let mut i: usize = 0;
    while i < ids.len()
        invariant
            0 <= i <= ids@.len(),
            forall|x: int, y: int|
                #![trigger ids@[x], ids@[y]]
                0 <= x < y < i ==> ids@[x] != ids@[y],
        decreases ids@.len() - i,
    {
        let mut j: usize = 0;
        while j < i
            invariant
                0 <= j <= i < ids@.len(),
                forall|x: int, y: int|
                    #![trigger ids@[x], ids@[y]]
                    0 <= x < y < i ==> ids@[x] != ids@[y],
                forall|k: int| 0 <= k < j ==> ids@[k] != ids@[i as int],
            decreases i - j,
        {
            if id_eq(&ids[j], &ids[i]) {
                assert(ids@[j as int] == ids@[i as int]);
                return false;
            }
            j += 1;
        }
        i += 1;
    }
    true
}

} // verus!
