//! The membership registry: enrollment, uniqueness, role assignment.

use vstd::prelude::*;
use crate::dao::{claims_monotonic, DaoView, HealthInsuranceDAO};
use crate::errors::DaoError;
use crate::ids::AccountId;

verus! {

/// The role a member holds for access control.  Only `Member` may be taken
/// by self-service joining; `Admin` and `Verifier` are assigned out of band.
#[derive(Clone, Copy, Debug, PartialEq, Eq, Structural)]
pub enum Role {
    Admin,
    Member,
    Verifier,
}

/// One enrolled participant of the pool.  Created only by the join
/// operation and never deleted; the role is immutable after joining.
#[derive(Clone, Copy, Debug)]
pub struct Member {
    /// Unique public-key identifier of the member.
    pub member_address: AccountId,
    /// Epoch timestamp at which the member joined.
    pub joined_timestamp: i64,
    /// Access-control role.
    pub role: Role,
    /// Hash referencing off-chain encrypted profile data.
    pub encrypted_data_hash: [u8; 32],
}

/// Whether some member of the registry has the given address.
pub open spec fn is_registered(members: Seq<Member>, id: AccountId) -> bool {
    exists|k: int| 0 <= k < members.len() && members[k].member_address == id
}

/// Whether the registry holds the given address with the `Member` role.
pub open spec fn is_registered_member(members: Seq<Member>, id: AccountId) -> bool {
    exists|k: int|
        0 <= k < members.len() && members[k].member_address == id && members[k].role == Role::Member
}

/// No two registry entries share an address.
pub open spec fn members_unique(members: Seq<Member>) -> bool {
    forall|i: int, j: int|
        #![trigger members[i].member_address, members[j].member_address]
        0 <= i < j < members.len() ==> members[i].member_address != members[j].member_address
}

/// Linear scan for a registered address.
pub fn find_registered(members: &Vec<Member>, id: &AccountId) -> (r: bool)
    ensures
        r == is_registered(members@, *id),
{
    let mut i: usize = 0;
    while i < members.len()
        invariant
            0 <= i <= members@.len(),
            forall|k: int| 0 <= k < i ==> members@[k].member_address != *id,
        decreases members@.len() - i,
    {
        if crate::ids::id_eq(&members[i].member_address, id) {
            assert(members@[i as int].member_address == *id);
            return true;
        }
        i += 1;
    }
    false
}

/// Linear scan for a registered address holding the `Member` role.
pub fn find_registered_member(members: &Vec<Member>, id: &AccountId) -> (r: bool)
    ensures
        r == is_registered_member(members@, *id),
{
    let mut i: usize = 0;
    while i < members.len()
        invariant
            0 <= i <= members@.len(),
            forall|k: int|
                0 <= k < i ==> !(members@[k].member_address == *id && members@[k].role
                    == Role::Member),
        decreases members@.len() - i,
    {
        if crate::ids::id_eq(&members[i].member_address, id) && members[i].role == Role::Member {
            assert(members@[i as int].member_address == *id && members@[i as int].role
                == Role::Member);
            return true;
        }
        i += 1;
    }
    false
}

/// Whether no two registry entries share an address; matches
/// [`members_unique`].
pub fn all_addresses_distinct(members: &Vec<Member>) -> (r: bool)
    ensures
        r == members_unique(members@),
{
    let mut i: usize = 0;
    while i < members.len()
        invariant
            0 <= i <= members@.len(),
            forall|x: int, y: int|
                #![trigger members@[x].member_address, members@[y].member_address]
                0 <= x < y < i ==> members@[x].member_address != members@[y].member_address,
        decreases members@.len() - i,
    {
        let mut j: usize = 0;
        while j < i
            invariant
                0 <= j <= i < members@.len(),
                forall|x: int, y: int|
                    #![trigger members@[x].member_address, members@[y].member_address]
                    0 <= x < y < i ==> members@[x].member_address != members@[y].member_address,
                forall|k: int| 0 <= k < j ==> members@[k].member_address != members@[i as int].member_address,
            decreases i - j,
        {
            if crate::ids::id_eq(&members[j].member_address, &members[i].member_address) {
                assert(members@[j as int].member_address == members@[i as int].member_address);
                return false;
            }
            j += 1;
        }
        i += 1;
    }
    true
}

/// What joining does to the aggregate: only the `Member` role may be taken
/// by self-service joining; a second join under the same identifier fails;
/// otherwise a new member is appended, stamped with the supplied time.
pub open spec fn join_model(
    pre: DaoView,
    candidate: AccountId,
    role: Role,
    profile_hash: [u8; 32],
    now: i64,
) -> (DaoView, Result<(), DaoError>) {
    if role != Role::Member {
        (pre, Err(DaoError::ValidationError))
    } else if is_registered(pre.members, candidate) {
        (pre, Err(DaoError::DuplicateError))
    } else {
        let m = Member {
            member_address: candidate,
            joined_timestamp: now,
            role: role,
            encrypted_data_hash: profile_hash,
        };
        (DaoView { members: pre.members.push(m), ..pre }, Ok(()))
    }
}

impl HealthInsuranceDAO {
    /// Enrolls a new member.  `now` is the current timestamp, supplied by
    /// the caller's clock oracle.
    pub fn join(
        &mut self,
        candidate: AccountId,
        role: Role,
        profile_hash: [u8; 32],
        now: i64,
    ) -> (r: Result<(), DaoError>)
        requires
            old(self)@.wf(),
        ensures
            final(self)@ == join_model(old(self)@, candidate, role, profile_hash, now).0,
            r == join_model(old(self)@, candidate, role, profile_hash, now).1,
            final(self)@.wf(),
            claims_monotonic(old(self)@, final(self)@),
    {
        if !(role == Role::Member) {
            return Err(DaoError::ValidationError);
        }
        if find_registered(&self.members, &candidate) {
            return Err(DaoError::DuplicateError);
        }
        let m = Member {
            member_address: candidate,
            joined_timestamp: now,
            role,
            encrypted_data_hash: profile_hash,
        };
        self.members.push(m);
        proof {
            let post = join_model(old(self)@, candidate, role, profile_hash, now).0;
            assert(self@ =~= post);
            assert forall|i: int, j: int|
                0 <= i < j < self@.members.len() implies self@.members[i].member_address
                != self@.members[j].member_address by {
                if j < old(self)@.members.len() {
                    assert(old(self)@.members[i].member_address
                        != old(self)@.members[j].member_address);
                } else {
                    assert(old(self)@.members[i].member_address != candidate);
                }
            };
        }
        Ok(())
    }
}

} // verus!
