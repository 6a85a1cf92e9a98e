//! The Ledger Aggregate: the single root record holding all state of one
//! pool instance, and its well-formedness invariant.
//!
//! Every operation is a complete read-modify-write over one aggregate:
//! either every check passes and the whole new state stands, or the
//! operation fails with a typed error and the aggregate is unchanged.

use vstd::prelude::*;
use crate::claims::{status_le, Claim, ClaimStatus, ClaimView};
use crate::disputes::{Dispute, DisputeStatus, DisputeView};
use crate::ids::AccountId;
use crate::membership::{members_unique, Member};
use crate::treasury::{profiles_unique, RiskProfile, Treasury, BPS_DENOM};

verus! {

/// Default verification quorum: approvals needed before a claim is `Verified`.
pub const Q_VERIFY_DEFAULT: usize = 2;

/// Default voting quorum: a dispute closes once its vote count exceeds this.
pub const Q_VOTE_DEFAULT: usize = 5;

/// The aggregate of one pool instance.
#[derive(Clone, Debug)]
pub struct HealthInsuranceDAO {
    /// The admin who manages the pool; only this identity may adjust the
    /// reserve ratio.
    pub admin: AccountId,
    /// All enrolled members, addresses unique.
    pub members: Vec<Member>,
    /// All claims ever submitted, in creation order; `claims[i].claim_id == i`.
    pub claims: Vec<Claim>,
    /// All disputes ever raised, in creation order; `disputes[i].dispute_id == i`.
    pub disputes: Vec<Dispute>,
    /// Coverage limits by risk bucket, at most one entry per bucket.
    pub risk_profiles: Vec<RiskProfile>,
    /// The financial component.
    pub treasury: Treasury,
    /// Signer set gating privileged multi-signature operations.
    pub multi_sig_signers: Vec<AccountId>,
    /// Verification quorum of this deployment.
    pub q_verify: usize,
    /// Voting quorum of this deployment.
    pub q_vote: usize,
}

/// The mathematical model of the aggregate.
#[verifier::ext_equal]
pub struct DaoView {
    pub admin: AccountId,
    pub members: Seq<Member>,
    pub claims: Seq<ClaimView>,
    pub disputes: Seq<DisputeView>,
    pub risk_profiles: Seq<RiskProfile>,
    pub treasury: Treasury,
    pub multi_sig_signers: Seq<AccountId>,
    pub q_verify: usize,
    pub q_vote: usize,
}

impl View for HealthInsuranceDAO {
    type V = DaoView;

    open spec fn view(&self) -> DaoView {
        DaoView {
            admin: self.admin,
            members: self.members@,
            claims: self.claims.deep_view(),
            disputes: self.disputes.deep_view(),
            risk_profiles: self.risk_profiles@,
            treasury: self.treasury,
            multi_sig_signers: self.multi_sig_signers@,
            q_verify: self.q_verify,
            q_vote: self.q_vote,
        }
    }
}

impl DaoView {
    /// The aggregate invariant: every operation requires it of the state it
    /// reads and re-establishes it of the state it writes.
    pub open spec fn wf(self) -> bool {
        &&& self.treasury.reserve_ratio_bps <= BPS_DENOM
        &&& self.q_verify >= 1
        &&& members_unique(self.members)
        &&& profiles_unique(self.risk_profiles)
        &&& forall|i: int|
            0 <= i < self.claims.len() ==> (#[trigger] self.claims[i]).wf(i, self.q_verify)
        &&& forall|i: int|
            0 <= i < self.disputes.len() ==> (#[trigger] self.disputes[i]).wf(i, self.q_vote)
    }
}

/// How one aggregate state may evolve into another: no claim is ever
/// dropped, and each claim's status only moves forward along the lattice
/// `Pending -> {Verified -> Paid} | Rejected`.
pub open spec fn claims_monotonic(pre: DaoView, post: DaoView) -> bool {
    &&& post.claims.len() >= pre.claims.len()
    &&& forall|i: int|
        0 <= i < pre.claims.len() ==> status_le(
            (#[trigger] pre.claims[i]).status,
            post.claims[i].status,
        )
}

impl HealthInsuranceDAO {
    /// Creates an empty aggregate under the given admin, with the default
    /// quorums, an empty treasury, and no reserve requirement.
    pub fn new(admin: AccountId) -> (r: Self)
        ensures
            r@.admin == admin,
            r@.members == Seq::<Member>::empty(),
            r@.claims == Seq::<ClaimView>::empty(),
            r@.disputes == Seq::<DisputeView>::empty(),
            r@.risk_profiles == Seq::<RiskProfile>::empty(),
            r@.treasury == (Treasury { balance: 0u64, reserve_ratio_bps: 0u32 }),
            r@.multi_sig_signers == Seq::<AccountId>::empty(),
            r@.q_verify == Q_VERIFY_DEFAULT,
            r@.q_vote == Q_VOTE_DEFAULT,
            r@.wf(),
    {
        let r = HealthInsuranceDAO {
            admin,
            members: Vec::new(),
            claims: Vec::new(),
            disputes: Vec::new(),
            risk_profiles: Vec::new(),
            treasury: Treasury { balance: 0, reserve_ratio_bps: 0 },
            multi_sig_signers: Vec::new(),
            q_verify: Q_VERIFY_DEFAULT,
            q_vote: Q_VOTE_DEFAULT,
        };
        proof {
            assert(r@.claims =~= Seq::<ClaimView>::empty());
            assert(r@.disputes =~= Seq::<DisputeView>::empty());
        }
        r
    }

    /// Checks the aggregate invariant of a value that came from outside the
    /// library — a deserialized stored record, say — so a caller can
    /// establish it before applying operations.
    #[verifier::loop_isolation(false)]
    pub fn check_wf(&self) -> (r: bool)
        ensures
            r == self@.wf(),
    {
        if self.treasury.reserve_ratio_bps > BPS_DENOM {
            return false;
        }
        if self.q_verify < 1 {
            return false;
        }
        if !crate::membership::all_addresses_distinct(&self.members) {
            return false;
        }
        if !crate::treasury::all_buckets_distinct(&self.risk_profiles) {
            return false;
        }
        let mut i: usize = 0;
        while i < self.claims.len()
            invariant
                0 <= i <= self@.claims.len(),
                forall|k: int| 0 <= k < i ==> (#[trigger] self@.claims[k]).wf(k, self@.q_verify),
            decreases self@.claims.len() - i,
        {
            let c = &self.claims[i];
            proof {
                assert(self@.claims[i as int] == self.claims@[i as int]@);
            }
            if c.claim_id != i as u64 {
                proof {
                    assert(!self@.claims[i as int].wf(i as int, self@.q_verify));
                }
                return false;
            }
            if !crate::ids::all_ids_distinct(&c.verifiers) {
                proof {
                    assert(!self@.claims[i as int].wf(i as int, self@.q_verify));
                }
                return false;
            }
            let vlen = c.verifiers.len();
            let count_ok = match c.status {
                ClaimStatus::Pending => vlen < self.q_verify,
                ClaimStatus::Rejected => vlen < self.q_verify,
                ClaimStatus::Verified => vlen >= self.q_verify,
                ClaimStatus::Paid => vlen >= self.q_verify,
            };
            if !count_ok {
                proof {
                    assert(!self@.claims[i as int].wf(i as int, self@.q_verify));
                }
                return false;
            }
            i += 1;
        }
        let mut i: usize = 0;
        while i < self.disputes.len()
            invariant
                0 <= i <= self@.disputes.len(),
                forall|k: int| 0 <= k < i ==> (#[trigger] self@.disputes[k]).wf(k, self@.q_vote),
            decreases self@.disputes.len() - i,
        {
            let d = &self.disputes[i];
            proof {
                assert(self@.disputes[i as int] == self.disputes@[i as int]@);
            }
            if d.dispute_id != i as u64 {
                proof {
                    assert(!self@.disputes[i as int].wf(i as int, self@.q_vote));
                }
                return false;
            }
            if !crate::disputes::all_voters_distinct(&d.votes) {
                proof {
                    assert(!self@.disputes[i as int].wf(i as int, self@.q_vote));
                }
                return false;
            }
            let nvotes = d.votes.len();
            let count_ok = match d.status {
                DisputeStatus::Open => nvotes <= self.q_vote,
                DisputeStatus::Closed => nvotes > self.q_vote,
            };
            if !count_ok {
                proof {
                    assert(!self@.disputes[i as int].wf(i as int, self@.q_vote));
                }
                return false;
            }
            i += 1;
        }
        true
    }

    /// Whether the signers present satisfy the aggregate's multi-signature
    /// gate for privileged operations: at least as many signers as the
    /// configured signer set holds.
    pub fn multi_sig_satisfied(&self, signers_present: usize) -> (r: bool)
        ensures
            r == (signers_present >= self@.multi_sig_signers.len()),
    {
        signers_present >= self.multi_sig_signers.len()
    }
}

} // verus!
