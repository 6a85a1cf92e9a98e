//! The claims lifecycle: submission, verification by quorum, rejection.
//!
//! A claim's status moves along the linear lattice
//! `Pending -> Verified -> Paid` with the side exit `Pending -> Rejected`;
//! `Paid` and `Rejected` are terminal.

use vstd::prelude::*;
use crate::dao::{claims_monotonic, DaoView, HealthInsuranceDAO};
use crate::errors::DaoError;
use crate::ids::{seq_contains_id, AccountId};
use crate::membership::is_registered_member;

verus! {

/// The lifecycle status of a claim.
#[derive(Clone, Copy, Debug, PartialEq, Eq, Structural)]
pub enum ClaimStatus {
    /// Submitted, awaiting verifier approvals.
    Pending,
    /// Approved by a quorum of verifiers; eligible for payout.
    Verified,
    /// Administratively rejected; terminal.
    Rejected,
    /// Paid out by the treasury; terminal.
    Paid,
}

/// One claim against a medical event.
#[derive(Clone, Debug)]
pub struct Claim {
    /// Dense, monotonically assigned index: equal to the claim count at creation.
    pub claim_id: u64,
    /// The member who submitted the claim.
    pub member: AccountId,
    /// Claimed amount, in the currency's smallest unit.  Never mutated.
    pub amount: u64,
    /// Epoch timestamp of the medical service or event.
    pub service_date: i64,
    /// Free-text descriptor of the service, as UTF-8 bytes.
    pub service_type: Vec<u8>,
    /// The provider of the service.
    pub provider: AccountId,
    /// Current lifecycle status.
    pub status: ClaimStatus,
    /// Distinct identifiers of the verifiers who approved this claim.
    pub verifiers: Vec<AccountId>,
    /// Optional validity-proof payload, checked at submission.
    pub zkp_proof: Option<Vec<u8>>,
}

/// The mathematical model of a claim.
#[verifier::ext_equal]
pub struct ClaimView {
    pub claim_id: u64,
    pub member: AccountId,
    pub amount: u64,
    pub service_date: i64,
    pub service_type: Seq<u8>,
    pub provider: AccountId,
    pub status: ClaimStatus,
    pub verifiers: Seq<AccountId>,
    pub zkp_proof: Option<Seq<u8>>,
}

impl View for Claim {
    type V = ClaimView;

    open spec fn view(&self) -> ClaimView {
        ClaimView {
            claim_id: self.claim_id,
            member: self.member,
            amount: self.amount,
            service_date: self.service_date,
            service_type: self.service_type@,
            provider: self.provider,
            status: self.status,
            verifiers: self.verifiers@,
            zkp_proof: match self.zkp_proof {
                Some(p) => Some(p@),
                None => None,
            },
        }
    }
}

impl DeepView for Claim {
    type V = ClaimView;

    open spec fn deep_view(&self) -> ClaimView {
        self@
    }
}

/// The status lattice's reachability order: `status_le(a, b)` holds when a
/// claim in status `a` may later be observed in status `b`.
pub open spec fn status_le(a: ClaimStatus, b: ClaimStatus) -> bool {
    ||| a == b
    ||| (a == ClaimStatus::Pending && (b == ClaimStatus::Verified || b == ClaimStatus::Rejected
        || b == ClaimStatus::Paid))
    ||| (a == ClaimStatus::Verified && b == ClaimStatus::Paid)
}

/// No verifier identifier appears twice.
pub open spec fn verifiers_unique(verifiers: Seq<AccountId>) -> bool {
    forall|i: int, j: int|
        #![trigger verifiers[i], verifiers[j]]
        0 <= i < j < verifiers.len() ==> verifiers[i] != verifiers[j]
}

impl ClaimView {
    /// Well-formedness of one claim at position `idx` of the aggregate,
    /// under the verification quorum `q_verify`: the index is dense, the
    /// verifier set holds no duplicate, and the status agrees with the
    /// verifier count (a claim is `Verified` or `Paid` exactly when the
    /// quorum was reached while it was still pending).
    pub open spec fn wf(self, idx: int, q_verify: usize) -> bool {
        &&& self.claim_id == idx
        &&& verifiers_unique(self.verifiers)
        &&& (self.status == ClaimStatus::Pending || self.status == ClaimStatus::Rejected)
            ==> self.verifiers.len() < q_verify
        &&& (self.status == ClaimStatus::Verified || self.status == ClaimStatus::Paid)
            ==> self.verifiers.len() >= q_verify
    }
}

/// What the pluggable validity-proof predicate accepts: this deterministic
/// stand-in accepts exactly the non-empty payloads.
pub open spec fn zkp_accepts(proof: Seq<u8>) -> bool {
    proof.len() > 0
}

/// The externally pluggable validity-proof check for claim submissions;
/// matches [`zkp_accepts`].
pub fn verify_zkp(proof: &Vec<u8>) -> (r: bool)
    ensures
        r == zkp_accepts(proof@),
{
    proof.len() > 0
}

/// What a submission does: the submitter must be registered with the
/// `Member` role, and a supplied validity proof must pass the external
/// proof predicate; then a new claim is appended in `Pending` status with
/// an empty verifier set, its index the claim count before the operation.
pub open spec fn submit_claim_model(
    pre: DaoView,
    member: AccountId,
    provider: AccountId,
    amount: u64,
    service_date: i64,
    service_type: Seq<u8>,
    proof: Option<Seq<u8>>,
) -> (DaoView, Result<u64, DaoError>) {
    if !is_registered_member(pre.members, member) {
        (pre, Err(DaoError::UnauthorizedError))
    } else if proof matches Some(p) && !zkp_accepts(p) {
        (pre, Err(DaoError::ValidationError))
    } else {
        let c = ClaimView {
            claim_id: pre.claims.len() as u64,
            member,
            amount,
            service_date,
            service_type,
            provider,
            status: ClaimStatus::Pending,
            verifiers: Seq::empty(),
            zkp_proof: proof,
        };
        (DaoView { claims: pre.claims.push(c), ..pre }, Ok(pre.claims.len() as u64))
    }
}

/// What an administrative rejection does: only a `Pending` claim may be
/// rejected, and `Rejected` is terminal.
pub open spec fn reject_claim_model(pre: DaoView, claim_index: u64) -> (DaoView, Result<
    (),
    DaoError,
>) {
    if claim_index >= pre.claims.len() {
        (pre, Err(DaoError::NotFoundError))
    } else {
        let c = pre.claims[claim_index as int];
        if c.status != ClaimStatus::Pending {
            (pre, Err(DaoError::InvalidStateError))
        } else {
            (
                DaoView {
                    claims: pre.claims.update(
                        claim_index as int,
                        ClaimView { status: ClaimStatus::Rejected, ..c },
                    ),
                    ..pre
                },
                Ok(()),
            )
        }
    }
}

/// What one verification does: the claim must still be `Pending`; a
/// verifier may approve at most once; the approval is appended, and the
/// moment the verifier count reaches the quorum the claim becomes
/// `Verified` within the same operation.  The result reports whether the
/// quorum was reached.
pub open spec fn verify_claim_model(pre: DaoView, claim_index: u64, verifier: AccountId) -> (
    DaoView,
    Result<bool, DaoError>,
) {
    if claim_index >= pre.claims.len() {
        (pre, Err(DaoError::NotFoundError))
    } else {
        let c = pre.claims[claim_index as int];
        if c.status != ClaimStatus::Pending {
            (pre, Err(DaoError::InvalidStateError))
        } else if seq_contains_id(c.verifiers, verifier) {
            (pre, Err(DaoError::DuplicateError))
        } else {
            let vs = c.verifiers.push(verifier);
            let reached = vs.len() >= pre.q_verify;
            let c2 = ClaimView {
                status: if reached {
                    ClaimStatus::Verified
                } else {
                    ClaimStatus::Pending
                },
                verifiers: vs,
                ..c
            };
            (
                DaoView { claims: pre.claims.update(claim_index as int, c2), ..pre },
                Ok(reached),
            )
        }
    }
}

impl HealthInsuranceDAO {
    /// Submits a new claim against a medical event.
    pub fn submit_claim(
        &mut self,
        member: AccountId,
        provider: AccountId,
        amount: u64,
        service_date: i64,
        service_type: Vec<u8>,
        zkp_proof: Option<Vec<u8>>,
    ) -> (r: Result<u64, DaoError>)
        requires
            old(self)@.wf(),
        ensures
            final(self)@ == submit_claim_model(
                old(self)@,
                member,
                provider,
                amount,
                service_date,
                service_type@,
                match zkp_proof {
                    Some(p) => Some(p@),
                    None => None,
                },
            ).0,
            r == submit_claim_model(
                old(self)@,
                member,
                provider,
                amount,
                service_date,
                service_type@,
                match zkp_proof {
                    Some(p) => Some(p@),
                    None => None,
                },
            ).1,
            final(self)@.wf(),
            claims_monotonic(old(self)@, final(self)@),
    {
        if !crate::membership::find_registered_member(&self.members, &member) {
            return Err(DaoError::UnauthorizedError);
        }
        if let Some(p) = &zkp_proof {
            if !verify_zkp(p) {
                return Err(DaoError::ValidationError);
            }
        }
        let claim_id = self.claims.len() as u64;
        let ghost proof_view = (match &zkp_proof {
            Some(p) => Some(p@),
            None => None::<Seq<u8>>,
        });
        let ghost type_view = service_type@;
        let c = Claim {
            claim_id,
            member,
            amount,
            service_date,
            service_type,
            provider,
            status: ClaimStatus::Pending,
            verifiers: Vec::new(),
            zkp_proof,
        };
        self.claims.push(c);
        proof {
            let post = submit_claim_model(
                old(self)@,
                member,
                provider,
                amount,
                service_date,
                type_view,
                proof_view,
            ).0;
            assert(self@.claims =~= post.claims);
            assert(self@ =~= post);
        }
        Ok(claim_id)
    }

    /// Rejects a pending claim (administrative side exit of the lattice).
    pub fn reject_claim(&mut self, claim_index: u64) -> (r: Result<(), DaoError>)
        requires
            old(self)@.wf(),
        ensures
            final(self)@ == reject_claim_model(old(self)@, claim_index).0,
            r == reject_claim_model(old(self)@, claim_index).1,
            final(self)@.wf(),
            claims_monotonic(old(self)@, final(self)@),
    {
        if claim_index >= self.claims.len() as u64 {
            return Err(DaoError::NotFoundError);
        }
        let idx = claim_index as usize;
        if !(self.claims[idx].status == ClaimStatus::Pending) {
            return Err(DaoError::InvalidStateError);
        }
        let c = &mut self.claims[idx];
        c.status = ClaimStatus::Rejected;
        proof {
            let post = reject_claim_model(old(self)@, claim_index).0;
            assert(self@.claims =~= post.claims);
            assert(self@ =~= post);
        }
        Ok(())
    }

    /// Records one verifier's approval of a pending claim.
    pub fn verify_claim(&mut self, claim_index: u64, verifier: AccountId) -> (r: Result<
        bool,
        DaoError,
    >)
        requires
            old(self)@.wf(),
        ensures
            final(self)@ == verify_claim_model(old(self)@, claim_index, verifier).0,
            r == verify_claim_model(old(self)@, claim_index, verifier).1,
            final(self)@.wf(),
            claims_monotonic(old(self)@, final(self)@),
    {
        if claim_index >= self.claims.len() as u64 {
            return Err(DaoError::NotFoundError);
        }
        let idx = claim_index as usize;
        if !(self.claims[idx].status == ClaimStatus::Pending) {
            return Err(DaoError::InvalidStateError);
        }
        if crate::ids::contains_id(&self.claims[idx].verifiers, &verifier) {
            return Err(DaoError::DuplicateError);
        }
        let q = self.q_verify;
        let c = &mut self.claims[idx];
        c.verifiers.push(verifier);
        let reached = c.verifiers.len() >= q;
        if reached {
            c.status = ClaimStatus::Verified;
        }
        proof {
            let post = verify_claim_model(old(self)@, claim_index, verifier).0;
            assert(self@.claims =~= post.claims);
            assert(self@ =~= post);
            let cv = self@.claims[claim_index as int];
            assert forall|i: int, j: int|
                0 <= i < j < cv.verifiers.len() implies cv.verifiers[i] != cv.verifiers[j] by {
                let oldvs = old(self)@.claims[claim_index as int].verifiers;
                if j < oldvs.len() {
                    assert(oldvs[i] != oldvs[j]);
                } else {
                    assert(oldvs[i] != verifier);
                }
            };
        }
        Ok(reached)
    }
}

} // verus!
