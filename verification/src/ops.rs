//! The operation type and the single dispatch point.
//!
//! An external caller submits one tagged operation against the aggregate;
//! [`HealthInsuranceDAO::apply_operation`] validates it, mutates the
//! aggregate atomically, and returns a receipt or a typed failure that
//! leaves the aggregate unchanged.

use vstd::prelude::*;
use crate::claims::{submit_claim_model, verify_claim_model};
use crate::dao::{claims_monotonic, DaoView, HealthInsuranceDAO};
use crate::disputes::{cast_vote_model, submit_dispute_model};
use crate::errors::DaoError;
use crate::ids::AccountId;
use crate::membership::{join_model, Role};
use crate::treasury::{
    pay_premium_model, payout_claim_model, set_reserve_ratio_model, update_risk_profile_model,
};

verus! {

/// One externally submitted operation, with the identities of the acting
/// parties resolved by the caller's dispatcher.
#[derive(Clone, Debug, PartialEq, Eq)]
pub enum Operation {
    /// Enroll a new member.
    Join { candidate: AccountId, role: Role, profile_hash: [u8; 32] },
    /// Submit a claim against a medical event.
    SubmitClaim {
        member: AccountId,
        provider: AccountId,
        amount: u64,
        service_date: i64,
        service_type: Vec<u8>,
        zkp_proof: Option<Vec<u8>>,
    },
    /// Record one verifier's approval of a pending claim.
    VerifyClaim { claim_index: u64, verifier: AccountId },
    /// Pay out a verified claim from the treasury.
    PayoutClaim { claim_index: u64 },
    /// Pay an insurance premium into the treasury.
    PayPremium { payer: AccountId, amount: u64 },
    /// Update or add the risk profile of a bucket.
    UpdateRiskProfile { risk_score: u8, coverage_limit: u64 },
    /// Adjust the treasury's reserve ratio (admin only), in basis points.
    SetReserveRatio { caller: AccountId, ratio_bps: u32 },
    /// Raise a dispute.
    SubmitDispute {
        initiator: AccountId,
        respondent: AccountId,
        description: Vec<u8>,
        related_claim: Option<u64>,
    },
    /// Cast one vote on an open dispute.
    CastVote { dispute_index: u64, voter: AccountId, stance: bool },
}

/// The mathematical model of an operation.
#[verifier::ext_equal]
pub enum OperationView {
    Join { candidate: AccountId, role: Role, profile_hash: [u8; 32] },
    SubmitClaim {
        member: AccountId,
        provider: AccountId,
        amount: u64,
        service_date: i64,
        service_type: Seq<u8>,
        zkp_proof: Option<Seq<u8>>,
    },
    VerifyClaim { claim_index: u64, verifier: AccountId },
    PayoutClaim { claim_index: u64 },
    PayPremium { payer: AccountId, amount: u64 },
    UpdateRiskProfile { risk_score: u8, coverage_limit: u64 },
    SetReserveRatio { caller: AccountId, ratio_bps: u32 },
    SubmitDispute {
        initiator: AccountId,
        respondent: AccountId,
        description: Seq<u8>,
        related_claim: Option<u64>,
    },
    CastVote { dispute_index: u64, voter: AccountId, stance: bool },
}

impl View for Operation {
    type V = OperationView;

    open spec fn view(&self) -> OperationView {
        match self {
            Operation::Join { candidate, role, profile_hash } => OperationView::Join {
                candidate: *candidate,
                role: *role,
                profile_hash: *profile_hash,
            },
            Operation::SubmitClaim {
                member,
                provider,
                amount,
                service_date,
                service_type,
                zkp_proof,
            } => OperationView::SubmitClaim {
                member: *member,
                provider: *provider,
                amount: *amount,
                service_date: *service_date,
                service_type: service_type@,
                zkp_proof: match zkp_proof {
                    Some(p) => Some(p@),
                    None => None,
                },
            },
            Operation::VerifyClaim { claim_index, verifier } => OperationView::VerifyClaim {
                claim_index: *claim_index,
                verifier: *verifier,
            },
            Operation::PayoutClaim { claim_index } => OperationView::PayoutClaim {
                claim_index: *claim_index,
            },
            Operation::PayPremium { payer, amount } => OperationView::PayPremium {
                payer: *payer,
                amount: *amount,
            },
            Operation::UpdateRiskProfile { risk_score, coverage_limit } =>
                OperationView::UpdateRiskProfile {
                risk_score: *risk_score,
                coverage_limit: *coverage_limit,
            },
            Operation::SetReserveRatio { caller, ratio_bps } => OperationView::SetReserveRatio {
                caller: *caller,
                ratio_bps: *ratio_bps,
            },
            Operation::SubmitDispute { initiator, respondent, description, related_claim } =>
                OperationView::SubmitDispute {
                initiator: *initiator,
                respondent: *respondent,
                description: description@,
                related_claim: *related_claim,
            },
            Operation::CastVote { dispute_index, voter, stance } => OperationView::CastVote {
                dispute_index: *dispute_index,
                voter: *voter,
                stance: *stance,
            },
        }
    }
}

/// What a successful operation reports back to the caller.
#[derive(Clone, Copy, Debug, PartialEq, Eq)]
pub enum OpReceipt {
    /// The operation applied and has no further observable result.
    Accepted,
    /// A claim was created under this index.
    ClaimCreated { claim_index: u64 },
    /// An approval was recorded; `verified` says whether it reached quorum.
    VerificationRecorded { verified: bool },
    /// A dispute was created under this index.
    DisputeCreated { dispute_index: u64 },
    /// A vote was recorded; `outcome` is `Some(favors_initiator)` when this
    /// vote closed the dispute, `None` while it stays open.
    VoteRecorded { outcome: Option<bool> },
}

/// The transition of the whole state machine: one operation against one
/// aggregate snapshot, dispatched to the matching component's model.
pub open spec fn apply_model(pre: DaoView, op: OperationView, now: i64) -> (DaoView, Result<
    OpReceipt,
    DaoError,
>) {
    match op {
        OperationView::Join { candidate, role, profile_hash } => {
            let m = join_model(pre, candidate, role, profile_hash, now);
            (
                m.0,
                match m.1 {
                    Ok(_) => Ok(OpReceipt::Accepted),
                    Err(e) => Err(e),
                },
            )
        },
        OperationView::SubmitClaim {
            member,
            provider,
            amount,
            service_date,
            service_type,
            zkp_proof,
        } => {
            let m = submit_claim_model(
                pre,
                member,
                provider,
                amount,
                service_date,
                service_type,
                zkp_proof,
            );
            (
                m.0,
                match m.1 {
                    Ok(i) => Ok(OpReceipt::ClaimCreated { claim_index: i }),
                    Err(e) => Err(e),
                },
            )
        },
        OperationView::VerifyClaim { claim_index, verifier } => {
            let m = verify_claim_model(pre, claim_index, verifier);
            (
                m.0,
                match m.1 {
                    Ok(v) => Ok(OpReceipt::VerificationRecorded { verified: v }),
                    Err(e) => Err(e),
                },
            )
        },
        OperationView::PayoutClaim { claim_index } => {
            let m = payout_claim_model(pre, claim_index);
            (
                m.0,
                match m.1 {
                    Ok(_) => Ok(OpReceipt::Accepted),
                    Err(e) => Err(e),
                },
            )
        },
        OperationView::PayPremium { payer: _, amount } => {
            let m = pay_premium_model(pre, amount);
            (
                m.0,
                match m.1 {
                    Ok(_) => Ok(OpReceipt::Accepted),
                    Err(e) => Err(e),
                },
            )
        },
        OperationView::UpdateRiskProfile { risk_score, coverage_limit } => {
            let m = update_risk_profile_model(pre, risk_score, coverage_limit);
            (
                m.0,
                match m.1 {
                    Ok(_) => Ok(OpReceipt::Accepted),
                    Err(e) => Err(e),
                },
            )
        },
        OperationView::SetReserveRatio { caller, ratio_bps } => {
            let m = set_reserve_ratio_model(pre, caller, ratio_bps);
            (
                m.0,
                match m.1 {
                    Ok(_) => Ok(OpReceipt::Accepted),
                    Err(e) => Err(e),
                },
            )
        },
        OperationView::SubmitDispute { initiator, respondent, description, related_claim } => {
            let m = submit_dispute_model(pre, initiator, respondent, description, related_claim);
            (
                m.0,
                match m.1 {
                    Ok(i) => Ok(OpReceipt::DisputeCreated { dispute_index: i }),
                    Err(e) => Err(e),
                },
            )
        },
        OperationView::CastVote { dispute_index, voter, stance } => {
            let m = cast_vote_model(pre, dispute_index, voter, stance);
            (
                m.0,
                match m.1 {
                    Ok(o) => Ok(OpReceipt::VoteRecorded { outcome: o }),
                    Err(e) => Err(e),
                },
            )
        },
    }
}

impl HealthInsuranceDAO {
    /// Applies one operation atomically: on success the aggregate holds the
    /// full new snapshot, on failure it is unchanged.  `now` is the current
    /// timestamp, supplied by the caller's clock oracle.  Whatever the
    /// operation, the aggregate stays well-formed and every claim's status
    /// only moves forward along the lattice.
    pub fn apply_operation(&mut self, op: Operation, now: i64) -> (r: Result<OpReceipt, DaoError>)
        requires
            old(self)@.wf(),
        ensures
            final(self)@ == apply_model(old(self)@, op@, now).0,
            r == apply_model(old(self)@, op@, now).1,
            final(self)@.wf(),
            claims_monotonic(old(self)@, final(self)@),
    {
        match op {
            Operation::Join { candidate, role, profile_hash } => {
                match self.join(candidate, role, profile_hash, now) {
                    Ok(_) => Ok(OpReceipt::Accepted),
                    Err(e) => Err(e),
                }
            },
            Operation::SubmitClaim {
                member,
                provider,
                amount,
                service_date,
                service_type,
                zkp_proof,
            } => {
                match self.submit_claim(
                    member,
                    provider,
                    amount,
                    service_date,
                    service_type,
                    zkp_proof,
                ) {
                    Ok(i) => Ok(OpReceipt::ClaimCreated { claim_index: i }),
                    Err(e) => Err(e),
                }
            },
            Operation::VerifyClaim { claim_index, verifier } => {
                match self.verify_claim(claim_index, verifier) {
                    Ok(v) => Ok(OpReceipt::VerificationRecorded { verified: v }),
                    Err(e) => Err(e),
                }
            },
            Operation::PayoutClaim { claim_index } => {
                match self.payout_claim(claim_index) {
                    Ok(_) => Ok(OpReceipt::Accepted),
                    Err(e) => Err(e),
                }
            },
            Operation::PayPremium { payer, amount } => {
                match self.pay_premium(payer, amount) {
                    Ok(_) => Ok(OpReceipt::Accepted),
                    Err(e) => Err(e),
                }
            },
            Operation::UpdateRiskProfile { risk_score, coverage_limit } => {
                match self.update_risk_profile(risk_score, coverage_limit) {
                    Ok(_) => Ok(OpReceipt::Accepted),
                    Err(e) => Err(e),
                }
            },
            Operation::SetReserveRatio { caller, ratio_bps } => {
                match self.set_reserve_ratio(caller, ratio_bps) {
                    Ok(_) => Ok(OpReceipt::Accepted),
                    Err(e) => Err(e),
                }
            },
            Operation::SubmitDispute { initiator, respondent, description, related_claim } => {
                match self.submit_dispute(initiator, respondent, description, related_claim) {
                    Ok(i) => Ok(OpReceipt::DisputeCreated { dispute_index: i }),
                    Err(e) => Err(e),
                }
            },
            Operation::CastVote { dispute_index, voter, stance } => {
                match self.cast_vote(dispute_index, voter, stance) {
                    Ok(o) => Ok(OpReceipt::VoteRecorded { outcome: o }),
                    Err(e) => Err(e),
                }
            },
        }
    }
}

} // verus!
