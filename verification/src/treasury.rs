//! The risk-adjusted treasury: premium intake, reserve-protected payout,
//! and risk-profile lookup.
//!
//! The reserve ratio is a fraction of the balance that payouts may never
//! touch; it is held in basis points (one ten-thousandth), so the required
//! reserve is `floor(balance * ratio_bps / 10000)`.

use vstd::prelude::*;
use vstd::arithmetic::div_mod::{lemma_div_is_ordered, lemma_div_multiples_vanish};
use vstd::arithmetic::mul::lemma_mul_inequality;
use crate::claims::{ClaimStatus, ClaimView};
use crate::dao::{claims_monotonic, DaoView, HealthInsuranceDAO};
use crate::errors::DaoError;
use crate::ids::AccountId;

verus! {

/// The denominator of the reserve ratio: one basis point is 1/10000.
pub const BPS_DENOM: u32 = 10000;

/// The financial component of the aggregate.
#[derive(Clone, Copy, Debug)]
pub struct Treasury {
    /// Current balance, in the currency's smallest unit.
    pub balance: u64,
    /// Fraction of the balance withheld from payouts, in basis points;
    /// always at most [`BPS_DENOM`].
    pub reserve_ratio_bps: u32,
}

/// The coverage limit for one risk bucket.  At most one profile exists per
/// bucket; an update replaces the previous one.
#[derive(Clone, Copy, Debug)]
pub struct RiskProfile {
    /// The risk bucket this profile applies to.
    pub risk_score: u8,
    /// Maximum payable claim amount for this bucket.
    pub coverage_limit: u64,
}

/// The reserve the treasury must keep: `floor(balance * ratio_bps / 10000)`.
pub open spec fn required_reserve(balance: u64, ratio_bps: u32) -> int {
    (balance * ratio_bps) / (BPS_DENOM as int)
}

/// The required reserve never exceeds the balance itself.
pub proof fn lemma_reserve_le_balance(balance: u64, ratio_bps: u32)
    requires
        ratio_bps <= BPS_DENOM,
    ensures
        0 <= required_reserve(balance, ratio_bps) <= balance,
{
    lemma_mul_inequality(ratio_bps as int, BPS_DENOM as int, balance as int);
    lemma_div_is_ordered(balance * ratio_bps, balance * BPS_DENOM, BPS_DENOM as int);
    lemma_div_multiples_vanish(balance as int, BPS_DENOM as int);
}

/// Computes the required reserve of a treasury.
pub fn compute_required_reserve(t: &Treasury) -> (r: u64)
    requires
        t.reserve_ratio_bps <= BPS_DENOM,
    ensures
        r == required_reserve(t.balance, t.reserve_ratio_bps),
        r <= t.balance,
{
    proof {
        lemma_reserve_le_balance(t.balance, t.reserve_ratio_bps);
    }
    let prod: u128 = (t.balance as u128) * (t.reserve_ratio_bps as u128);
    (prod / (BPS_DENOM as u128)) as u64
}

/// The externally pluggable risk-scoring predicate, as a function of the
/// member's identifier alone: this deterministic stand-in buckets a member
/// by the first byte of their public key, modulo 100.
pub open spec fn risk_score_of(member: AccountId) -> u8 {
    (member.bytes@[0] % 100) as u8
}

/// Derives a member's risk bucket; matches [`risk_score_of`].
pub fn calculate_risk_score(member: &AccountId) -> (r: u8)
    ensures
        r == risk_score_of(*member),
{
    member.bytes[0] % 100
}

/// No two profiles share a risk bucket.
pub open spec fn profiles_unique(profiles: Seq<RiskProfile>) -> bool {
    forall|i: int, j: int|
        #![trigger profiles[i], profiles[j]]
        0 <= i < j < profiles.len() ==> profiles[i].risk_score != profiles[j].risk_score
}

/// Whether some profile covers the given risk bucket.
pub open spec fn has_profile(profiles: Seq<RiskProfile>, score: u8) -> bool {
    exists|k: int| 0 <= k < profiles.len() && profiles[k].risk_score == score
}

/// The profile covering the given bucket, where one exists.  Under
/// [`profiles_unique`] it is the unique one.
pub open spec fn profile_for(profiles: Seq<RiskProfile>, score: u8) -> RiskProfile {
    profiles[choose|k: int| 0 <= k < profiles.len() && profiles[k].risk_score == score]
}

/// Finds the position of the profile covering the given bucket.
pub fn find_profile(profiles: &Vec<RiskProfile>, score: u8) -> (r: Option<usize>)
    requires
        profiles_unique(profiles@),
    ensures
        r is Some <==> has_profile(profiles@, score),
        r matches Some(k) ==> 0 <= k < profiles@.len() && profiles@[k as int].risk_score == score
            && profiles@[k as int] == profile_for(profiles@, score),
{
    let mut i: usize = 0;
    while i < profiles.len()
        invariant
            0 <= i <= profiles@.len(),
            profiles_unique(profiles@),
            forall|k: int| 0 <= k < i ==> profiles@[k].risk_score != score,
        decreases profiles@.len() - i,
    {
        if profiles[i].risk_score == score {
            proof {
                assert(profiles@[i as int].risk_score == score);
                assert(exists|k: int|
                    0 <= k < profiles@.len() && #[trigger] profiles@[k].risk_score == score);
                let w = choose|k: int|
                    0 <= k < profiles@.len() && profiles@[k].risk_score == score;
                assert(0 <= w < profiles@.len() && profiles@[w].risk_score == score);
                if w < i as int {
                    assert(profiles@[w].risk_score != profiles@[i as int].risk_score);
                } else if w > i as int {
                    assert(profiles@[i as int].risk_score != profiles@[w].risk_score);
                }
                assert(w == i as int);
            }
            return Some(i);
        }
        i += 1;
    }
    None
}

/// Whether no two profiles share a bucket; matches [`profiles_unique`].
pub fn all_buckets_distinct(profiles: &Vec<RiskProfile>) -> (r: bool)
    ensures
        r == profiles_unique(profiles@),
{
    let mut i: usize = 0;
    while i < profiles.len()
        invariant
            0 <= i <= profiles@.len(),
            forall|x: int, y: int|
                #![trigger profiles@[x], profiles@[y]]
                0 <= x < y < i ==> profiles@[x].risk_score != profiles@[y].risk_score,
        decreases profiles@.len() - i,
    {
        let mut j: usize = 0;
        while j < i
            invariant
                0 <= j <= i < profiles@.len(),
                forall|x: int, y: int|
                    #![trigger profiles@[x], profiles@[y]]
                    0 <= x < y < i ==> profiles@[x].risk_score != profiles@[y].risk_score,
                forall|k: int| 0 <= k < j ==> profiles@[k].risk_score != profiles@[i as int].risk_score,
            decreases i - j,
        {
            if profiles[j].risk_score == profiles[i].risk_score {
                assert(profiles@[j as int].risk_score == profiles@[i as int].risk_score);
                return false;
            }
            j += 1;
        }
        i += 1;
    }
    true
}

/// What a premium payment does: the amount is added to the balance with
/// overflow-checked addition; on overflow nothing changes.
pub open spec fn pay_premium_model(pre: DaoView, amount: u64) -> (DaoView, Result<
    (),
    DaoError,
>) {
    if pre.treasury.balance + amount > u64::MAX {
        (pre, Err(DaoError::ArithmeticOverflowError))
    } else {
        (
            DaoView {
                treasury: Treasury {
                    balance: (pre.treasury.balance + amount) as u64,
                    ..pre.treasury
                },
                ..pre
            },
            Ok(()),
        )
    }
}

/// What a payout does, with its checks in their fixed order: the claim must
/// exist and be `Verified`; the claimant's bucket must have a profile; the
/// amount must be within the bucket's coverage limit; and the balance left
/// after the required reserve must cover the amount.  On success the amount
/// leaves the balance and the claim becomes `Paid`.
pub open spec fn payout_claim_model(pre: DaoView, claim_index: u64) -> (DaoView, Result<
    (),
    DaoError,
>) {
    if claim_index >= pre.claims.len() {
        (pre, Err(DaoError::NotFoundError))
    } else {
        let c = pre.claims[claim_index as int];
        if c.status != ClaimStatus::Verified {
            (pre, Err(DaoError::InvalidStateError))
        } else {
            let score = risk_score_of(c.member);
            if !has_profile(pre.risk_profiles, score) {
                (pre, Err(DaoError::NotFoundError))
            } else if c.amount > profile_for(pre.risk_profiles, score).coverage_limit {
                (pre, Err(DaoError::LimitExceededError))
            } else if pre.treasury.balance - required_reserve(
                pre.treasury.balance,
                pre.treasury.reserve_ratio_bps,
            ) < c.amount {
                (pre, Err(DaoError::InsufficientFundsError))
            } else {
                (
                    DaoView {
                        treasury: Treasury {
                            balance: (pre.treasury.balance - c.amount) as u64,
                            ..pre.treasury
                        },
                        claims: pre.claims.update(
                            claim_index as int,
                            ClaimView { status: ClaimStatus::Paid, ..c },
                        ),
                        ..pre
                    },
                    Ok(()),
                )
            }
        }
    }
}

/// What a risk-profile upsert does: the profile of the given bucket is
/// replaced where one exists, else a new profile is appended.
pub open spec fn update_risk_profile_model(
    pre: DaoView,
    risk_score: u8,
    coverage_limit: u64,
) -> (DaoView, Result<(), DaoError>) {
    let p = RiskProfile { risk_score, coverage_limit };
    if has_profile(pre.risk_profiles, risk_score) {
        let k = choose|k: int|
            0 <= k < pre.risk_profiles.len() && pre.risk_profiles[k].risk_score == risk_score;
        (DaoView { risk_profiles: pre.risk_profiles.update(k, p), ..pre }, Ok(()))
    } else {
        (DaoView { risk_profiles: pre.risk_profiles.push(p), ..pre }, Ok(()))
    }
}

/// What a reserve-ratio update does: only the aggregate's admin may adjust
/// it, and the ratio must not exceed one (10000 basis points).
pub open spec fn set_reserve_ratio_model(pre: DaoView, caller: AccountId, ratio_bps: u32) -> (
    DaoView,
    Result<(), DaoError>,
) {
    if caller != pre.admin {
        (pre, Err(DaoError::UnauthorizedError))
    } else if ratio_bps > BPS_DENOM {
        (pre, Err(DaoError::ValidationError))
    } else {
        (DaoView { treasury: Treasury { reserve_ratio_bps: ratio_bps, ..pre.treasury }, ..pre },
        Ok(()))
    }
}

impl HealthInsuranceDAO {
    /// Receives a premium payment into the treasury.  The payer needs no
    /// authorization beyond a well-formed request.
    pub fn pay_premium(&mut self, _payer: AccountId, amount: u64) -> (r: Result<(), DaoError>)
        requires
            old(self)@.wf(),
        ensures
            final(self)@ == pay_premium_model(old(self)@, amount).0,
            r == pay_premium_model(old(self)@, amount).1,
            final(self)@.wf(),
            claims_monotonic(old(self)@, final(self)@),
    {
        match self.treasury.balance.checked_add(amount) {
            Some(nb) => {
                self.treasury.balance = nb;
                proof {
                    assert(self@ =~= pay_premium_model(old(self)@, amount).0);
                }
                Ok(())
            },
            None => Err(DaoError::ArithmeticOverflowError),
        }
    }

    /// Pays out a verified claim, gated by the claimant's coverage limit and
    /// the treasury's reserve requirement.  The actual transfer of funds to
    /// the claimant is the caller's business, performed after success.
    pub fn payout_claim(&mut self, claim_index: u64) -> (r: Result<(), DaoError>)
        requires
            old(self)@.wf(),
        ensures
            final(self)@ == payout_claim_model(old(self)@, claim_index).0,
            r == payout_claim_model(old(self)@, claim_index).1,
            final(self)@.wf(),
            claims_monotonic(old(self)@, final(self)@),
    {
        if claim_index >= self.claims.len() as u64 {
            return Err(DaoError::NotFoundError);
        }
        let idx = claim_index as usize;
        if !(self.claims[idx].status == ClaimStatus::Verified) {
            return Err(DaoError::InvalidStateError);
        }
        let score = calculate_risk_score(&self.claims[idx].member);
        let limit = match find_profile(&self.risk_profiles, score) {
            Some(k) => self.risk_profiles[k].coverage_limit,
            None => {
                return Err(DaoError::NotFoundError);
            },
        };
        let amount = self.claims[idx].amount;
        if amount > limit {
            return Err(DaoError::LimitExceededError);
        }
        let reserve = compute_required_reserve(&self.treasury);
        if self.treasury.balance - reserve < amount {
            return Err(DaoError::InsufficientFundsError);
        }
        match self.treasury.balance.checked_sub(amount) {
            Some(nb) => {
                self.treasury.balance = nb;
            },
            None => {
                // Unreachable: the reserve check above implies the balance
                // covers the amount, and the verifier confirms it.
                return Err(DaoError::ArithmeticOverflowError);
            },
        }
        let c = &mut self.claims[idx];
        c.status = ClaimStatus::Paid;
        proof {
            let post = payout_claim_model(old(self)@, claim_index).0;
            assert(self@.claims =~= post.claims);
            assert(self@ =~= post);
        }
        Ok(())
    }

    /// Updates or adds the risk profile of a bucket; the latest update wins.
    pub fn update_risk_profile(&mut self, risk_score: u8, coverage_limit: u64) -> (r: Result<
        (),
        DaoError,
    >)
        requires
            old(self)@.wf(),
        ensures
            final(self)@ == update_risk_profile_model(old(self)@, risk_score, coverage_limit).0,
            r == update_risk_profile_model(old(self)@, risk_score, coverage_limit).1,
            final(self)@.wf(),
            claims_monotonic(old(self)@, final(self)@),
    {
        let p = RiskProfile { risk_score, coverage_limit };
        match find_profile(&self.risk_profiles, risk_score) {
            Some(k) => {
                self.risk_profiles[k] = p;
                proof {
                    let post = update_risk_profile_model(old(self)@, risk_score, coverage_limit).0;
                    assert(self@ =~= post);
                    assert forall|i: int, j: int|
                        0 <= i < j < self@.risk_profiles.len() implies self@.risk_profiles[i].risk_score
                        != self@.risk_profiles[j].risk_score by {
                        assert(old(self)@.risk_profiles[i].risk_score != old(
                            self,
                        )@.risk_profiles[j].risk_score);
                    };
                }
            },
            None => {
                self.risk_profiles.push(p);
                proof {
                    let post = update_risk_profile_model(old(self)@, risk_score, coverage_limit).0;
                    assert(self@ =~= post);
                    assert forall|i: int, j: int|
                        0 <= i < j < self@.risk_profiles.len() implies self@.risk_profiles[i].risk_score
                        != self@.risk_profiles[j].risk_score by {
                        if j < old(self)@.risk_profiles.len() {
                            assert(old(self)@.risk_profiles[i].risk_score != old(
                                self,
                            )@.risk_profiles[j].risk_score);
                        } else {
                            assert(old(self)@.risk_profiles[i].risk_score != risk_score);
                        }
                    };
                }
            },
        }
        Ok(())
    }

    /// Adjusts the treasury's reserve ratio; admin only, and at most one.
    pub fn set_reserve_ratio(&mut self, caller: AccountId, ratio_bps: u32) -> (r: Result<
        (),
        DaoError,
    >)
        requires
            old(self)@.wf(),
        ensures
            final(self)@ == set_reserve_ratio_model(old(self)@, caller, ratio_bps).0,
            r == set_reserve_ratio_model(old(self)@, caller, ratio_bps).1,
            final(self)@.wf(),
            claims_monotonic(old(self)@, final(self)@),
    {
        if !crate::ids::id_eq(&caller, &self.admin) {
            return Err(DaoError::UnauthorizedError);
        }
        if ratio_bps > BPS_DENOM {
            return Err(DaoError::ValidationError);
        }
        self.treasury.reserve_ratio_bps = ratio_bps;
        proof {
            assert(self@ =~= set_reserve_ratio_model(old(self)@, caller, ratio_bps).0);
        }
        Ok(())
    }
}

} // verus!
