//! The laws of the ledger, stated and proved over the models.
//!
//! Each lemma is a public statement of a guarantee the state machine gives
//! across operations; the per-operation guarantees live in the `ensures` of
//! the operations themselves.

use vstd::prelude::*;
use crate::claims::{status_le, verifiers_unique, ClaimStatus};
use crate::dao::{claims_monotonic, DaoView};
use crate::disputes::{
    cast_vote_model, count_support, favors_initiator, DisputeStatus, Vote,
};
use crate::errors::DaoError;
use crate::ids::AccountId;
use crate::treasury::{
    has_profile, pay_premium_model, payout_claim_model, profile_for, required_reserve,
    risk_score_of,
};

verus! {

/// Claim statuses only move forward.  The lattice order is transitive, so a
/// whole sequence of operations moves every claim's status forward when
/// each single operation does — which every operation's `ensures` states.
pub proof fn lemma_claims_monotonic_trans(a: DaoView, b: DaoView, c: DaoView)
    requires
        claims_monotonic(a, b),
        claims_monotonic(b, c),
    ensures
        claims_monotonic(a, c),
{
    assert forall|i: int|
        0 <= i < a.claims.len() implies status_le(
        (#[trigger] a.claims[i]).status,
        c.claims[i].status,
    ) by {
        assert(status_le(a.claims[i].status, b.claims[i].status));
        assert(status_le(b.claims[i].status, c.claims[i].status));
    }
}

/// A claim of a well-formed aggregate is `Verified` or `Paid` exactly when
/// its verifier count reached the verification quorum, and its verifier set
/// never holds a duplicate identifier.
pub proof fn lemma_verified_iff_quorum(d: DaoView, i: int)
    requires
        d.wf(),
        0 <= i < d.claims.len(),
    ensures
        (d.claims[i].status == ClaimStatus::Verified || d.claims[i].status == ClaimStatus::Paid)
            <==> d.claims[i].verifiers.len() >= d.q_verify,
        verifiers_unique(d.claims[i].verifiers),
{
    assert(d.claims[i].wf(i, d.q_verify));
}

/// A dispute of a well-formed aggregate is `Closed` exactly when its vote
/// count exceeds the voting quorum.
pub proof fn lemma_closed_iff_quorum(d: DaoView, i: int)
    requires
        d.wf(),
        0 <= i < d.disputes.len(),
    ensures
        (d.disputes[i].status == DisputeStatus::Closed) <==> d.disputes[i].votes.len()
            > d.q_vote,
{
    assert(d.disputes[i].wf(i, d.q_vote));
}

/// Once a dispute is closed, no further vote on it succeeds, and the
/// attempt leaves the aggregate unchanged.
pub proof fn lemma_no_vote_after_close(
    d: DaoView,
    dispute_index: u64,
    voter: AccountId,
    stance: bool,
)
    requires
        dispute_index < d.disputes.len(),
        d.disputes[dispute_index as int].status == DisputeStatus::Closed,
    ensures
        cast_vote_model(d, dispute_index, voter, stance).1 == Err::<Option<bool>, DaoError>(
            DaoError::InvalidStateError,
        ),
        cast_vote_model(d, dispute_index, voter, stance).0 == d,
{
}

/// Removing one vote takes exactly its own stance out of the tally.
pub proof fn lemma_count_support_remove(s: Seq<Vote>, j: int)
    requires
        0 <= j < s.len(),
    ensures
        count_support(s.remove(j)) == count_support(s) - (if s[j].support {
            1nat
        } else {
            0nat
        }),
    decreases s.len(),
{
    if j == s.len() - 1 {
        assert(s.remove(j) =~= s.drop_last());
    } else {
        let t = s.drop_last();
        lemma_count_support_remove(t, j);
        assert(s.remove(j).drop_last() =~= t.remove(j));
        assert(s.remove(j).last() == s.last());
    }
}

/// The support tally is a function of the vote multiset alone: two vote
/// lists holding the same votes in any order tally the same.
pub proof fn lemma_count_support_from_multiset(s1: Seq<Vote>, s2: Seq<Vote>)
    requires
        s1.to_multiset() == s2.to_multiset(),
    ensures
        count_support(s1) == count_support(s2),
    decreases s1.len(),
{
    broadcast use vstd::seq_lib::group_to_multiset_ensures;

    s1.to_multiset_ensures();
    s2.to_multiset_ensures();
    if s1.len() == 0 {
        assert(s2.len() == 0);
    } else {
        let x = s1.last();
        let t1 = s1.drop_last();
        assert(s1 =~= t1.push(x));
        assert(s1.to_multiset() =~= t1.to_multiset().insert(x));
        assert(s2.to_multiset().count(x) > 0);
        assert(s2.contains(x));
        let j = choose|j: int| 0 <= j < s2.len() && s2[j] == x;
        assert(s2.remove(j).to_multiset() =~= s2.to_multiset().remove(x));
        assert(t1.to_multiset() =~= s1.to_multiset().remove(x));
        lemma_count_support_from_multiset(t1, s2.remove(j));
        lemma_count_support_remove(s2, j);
    }
}

/// The outcome of a closed dispute is deterministic from the vote multiset:
/// whatever order the same votes arrived in, the dispute resolves the same
/// way.
pub proof fn lemma_outcome_from_multiset(v1: Seq<Vote>, v2: Seq<Vote>)
    requires
        v1.to_multiset() == v2.to_multiset(),
    ensures
        favors_initiator(v1) == favors_initiator(v2),
{
    broadcast use vstd::seq_lib::group_to_multiset_ensures;

    lemma_count_support_from_multiset(v1, v2);
    assert(v1.len() == v1.to_multiset().len());
    assert(v2.len() == v2.to_multiset().len());
}

/// An exact tie resolves against the initiator.
pub proof fn lemma_tie_favors_respondent(votes: Seq<Vote>)
    requires
        2 * count_support(votes) == votes.len(),
    ensures
        !favors_initiator(votes),
{
}

/// Round trip: a premium payment followed by a successful payout of a claim
/// of the same amount returns the treasury balance to its prior value.
/// (The balance can never go negative in any run: it is unsigned and every
/// payout is checked against the reserve first.)
pub proof fn lemma_premium_payout_round_trip(pre: DaoView, claim_index: u64, amount: u64)
    requires
        pay_premium_model(pre, amount).1 is Ok,
        payout_claim_model(pay_premium_model(pre, amount).0, claim_index).1 is Ok,
        claim_index < pre.claims.len(),
        pre.claims[claim_index as int].amount == amount,
    ensures
        payout_claim_model(pay_premium_model(pre, amount).0, claim_index).0.treasury.balance
            == pre.treasury.balance,
{
}

/// A payout of a claim whose amount exceeds its bucket's coverage limit
/// fails with `LimitExceededError`, whatever the treasury holds: the
/// coverage check comes before the reserve check.
pub proof fn lemma_payout_limit_exceeded(d: DaoView, claim_index: u64)
    requires
        claim_index < d.claims.len(),
        d.claims[claim_index as int].status == ClaimStatus::Verified,
        has_profile(d.risk_profiles, risk_score_of(d.claims[claim_index as int].member)),
        d.claims[claim_index as int].amount > profile_for(
            d.risk_profiles,
            risk_score_of(d.claims[claim_index as int].member),
        ).coverage_limit,
    ensures
        payout_claim_model(d, claim_index).1 == Err::<(), DaoError>(
            DaoError::LimitExceededError,
        ),
        payout_claim_model(d, claim_index).0 == d,
{
}

/// A payout that would dip into the required reserve fails with
/// `InsufficientFundsError` once the coverage check passed.
pub proof fn lemma_payout_breaches_reserve(d: DaoView, claim_index: u64)
    requires
        claim_index < d.claims.len(),
        d.claims[claim_index as int].status == ClaimStatus::Verified,
        has_profile(d.risk_profiles, risk_score_of(d.claims[claim_index as int].member)),
        d.claims[claim_index as int].amount <= profile_for(
            d.risk_profiles,
            risk_score_of(d.claims[claim_index as int].member),
        ).coverage_limit,
        d.treasury.balance - required_reserve(d.treasury.balance, d.treasury.reserve_ratio_bps)
            < d.claims[claim_index as int].amount,
    ensures
        payout_claim_model(d, claim_index).1 == Err::<(), DaoError>(
            DaoError::InsufficientFundsError,
        ),
        payout_claim_model(d, claim_index).0 == d,
{
}

} // verus!
