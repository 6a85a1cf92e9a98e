//! Dispute resolution by majority voting.
//!
//! A dispute is `Open` until its vote count exceeds the voting quorum, at
//! which point it transitions to `Closed` irreversibly and an outcome is
//! computed: the initiator prevails exactly when strictly more than half of
//! the votes support them; ties resolve against the initiator.

use vstd::prelude::*;
use crate::dao::{claims_monotonic, DaoView, HealthInsuranceDAO};
use crate::errors::DaoError;
use crate::ids::AccountId;

verus! {

/// The status of a dispute.
#[derive(Clone, Copy, Debug, PartialEq, Eq, Structural)]
pub enum DisputeStatus {
    /// Still accepting votes.
    Open,
    /// Voting has concluded; terminal.
    Closed,
}

/// One recorded vote: the voter's identifier and their stance
/// (`true` supports the initiator).
#[derive(Clone, Copy, Debug)]
pub struct Vote {
    pub voter: AccountId,
    pub support: bool,
}

/// One dispute raised within the pool.
#[derive(Clone, Debug)]
pub struct Dispute {
    /// Dense, monotonically assigned index: equal to the dispute count at creation.
    pub dispute_id: u64,
    /// Optional link to the claim this dispute relates to.
    pub claim_id: Option<u64>,
    /// The member who raised the dispute.
    pub initiator: AccountId,
    /// The member or entity the dispute is against.
    pub respondent: AccountId,
    /// Free-text explanation of the dispute, as UTF-8 bytes.
    pub description: Vec<u8>,
    /// Current status.
    pub status: DisputeStatus,
    /// The votes cast so far, in order, at most one per voter.
    pub votes: Vec<Vote>,
}

/// The mathematical model of a dispute.
#[verifier::ext_equal]
pub struct DisputeView {
    pub dispute_id: u64,
    pub claim_id: Option<u64>,
    pub initiator: AccountId,
    pub respondent: AccountId,
    pub description: Seq<u8>,
    pub status: DisputeStatus,
    pub votes: Seq<Vote>,
}

impl View for Dispute {
    type V = DisputeView;

    open spec fn view(&self) -> DisputeView {
        DisputeView {
            dispute_id: self.dispute_id,
            claim_id: self.claim_id,
            initiator: self.initiator,
            respondent: self.respondent,
            description: self.description@,
            status: self.status,
            votes: self.votes@,
        }
    }
}

impl DeepView for Dispute {
    type V = DisputeView;

    open spec fn deep_view(&self) -> DisputeView {
        self@
    }
}

/// No voter identifier appears twice.
pub open spec fn votes_unique(votes: Seq<Vote>) -> bool {
    forall|i: int, j: int|
        #![trigger votes[i], votes[j]]
        0 <= i < j < votes.len() ==> votes[i].voter != votes[j].voter
}

/// Whether some vote in the list was cast by the given voter.
pub open spec fn has_voted(votes: Seq<Vote>, voter: AccountId) -> bool {
    exists|k: int| 0 <= k < votes.len() && votes[k].voter == voter
}

/// The number of votes whose stance supports the initiator.
pub open spec fn count_support(votes: Seq<Vote>) -> nat
    decreases votes.len(),
{
    if votes.len() == 0 {
        0
    } else {
        count_support(votes.drop_last()) + if votes.last().support { 1nat } else { 0nat }
    }
}

/// The deterministic outcome of a closed dispute: the initiator prevails
/// exactly when strictly more than half of the votes support them, so an
/// exact tie resolves in favor of the respondent.
pub open spec fn favors_initiator(votes: Seq<Vote>) -> bool {
    2 * count_support(votes) > votes.len()
}

impl DisputeView {
    /// Well-formedness of one dispute at position `idx` of the aggregate,
    /// under the voting quorum `q_vote`: the index is dense, at most one
    /// vote per voter, and the status agrees with the vote count (a dispute
    /// is `Closed` exactly when the count exceeded the quorum).
    pub open spec fn wf(self, idx: int, q_vote: usize) -> bool {
        &&& self.dispute_id == idx
        &&& votes_unique(self.votes)
        &&& self.status == DisputeStatus::Open ==> self.votes.len() <= q_vote
        &&& self.status == DisputeStatus::Closed ==> self.votes.len() > q_vote
    }
}

/// Whether the given voter already appears in the vote list.
pub fn vote_list_contains(votes: &Vec<Vote>, voter: &AccountId) -> (r: bool)
    ensures
        r == has_voted(votes@, *voter),
{
    let mut i: usize = 0;
    while i < votes.len()
        invariant
            0 <= i <= votes@.len(),
            forall|k: int| 0 <= k < i ==> votes@[k].voter != *voter,
        decreases votes@.len() - i,
    {
        if crate::ids::id_eq(&votes[i].voter, voter) {
            assert(votes@[i as int].voter == *voter);
            return true;
        }
        i += 1;
    }
    false
}

/// Counts the supporting votes; matches [`count_support`].
pub fn count_support_votes(votes: &Vec<Vote>) -> (r: usize)
    ensures
        r == count_support(votes@),
        r <= votes@.len(),
{
    let mut i: usize = 0;
    let mut acc: usize = 0;
    while i < votes.len()
        invariant
            0 <= i <= votes@.len(),
            acc == count_support(votes@.subrange(0, i as int)),
            acc <= i,
        decreases votes@.len() - i,
    {
        proof {
            assert(votes@.subrange(0, i + 1).drop_last() =~= votes@.subrange(0, i as int));
            assert(votes@.subrange(0, i + 1).last() == votes@[i as int]);
        }
        if votes[i].support {
            acc += 1;
        }
        i += 1;
    }
    proof {
        assert(votes@.subrange(0, votes@.len() as int) =~= votes@);
    }
    acc
}

/// Whether no voter appears twice in a vote list; matches [`votes_unique`].
pub fn all_voters_distinct(votes: &Vec<Vote>) -> (r: bool)
    ensures
        r == votes_unique(votes@),
{
    let mut i: usize = 0;
    while i < votes.len()
        invariant
            0 <= i <= votes@.len(),
            forall|x: int, y: int|
                #![trigger votes@[x].voter, votes@[y].voter]
                0 <= x < y < i ==> votes@[x].voter != votes@[y].voter,
        decreases votes@.len() - i,
    {
        let mut j: usize = 0;
        while j < i
            invariant
                0 <= j <= i < votes@.len(),
                forall|x: int, y: int|
                    #![trigger votes@[x].voter, votes@[y].voter]
                    0 <= x < y < i ==> votes@[x].voter != votes@[y].voter,
                forall|k: int| 0 <= k < j ==> votes@[k].voter != votes@[i as int].voter,
            decreases i - j,
        {
            if crate::ids::id_eq(&votes[j].voter, &votes[i].voter) {
                assert(votes@[j as int].voter == votes@[i as int].voter);
                return false;
            }
            j += 1;
        }
        i += 1;
    }
    true
}

/// What raising a dispute does: a new dispute is appended in `Open` status
/// with an empty vote list, its index the dispute count before the
/// operation.
pub open spec fn submit_dispute_model(
    pre: DaoView,
    initiator: AccountId,
    respondent: AccountId,
    description: Seq<u8>,
    related_claim: Option<u64>,
) -> (DaoView, Result<u64, DaoError>) {
    let d = DisputeView {
        dispute_id: pre.disputes.len() as u64,
        claim_id: related_claim,
        initiator,
        respondent,
        description,
        status: DisputeStatus::Open,
        votes: Seq::empty(),
    };
    (DaoView { disputes: pre.disputes.push(d), ..pre }, Ok(pre.disputes.len() as u64))
}

/// What one vote does: the dispute must still be `Open`; a voter may vote
/// at most once; the vote is appended, and the moment the vote count
/// exceeds the voting quorum the dispute closes within the same operation
/// and its outcome is computed from the votes.  The result carries
/// `Some(outcome)` when the vote closed the dispute (`true`: the initiator
/// prevails) and `None` while it stays open.
pub open spec fn cast_vote_model(
    pre: DaoView,
    dispute_index: u64,
    voter: AccountId,
    stance: bool,
) -> (DaoView, Result<Option<bool>, DaoError>) {
    if dispute_index >= pre.disputes.len() {
        (pre, Err(DaoError::NotFoundError))
    } else {
        let d = pre.disputes[dispute_index as int];
        if d.status != DisputeStatus::Open {
            (pre, Err(DaoError::InvalidStateError))
        } else if has_voted(d.votes, voter) {
            (pre, Err(DaoError::DuplicateError))
        } else {
            let vs = d.votes.push(Vote { voter, support: stance });
            if vs.len() > pre.q_vote {
                let d2 = DisputeView { status: DisputeStatus::Closed, votes: vs, ..d };
                (
                    DaoView { disputes: pre.disputes.update(dispute_index as int, d2), ..pre },
                    Ok(Some(favors_initiator(vs))),
                )
            } else {
                let d2 = DisputeView { votes: vs, ..d };
                (
                    DaoView { disputes: pre.disputes.update(dispute_index as int, d2), ..pre },
                    Ok(None),
                )
            }
        }
    }
}

impl HealthInsuranceDAO {
    /// Raises a new dispute, optionally linked to a claim.
    pub fn submit_dispute(
        &mut self,
        initiator: AccountId,
        respondent: AccountId,
        description: Vec<u8>,
        related_claim: Option<u64>,
    ) -> (r: Result<u64, DaoError>)
        requires
            old(self)@.wf(),
        ensures
            final(self)@ == submit_dispute_model(
                old(self)@,
                initiator,
                respondent,
                description@,
                related_claim,
            ).0,
            r == submit_dispute_model(
                old(self)@,
                initiator,
                respondent,
                description@,
                related_claim,
            ).1,
            final(self)@.wf(),
            claims_monotonic(old(self)@, final(self)@),
    {
        let dispute_id = self.disputes.len() as u64;
        let ghost desc_view = description@;
        let d = Dispute {
            dispute_id,
            claim_id: related_claim,
            initiator,
            respondent,
            description,
            status: DisputeStatus::Open,
            votes: Vec::new(),
        };
        self.disputes.push(d);
        proof {
            let post = submit_dispute_model(
                old(self)@,
                initiator,
                respondent,
                desc_view,
                related_claim,
            ).0;
            assert(self@.disputes =~= post.disputes);
            assert(self@ =~= post);
        }
        Ok(dispute_id)
    }

    /// Casts one member's vote on an open dispute.
    pub fn cast_vote(&mut self, dispute_index: u64, voter: AccountId, stance: bool) -> (r: Result<
        Option<bool>,
        DaoError,
    >)
        requires
            old(self)@.wf(),
        ensures
            final(self)@ == cast_vote_model(old(self)@, dispute_index, voter, stance).0,
            r == cast_vote_model(old(self)@, dispute_index, voter, stance).1,
            final(self)@.wf(),
            claims_monotonic(old(self)@, final(self)@),
    {
        if dispute_index >= self.disputes.len() as u64 {
            return Err(DaoError::NotFoundError);
        }
        let idx = dispute_index as usize;
        if !(self.disputes[idx].status == DisputeStatus::Open) {
            return Err(DaoError::InvalidStateError);
        }
        if vote_list_contains(&self.disputes[idx].votes, &voter) {
            return Err(DaoError::DuplicateError);
        }
        let q = self.q_vote;
        let d = &mut self.disputes[idx];
        d.votes.push(Vote { voter, support: stance });
        let closes = d.votes.len() > q;
        let outcome: Option<bool> = if closes {
            d.status = DisputeStatus::Closed;
            let agree = count_support_votes(&d.votes);
            let total = d.votes.len();
            Some(agree > total - agree)
        } else {
            None
        };
        proof {
            let post = cast_vote_model(old(self)@, dispute_index, voter, stance).0;
            assert(self@.disputes =~= post.disputes);
            assert(self@ =~= post);
            let dv = self@.disputes[dispute_index as int];
            assert forall|i: int, j: int|
                0 <= i < j < dv.votes.len() implies dv.votes[i].voter != dv.votes[j].voter by {
                let oldvs = old(self)@.disputes[dispute_index as int].votes;
                if j < oldvs.len() {
                    assert(oldvs[i].voter != oldvs[j].voter);
                } else {
                    assert(oldvs[i].voter != voter);
                }
            };
        }
        Ok(outcome)
    }
}

} // verus!
