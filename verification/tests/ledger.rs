use health_insurance_dao::claims::ClaimStatus;
use health_insurance_dao::dao::HealthInsuranceDAO;
use health_insurance_dao::disputes::DisputeStatus;
use health_insurance_dao::errors::DaoError;
use health_insurance_dao::ids::AccountId;
use health_insurance_dao::membership::Role;

fn id(tag: u8) -> AccountId {
    AccountId::new([tag; 32])
}

fn dao_with_admin() -> (HealthInsuranceDAO, AccountId) {
    let admin = id(0xAD);
    (HealthInsuranceDAO::new(admin), admin)
}

#[test]
fn test_join_dao() {
    let (mut dao, _) = dao_with_admin();
    let member = id(1);
    assert_eq!(dao.join(member, Role::Member, [0u8; 32], 1_700_000_000), Ok(()));
    assert_eq!(dao.members.len(), 1);
    assert_eq!(dao.members[0].member_address, member);
    assert_eq!(dao.members[0].joined_timestamp, 1_700_000_000);
    assert_eq!(dao.members[0].role, Role::Member);

    // The same identifier cannot join twice.
    assert_eq!(
        dao.join(member, Role::Member, [0u8; 32], 1_700_000_001),
        Err(DaoError::DuplicateError)
    );
    assert_eq!(dao.members.len(), 1);

    // Admin and Verifier roles are not self-service.
    assert_eq!(
        dao.join(id(2), Role::Admin, [0u8; 32], 1_700_000_002),
        Err(DaoError::ValidationError)
    );
}

#[test]
fn test_submit_claim_requires_membership() {
    let (mut dao, _) = dao_with_admin();
    assert_eq!(
        dao.submit_claim(id(1), id(9), 500, 0, b"dental".to_vec(), None),
        Err(DaoError::UnauthorizedError)
    );

    dao.join(id(1), Role::Member, [0u8; 32], 0).unwrap();
    // An empty validity proof fails the external proof predicate.
    assert_eq!(
        dao.submit_claim(id(1), id(9), 500, 0, b"dental".to_vec(), Some(vec![])),
        Err(DaoError::ValidationError)
    );
    // A non-empty proof passes.
    assert_eq!(dao.submit_claim(id(1), id(9), 500, 0, b"dental".to_vec(), Some(vec![1])), Ok(0));
    assert_eq!(dao.claims.len(), 1);
    assert_eq!(dao.claims[0].claim_id, 0);
    assert_eq!(dao.claims[0].status, ClaimStatus::Pending);
    assert!(dao.claims[0].verifiers.is_empty());
}

#[test]
fn scenario_two_verifications_verify_claim() {
    // Join member M; submit a claim of 1000 for "dental"; two distinct
    // verifiers approve it; a third attempt fails InvalidStateError.
    let (mut dao, _) = dao_with_admin();
    let m = id(1);
    dao.join(m, Role::Member, [0u8; 32], 0).unwrap();
    let claim_index = dao.submit_claim(m, id(9), 1000, 42, b"dental".to_vec(), None).unwrap();
    assert_eq!(claim_index, 0);

    assert_eq!(dao.verify_claim(0, id(11)), Ok(false));
    assert_eq!(dao.claims[0].status, ClaimStatus::Pending);
    assert_eq!(dao.verify_claim(0, id(12)), Ok(true));
    assert_eq!(dao.claims[0].status, ClaimStatus::Verified);
    assert_eq!(dao.claims[0].verifiers.len(), 2);

    assert_eq!(dao.verify_claim(0, id(13)), Err(DaoError::InvalidStateError));
}

#[test]
fn verify_claim_rejects_duplicates_and_unknown_indexes() {
    let (mut dao, _) = dao_with_admin();
    dao.join(id(1), Role::Member, [0u8; 32], 0).unwrap();
    dao.submit_claim(id(1), id(9), 1000, 0, b"optics".to_vec(), None).unwrap();

    assert_eq!(dao.verify_claim(7, id(11)), Err(DaoError::NotFoundError));
    assert_eq!(dao.verify_claim(0, id(11)), Ok(false));
    assert_eq!(dao.verify_claim(0, id(11)), Err(DaoError::DuplicateError));
    assert_eq!(dao.claims[0].verifiers.len(), 1);
}

#[test]
fn reject_claim_only_from_pending() {
    let (mut dao, _) = dao_with_admin();
    dao.join(id(1), Role::Member, [0u8; 32], 0).unwrap();
    dao.submit_claim(id(1), id(9), 1000, 0, b"dental".to_vec(), None).unwrap();
    dao.submit_claim(id(1), id(9), 2000, 0, b"dental".to_vec(), None).unwrap();

    assert_eq!(dao.reject_claim(9), Err(DaoError::NotFoundError));
    assert_eq!(dao.reject_claim(0), Ok(()));
    assert_eq!(dao.claims[0].status, ClaimStatus::Rejected);
    // Rejected is terminal.
    assert_eq!(dao.reject_claim(0), Err(DaoError::InvalidStateError));
    assert_eq!(dao.verify_claim(0, id(11)), Err(DaoError::InvalidStateError));

    // A verified claim cannot be rejected either.
    dao.verify_claim(1, id(11)).unwrap();
    dao.verify_claim(1, id(12)).unwrap();
    assert_eq!(dao.reject_claim(1), Err(DaoError::InvalidStateError));
}

#[test]
fn test_premium_payment() {
    let (mut dao, _) = dao_with_admin();
    assert_eq!(dao.pay_premium(id(5), 10_000), Ok(()));
    assert_eq!(dao.treasury.balance, 10_000);
    assert_eq!(dao.pay_premium(id(5), 250), Ok(()));
    assert_eq!(dao.treasury.balance, 10_250);

    // Overflowing the balance fails and changes nothing.
    assert_eq!(dao.pay_premium(id(5), u64::MAX), Err(DaoError::ArithmeticOverflowError));
    assert_eq!(dao.treasury.balance, 10_250);
}

/// Sets up scenario B's treasury: balance 10000, reserve ratio one fifth
/// (2000 basis points, so the required reserve is 2000), and a verified
/// claim of `amount` for a member in bucket 7 with coverage limit `limit`.
fn payout_setup(amount: u64, limit: u64) -> HealthInsuranceDAO {
    let admin = id(0xAD);
    let mut dao = HealthInsuranceDAO::new(admin);
    let member = id(7); // bucket: 7 % 100 == 7
    dao.join(member, Role::Member, [0u8; 32], 0).unwrap();
    dao.pay_premium(member, 10_000).unwrap();
    dao.set_reserve_ratio(admin, 2_000).unwrap();
    dao.update_risk_profile(7, limit).unwrap();
    dao.submit_claim(member, id(9), amount, 0, b"surgery".to_vec(), None).unwrap();
    dao.verify_claim(0, id(11)).unwrap();
    dao.verify_claim(0, id(12)).unwrap();
    dao
}

#[test]
fn test_claim_payout() {
    // Scenario B: balance 10000, reserve 2000; claim 7500 within coverage
    // limit 8000 succeeds and leaves 2500.
    let mut dao = payout_setup(7_500, 8_000);
    assert_eq!(dao.payout_claim(0), Ok(()));
    assert_eq!(dao.treasury.balance, 2_500);
    assert_eq!(dao.claims[0].status, ClaimStatus::Paid);

    // Paid is terminal: a second payout fails and changes nothing.
    assert_eq!(dao.payout_claim(0), Err(DaoError::InvalidStateError));
    assert_eq!(dao.treasury.balance, 2_500);
}

#[test]
fn scenario_payout_checks_coverage_before_reserve() {
    // Scenario C: claim 8500 exceeds the coverage limit 8000, so the
    // coverage check fails first, before the reserve is even considered.
    let mut dao = payout_setup(8_500, 8_000);
    assert_eq!(dao.payout_claim(0), Err(DaoError::LimitExceededError));
    assert_eq!(dao.treasury.balance, 10_000);
    assert_eq!(dao.claims[0].status, ClaimStatus::Verified);

    // With coverage out of the way the same claim breaches the reserve:
    // it would leave 1500, below the required 2000.
    let mut dao = payout_setup(8_500, 9_000);
    assert_eq!(dao.payout_claim(0), Err(DaoError::InsufficientFundsError));
    assert_eq!(dao.treasury.balance, 10_000);
    assert_eq!(dao.claims[0].status, ClaimStatus::Verified);
}

#[test]
fn payout_requires_profile_and_verified_status() {
    let (mut dao, admin) = dao_with_admin();
    let member = id(7);
    dao.join(member, Role::Member, [0u8; 32], 0).unwrap();
    dao.pay_premium(member, 10_000).unwrap();
    dao.set_reserve_ratio(admin, 0).unwrap();
    dao.submit_claim(member, id(9), 100, 0, b"dental".to_vec(), None).unwrap();

    assert_eq!(dao.payout_claim(3), Err(DaoError::NotFoundError));
    // Still pending: payout is attempted only from Verified.
    assert_eq!(dao.payout_claim(0), Err(DaoError::InvalidStateError));

    dao.verify_claim(0, id(11)).unwrap();
    dao.verify_claim(0, id(12)).unwrap();
    // No risk profile for bucket 7 yet.
    assert_eq!(dao.payout_claim(0), Err(DaoError::NotFoundError));

    dao.update_risk_profile(7, 8_000).unwrap();
    assert_eq!(dao.payout_claim(0), Ok(()));
    assert_eq!(dao.treasury.balance, 9_900);
}

#[test]
fn premium_then_payout_round_trips_the_balance() {
    // The round-trip law on concrete values: pay a premium of 7500, pay
    // out a verified claim of 7500, and the balance is back where it was.
    let admin = id(0xAD);
    let mut dao = HealthInsuranceDAO::new(admin);
    let member = id(7);
    dao.join(member, Role::Member, [0u8; 32], 0).unwrap();
    dao.pay_premium(member, 1_000).unwrap();
    dao.update_risk_profile(7, 8_000).unwrap();
    dao.submit_claim(member, id(9), 7_500, 0, b"dental".to_vec(), None).unwrap();
    dao.verify_claim(0, id(11)).unwrap();
    dao.verify_claim(0, id(12)).unwrap();

    let before = dao.treasury.balance;
    dao.pay_premium(member, 7_500).unwrap();
    assert_eq!(dao.payout_claim(0), Ok(()));
    assert_eq!(dao.treasury.balance, before);
}

#[test]
fn update_risk_profile_upserts_by_bucket() {
    let (mut dao, _) = dao_with_admin();
    assert_eq!(dao.update_risk_profile(7, 8_000), Ok(()));
    assert_eq!(dao.update_risk_profile(9, 500), Ok(()));
    assert_eq!(dao.risk_profiles.len(), 2);

    // The latest update of a bucket wins; no second entry appears.
    assert_eq!(dao.update_risk_profile(7, 12_000), Ok(()));
    assert_eq!(dao.risk_profiles.len(), 2);
    assert_eq!(dao.risk_profiles[0].risk_score, 7);
    assert_eq!(dao.risk_profiles[0].coverage_limit, 12_000);
}

#[test]
fn set_reserve_ratio_is_admin_only_and_bounded() {
    let (mut dao, admin) = dao_with_admin();
    assert_eq!(dao.set_reserve_ratio(id(1), 1_000), Err(DaoError::UnauthorizedError));
    assert_eq!(dao.treasury.reserve_ratio_bps, 0);

    // A ratio above one (10000 basis points) is rejected.
    assert_eq!(dao.set_reserve_ratio(admin, 10_001), Err(DaoError::ValidationError));
    assert_eq!(dao.set_reserve_ratio(admin, 10_000), Ok(()));
    assert_eq!(dao.treasury.reserve_ratio_bps, 10_000);
}

#[test]
fn test_dispute_submission() {
    let (mut dao, _) = dao_with_admin();
    let got = dao.submit_dispute(id(1), id(2), b"billing disagreement".to_vec(), Some(0));
    assert_eq!(got, Ok(0));
    assert_eq!(dao.disputes.len(), 1);
    assert_eq!(dao.disputes[0].dispute_id, 0);
    assert_eq!(dao.disputes[0].claim_id, Some(0));
    assert_eq!(dao.disputes[0].initiator, id(1));
    assert_eq!(dao.disputes[0].respondent, id(2));
    assert_eq!(dao.disputes[0].status, DisputeStatus::Open);
    assert!(dao.disputes[0].votes.is_empty());

    assert_eq!(dao.submit_dispute(id(3), id(4), b"second".to_vec(), None), Ok(1));
    assert_eq!(dao.disputes[1].dispute_id, 1);
}

#[test]
fn test_voting_on_dispute() {
    let (mut dao, _) = dao_with_admin();
    dao.submit_dispute(id(1), id(2), b"coverage".to_vec(), None).unwrap();

    assert_eq!(dao.cast_vote(5, id(10), true), Err(DaoError::NotFoundError));
    assert_eq!(dao.cast_vote(0, id(10), true), Ok(None));
    assert_eq!(dao.cast_vote(0, id(10), false), Err(DaoError::DuplicateError));
    assert_eq!(dao.disputes[0].votes.len(), 1);

    // Five votes keep the dispute open (the count must exceed 5)...
    for k in 11..15 {
        assert_eq!(dao.cast_vote(0, id(k), true), Ok(None));
    }
    assert_eq!(dao.disputes[0].status, DisputeStatus::Open);

    // ...and the sixth closes it: 5 of 6 support the initiator.
    assert_eq!(dao.cast_vote(0, id(15), false), Ok(Some(true)));
    assert_eq!(dao.disputes[0].status, DisputeStatus::Closed);

    // No further vote on a closed dispute succeeds.
    assert_eq!(dao.cast_vote(0, id(16), true), Err(DaoError::InvalidStateError));
    assert_eq!(dao.disputes[0].votes.len(), 6);
}

#[test]
fn scenario_tied_vote_favors_respondent() {
    // Scenario D: three votes support, three oppose; six votes exceed the
    // quorum of five, the dispute closes, and the exact tie resolves
    // against the initiator.
    let (mut dao, _) = dao_with_admin();
    dao.submit_dispute(id(1), id(2), b"contested payout".to_vec(), None).unwrap();
    assert_eq!(dao.cast_vote(0, id(10), true), Ok(None));
    assert_eq!(dao.cast_vote(0, id(11), true), Ok(None));
    assert_eq!(dao.cast_vote(0, id(12), true), Ok(None));
    assert_eq!(dao.cast_vote(0, id(13), false), Ok(None));
    assert_eq!(dao.cast_vote(0, id(14), false), Ok(None));
    assert_eq!(dao.cast_vote(0, id(15), false), Ok(Some(false)));
    assert_eq!(dao.disputes[0].status, DisputeStatus::Closed);
}

#[test]
fn claim_status_never_moves_backward() {
    // One claim driven through its whole lifecycle: the observed statuses
    // only ever move forward along Pending -> Verified -> Paid.
    let admin = id(0xAD);
    let mut dao = HealthInsuranceDAO::new(admin);
    let member = id(7);
    dao.join(member, Role::Member, [0u8; 32], 0).unwrap();
    dao.pay_premium(member, 10_000).unwrap();
    dao.update_risk_profile(7, 8_000).unwrap();
    dao.submit_claim(member, id(9), 100, 0, b"dental".to_vec(), None).unwrap();
    assert_eq!(dao.claims[0].status, ClaimStatus::Pending);

    dao.verify_claim(0, id(11)).unwrap();
    assert_eq!(dao.claims[0].status, ClaimStatus::Pending);
    dao.verify_claim(0, id(12)).unwrap();
    assert_eq!(dao.claims[0].status, ClaimStatus::Verified);

    // Nothing can take it back to Pending: re-verification and rejection
    // both fail.
    assert_eq!(dao.verify_claim(0, id(13)), Err(DaoError::InvalidStateError));
    assert_eq!(dao.reject_claim(0), Err(DaoError::InvalidStateError));

    dao.payout_claim(0).unwrap();
    assert_eq!(dao.claims[0].status, ClaimStatus::Paid);
    assert_eq!(dao.payout_claim(0), Err(DaoError::InvalidStateError));
    assert_eq!(dao.claims[0].status, ClaimStatus::Paid);
}
