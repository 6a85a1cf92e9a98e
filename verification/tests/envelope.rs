use health_insurance_dao::claims::ClaimStatus;
use health_insurance_dao::codec::decode_operation;
use health_insurance_dao::dao::HealthInsuranceDAO;
use health_insurance_dao::errors::DaoError;
use health_insurance_dao::ids::AccountId;
use health_insurance_dao::membership::Role;
use health_insurance_dao::ops::{OpReceipt, Operation};

fn id(tag: u8) -> AccountId {
    AccountId::new([tag; 32])
}

#[test]
fn decode_join_envelope() {
    let actor = id(1);
    let mut data = vec![0u8, 1u8]; // opcode Join, role byte Member
    data.extend([0xCDu8; 32]); // profile hash
    let op = decode_operation(&data, actor, id(0)).unwrap();
    match op {
        Operation::Join { candidate, role, profile_hash } => {
            assert_eq!(candidate, actor);
            assert_eq!(role, Role::Member);
            assert_eq!(profile_hash, [0xCDu8; 32]);
        }
        _ => panic!("expected a join operation"),
    }

    // A role byte other than Member is rejected.
    let mut bad = vec![0u8, 2u8];
    bad.extend([0u8; 32]);
    assert_eq!(decode_operation(&bad, actor, id(0)), Err(DaoError::ValidationError));

    // A truncated payload is rejected.
    assert_eq!(decode_operation(&vec![0u8, 1u8], actor, id(0)), Err(DaoError::ValidationError));
}

#[test]
fn decode_submit_claim_envelope() {
    let actor = id(1);
    let provider = id(9);
    let mut data = vec![1u8];
    data.extend(1000u64.to_le_bytes()); // amount
    data.extend((-86400i64).to_le_bytes()); // service date before the epoch
    data.extend(b"dental");
    let op = decode_operation(&data, actor, provider).unwrap();
    match op {
        Operation::SubmitClaim { member, provider: p, amount, service_date, service_type, zkp_proof } => {
            assert_eq!(member, actor);
            assert_eq!(p, provider);
            assert_eq!(amount, 1000);
            assert_eq!(service_date, -86400);
            assert_eq!(service_type, b"dental".to_vec());
            assert_eq!(zkp_proof, None);
        }
        _ => panic!("expected a claim submission"),
    }

    // Too short for the two fixed fields.
    assert_eq!(decode_operation(&vec![1u8; 16], actor, provider), Err(DaoError::ValidationError));
}

#[test]
fn decode_numeric_envelopes() {
    let actor = id(1);
    let mut data = vec![2u8];
    data.extend(3u64.to_le_bytes());
    assert!(matches!(
        decode_operation(&data, actor, id(0)),
        Ok(Operation::VerifyClaim { claim_index: 3, .. })
    ));

    let mut data = vec![3u8];
    data.extend(0x0102030405060708u64.to_le_bytes());
    assert!(matches!(
        decode_operation(&data, actor, id(0)),
        Ok(Operation::PayoutClaim { claim_index: 0x0102030405060708 })
    ));

    let mut data = vec![4u8];
    data.extend(25u64.to_le_bytes());
    assert!(matches!(
        decode_operation(&data, actor, id(0)),
        Ok(Operation::PayPremium { amount: 25, .. })
    ));

    let mut data = vec![5u8, 7u8];
    data.extend(8000u64.to_le_bytes());
    assert!(matches!(
        decode_operation(&data, actor, id(0)),
        Ok(Operation::UpdateRiskProfile { risk_score: 7, coverage_limit: 8000 })
    ));

    let mut data = vec![6u8];
    data.extend(2000u32.to_le_bytes());
    assert!(matches!(
        decode_operation(&data, actor, id(0)),
        Ok(Operation::SetReserveRatio { ratio_bps: 2000, .. })
    ));

    let mut data = vec![8u8];
    data.extend(0u64.to_le_bytes());
    data.push(1u8);
    assert!(matches!(
        decode_operation(&data, actor, id(0)),
        Ok(Operation::CastVote { dispute_index: 0, stance: true, .. })
    ));

    // An unknown opcode is rejected, as is an empty envelope.
    assert_eq!(decode_operation(&vec![99u8], actor, id(0)), Err(DaoError::ValidationError));
    assert_eq!(decode_operation(&vec![], actor, id(0)), Err(DaoError::ValidationError));
}

#[test]
fn apply_decoded_operations_end_to_end() {
    // Drive the aggregate through the byte interface alone: join, fund,
    // configure, claim, verify twice, and pay out.
    let admin = id(0xAD);
    let mut dao = HealthInsuranceDAO::new(admin);
    let member = id(7);
    let provider = id(9);

    let mut join = vec![0u8, 1u8];
    join.extend([0u8; 32]);
    let op = decode_operation(&join, member, id(0)).unwrap();
    assert_eq!(dao.apply_operation(op, 1_700_000_000), Ok(OpReceipt::Accepted));

    let mut premium = vec![4u8];
    premium.extend(10_000u64.to_le_bytes());
    let op = decode_operation(&premium, member, id(0)).unwrap();
    dao.apply_operation(op, 0).unwrap();

    let mut ratio = vec![6u8];
    ratio.extend(2000u32.to_le_bytes());
    let op = decode_operation(&ratio, admin, id(0)).unwrap();
    dao.apply_operation(op, 0).unwrap();

    let mut profile = vec![5u8, 7u8];
    profile.extend(8000u64.to_le_bytes());
    let op = decode_operation(&profile, admin, id(0)).unwrap();
    dao.apply_operation(op, 0).unwrap();

    let mut claim = vec![1u8];
    claim.extend(7500u64.to_le_bytes());
    claim.extend(86400i64.to_le_bytes());
    claim.extend(b"surgery");
    let op = decode_operation(&claim, member, provider).unwrap();
    assert_eq!(dao.apply_operation(op, 0), Ok(OpReceipt::ClaimCreated { claim_index: 0 }));

    let mut verify = vec![2u8];
    verify.extend(0u64.to_le_bytes());
    let op = decode_operation(&verify, id(11), id(0)).unwrap();
    assert_eq!(
        dao.apply_operation(op, 0),
        Ok(OpReceipt::VerificationRecorded { verified: false })
    );
    let op = decode_operation(&verify, id(12), id(0)).unwrap();
    assert_eq!(
        dao.apply_operation(op, 0),
        Ok(OpReceipt::VerificationRecorded { verified: true })
    );

    let mut payout = vec![3u8];
    payout.extend(0u64.to_le_bytes());
    let op = decode_operation(&payout, member, id(0)).unwrap();
    assert_eq!(dao.apply_operation(op, 0), Ok(OpReceipt::Accepted));
    assert_eq!(dao.treasury.balance, 2_500);
    assert_eq!(dao.claims[0].status, ClaimStatus::Paid);
}

#[test]
fn apply_dispute_operations_end_to_end() {
    let admin = id(0xAD);
    let mut dao = HealthInsuranceDAO::new(admin);

    let mut submit = vec![7u8];
    submit.extend(b"billing disagreement");
    let op = decode_operation(&submit, id(1), id(2)).unwrap();
    assert_eq!(dao.apply_operation(op, 0), Ok(OpReceipt::DisputeCreated { dispute_index: 0 }));
    assert_eq!(dao.disputes[0].description, b"billing disagreement".to_vec());

    for (k, stance) in [(10u8, 1u8), (11, 1), (12, 1), (13, 0), (14, 0)] {
        let mut vote = vec![8u8];
        vote.extend(0u64.to_le_bytes());
        vote.push(stance);
        let op = decode_operation(&vote, id(k), id(0)).unwrap();
        assert_eq!(dao.apply_operation(op, 0), Ok(OpReceipt::VoteRecorded { outcome: None }));
    }
    // The sixth vote closes the dispute: a 3-3 tie favors the respondent.
    let mut vote = vec![8u8];
    vote.extend(0u64.to_le_bytes());
    vote.push(0u8);
    let op = decode_operation(&vote, id(15), id(0)).unwrap();
    assert_eq!(
        dao.apply_operation(op, 0),
        Ok(OpReceipt::VoteRecorded { outcome: Some(false) })
    );
}
