//! Structured decoding of the operation envelope.
//!
//! An envelope is an opcode byte followed by a fixed-layout payload:
//! little-endian fixed-width integers for numeric fields and length-implicit
//! trailing bytes for free text.  The decoder validates the length and every
//! field bound up front and yields a typed [`Operation`] or a
//! `ValidationError`; business logic never indexes into raw bytes.

use vstd::prelude::*;
use vstd::arithmetic::power::{lemma_pow_increases, pow};
use crate::errors::DaoError;
use crate::ids::AccountId;
use crate::membership::Role;
use crate::ops::{Operation, OperationView};

verus! {

broadcast use vstd::std_specs::vec::group_vec_axioms;

/// The unsigned integer held by a little-endian byte sequence.
pub open spec fn le_bytes_to_nat(s: Seq<u8>) -> nat
    decreases s.len(),
{
    if s.len() == 0 {
        0
    } else {
        (s[0] + 256 * le_bytes_to_nat(s.skip(1))) as nat
    }
}

/// A little-endian byte sequence is bounded by 256 to its length.
pub proof fn lemma_le_bytes_to_nat_bound(s: Seq<u8>)
    ensures
        le_bytes_to_nat(s) < pow(256, s.len()),
    decreases s.len(),
{
    if s.len() == 0 {
        assert(pow(256, 0nat) == 1) by {
            reveal(pow);
        };
    } else {
        lemma_le_bytes_to_nat_bound(s.skip(1));
        assert(s.skip(1).len() == s.len() - 1);
        let p = pow(256, (s.len() - 1) as nat);
        assert(pow(256, s.len()) == 256 * p) by {
            reveal(pow);
        };
        let rest = le_bytes_to_nat(s.skip(1));
        assert(le_bytes_to_nat(s) == (s[0] + 256 * rest) as nat);
        assert(rest <= p - 1);
        assert(256 * rest <= 256 * (p - 1));
        assert(le_bytes_to_nat(s) <= 255 + 256 * (p - 1));
    }
}

/// The signed integer held by eight little-endian bytes, in two's
/// complement.
pub open spec fn le_bytes_to_i64(s: Seq<u8>) -> int {
    let u = le_bytes_to_nat(s);
    if u < 0x8000000000000000 {
        u as int
    } else {
        u - 0x10000000000000000
    }
}

/// Reads `len` little-endian bytes (at most eight) at `offset`.
pub fn read_le(data: &Vec<u8>, offset: usize, len: usize) -> (r: u64)
    requires
        len <= 8,
        offset + len <= data@.len(),
    ensures
        r == le_bytes_to_nat(data@.subrange(offset as int, (offset + len) as int)),
        r < pow(256, len as nat),
{
    let n = data.len();
    let mut j: usize = len;
    let mut acc: u64 = 0;
    proof {
        assert(data@.subrange((offset + len) as int, (offset + len) as int).len() == 0);
        assert(pow(256, 0nat) == 1) by {
            reveal(pow);
        };
    }
    while j > 0
        invariant
            len <= 8,
            offset + len <= data@.len(),
            data@.len() == n,
            0 <= j <= len,
            acc == le_bytes_to_nat(data@.subrange((offset + j) as int, (offset + len) as int)),
            acc < pow(256, (len - j) as nat),
        decreases j,
    {
        proof {
            let k = (len - j) as nat;
            lemma_pow_increases(256, (k + 1) as nat, 8);
            assert(pow(256, 8) == 0x10000000000000000) by {
                reveal_with_fuel(pow, 9);
            };
            assert(pow(256, (k + 1) as nat) == 256 * pow(256, k)) by {
                reveal(pow);
            };
        }
        j = j - 1;
        let b = data[offset + j];
        acc = acc * 256 + (b as u64);
        proof {
            let s = data@.subrange((offset + j) as int, (offset + len) as int);
            assert(s.skip(1) =~= data@.subrange((offset + j + 1) as int, (offset + len) as int));
            assert(s[0] == data@[(offset + j) as int]);
        }
    }
    acc
}

/// Reads a little-endian `u64` at `offset`.
pub fn read_u64_le(data: &Vec<u8>, offset: usize) -> (r: u64)
    requires
        offset + 8 <= data@.len(),
    ensures
        r == le_bytes_to_nat(data@.subrange(offset as int, (offset + 8) as int)),
{
    read_le(data, offset, 8)
}

/// Reads a little-endian `u32` at `offset`.
pub fn read_u32_le(data: &Vec<u8>, offset: usize) -> (r: u32)
    requires
        offset + 4 <= data@.len(),
    ensures
        r == le_bytes_to_nat(data@.subrange(offset as int, (offset + 4) as int)),
{
    let v = read_le(data, offset, 4);
    proof {
        assert(pow(256, 4) == 0x100000000) by {
            reveal_with_fuel(pow, 5);
        };
    }
    v as u32
}

/// Reads a little-endian two's-complement `i64` at `offset`.
pub fn read_i64_le(data: &Vec<u8>, offset: usize) -> (r: i64)
    requires
        offset + 8 <= data@.len(),
    ensures
        r == le_bytes_to_i64(data@.subrange(offset as int, (offset + 8) as int)),
{
    let u = read_le(data, offset, 8);
    proof {
        assert(pow(256, 8) == 0x10000000000000000) by {
            reveal_with_fuel(pow, 9);
        };
    }
    if u < 0x8000000000000000 {
        u as i64
    } else {
        let m = u - 0x8000000000000000;
        (m as i64) + i64::MIN
    }
}

/// Copies `data[from..from + 32]` into a fresh 32-byte array.
pub fn read_hash(data: &Vec<u8>, from: usize) -> (r: [u8; 32])
    requires
        from + 32 <= data@.len(),
    ensures
        r@ == data@.subrange(from as int, (from + 32) as int),
{
    let n = data.len();
    let mut r: [u8; 32] = [0u8; 32];
    let mut i: usize = 0;
    while i < 32
        invariant
            from + 32 <= data@.len(),
            data@.len() == n,
            0 <= i <= 32,
            forall|k: int| 0 <= k < i ==> r@[k] == data@[from + k],
        decreases 32 - i,
    {
        r[i] = data[from + i];
        i += 1;
    }
    proof {
        assert(r@ =~= data@.subrange(from as int, (from + 32) as int));
    }
    r
}

/// Copies `data[from..]` into a fresh vector.
pub fn read_tail(data: &Vec<u8>, from: usize) -> (r: Vec<u8>)
    requires
        from <= data@.len(),
    ensures
        r@ == data@.subrange(from as int, data@.len() as int),
{
    let mut r: Vec<u8> = Vec::new();
    let mut i: usize = from;
    while i < data.len()
        invariant
            from <= i <= data@.len(),
            r@ == data@.subrange(from as int, i as int),
        decreases data@.len() - i,
    {
        let b = data[i];
        r.push(b);
        proof {
            assert(r@ =~= data@.subrange(from as int, (i + 1) as int));
        }
        i += 1;
    }
    r
}

/// Opcode: enroll a member.  Payload: role byte, 32-byte profile hash.
pub const OP_JOIN: u8 = 0;

/// Opcode: submit a claim.  Payload: amount (8 bytes), service date
/// (8 bytes), service type (remainder).
pub const OP_SUBMIT_CLAIM: u8 = 1;

/// Opcode: verify a claim.  Payload: claim index (8 bytes).
pub const OP_VERIFY_CLAIM: u8 = 2;

/// Opcode: pay out a claim.  Payload: claim index (8 bytes).
pub const OP_PAYOUT_CLAIM: u8 = 3;

/// Opcode: pay a premium.  Payload: amount (8 bytes).
pub const OP_PAY_PREMIUM: u8 = 4;

/// Opcode: upsert a risk profile.  Payload: risk score (1 byte), coverage
/// limit (8 bytes).
pub const OP_UPDATE_RISK_PROFILE: u8 = 5;

/// Opcode: set the reserve ratio.  Payload: ratio in basis points
/// (4 bytes); the typed operation validates the range.
pub const OP_SET_RESERVE_RATIO: u8 = 6;

/// Opcode: raise a dispute.  Payload: description (remainder).
pub const OP_SUBMIT_DISPUTE: u8 = 7;

/// Opcode: cast a vote.  Payload: dispute index (8 bytes), stance byte
/// (nonzero supports the initiator).
pub const OP_CAST_VOTE: u8 = 8;

/// The role byte accepted for self-service joining.
pub const ROLE_BYTE_MEMBER: u8 = 1;

/// Whether an envelope is well-formed: a known opcode followed by a payload
/// of the right shape.
pub open spec fn envelope_ok(bytes: Seq<u8>) -> bool {
    &&& bytes.len() > 0
    &&& if bytes[0] == OP_JOIN {
        bytes.len() == 34 && bytes[1] == ROLE_BYTE_MEMBER
    } else if bytes[0] == OP_SUBMIT_CLAIM {
        bytes.len() >= 17
    } else if bytes[0] == OP_VERIFY_CLAIM || bytes[0] == OP_PAYOUT_CLAIM || bytes[0]
        == OP_PAY_PREMIUM {
        bytes.len() == 9
    } else if bytes[0] == OP_UPDATE_RISK_PROFILE {
        bytes.len() == 10
    } else if bytes[0] == OP_SET_RESERVE_RATIO {
        bytes.len() == 5
    } else if bytes[0] == OP_SUBMIT_DISPUTE {
        true
    } else if bytes[0] == OP_CAST_VOTE {
        bytes.len() == 10
    } else {
        false
    }
}

/// How a decoded operation relates to the envelope it came from and to the
/// acting parties resolved by the dispatcher: the variant is the one of the
/// envelope's opcode and every field holds exactly the payload's value.
pub open spec fn decoded_op(
    bytes: Seq<u8>,
    actor: AccountId,
    counterparty: AccountId,
    op: OperationView,
) -> bool {
    match op {
        OperationView::Join { candidate, role, profile_hash } => {
            &&& bytes[0] == OP_JOIN
            &&& candidate == actor
            &&& role == Role::Member
            &&& profile_hash@ == bytes.subrange(2, 34)
        },
        OperationView::SubmitClaim {
            member,
            provider,
            amount,
            service_date,
            service_type,
            zkp_proof,
        } => {
            &&& bytes[0] == OP_SUBMIT_CLAIM
            &&& member == actor
            &&& provider == counterparty
            &&& amount == le_bytes_to_nat(bytes.subrange(1, 9))
            &&& service_date == le_bytes_to_i64(bytes.subrange(9, 17))
            &&& service_type == bytes.subrange(17, bytes.len() as int)
            &&& zkp_proof is None
        },
        OperationView::VerifyClaim { claim_index, verifier } => {
            &&& bytes[0] == OP_VERIFY_CLAIM
            &&& claim_index == le_bytes_to_nat(bytes.subrange(1, 9))
            &&& verifier == actor
        },
        OperationView::PayoutClaim { claim_index } => {
            &&& bytes[0] == OP_PAYOUT_CLAIM
            &&& claim_index == le_bytes_to_nat(bytes.subrange(1, 9))
        },
        OperationView::PayPremium { payer, amount } => {
            &&& bytes[0] == OP_PAY_PREMIUM
            &&& payer == actor
            &&& amount == le_bytes_to_nat(bytes.subrange(1, 9))
        },
        OperationView::UpdateRiskProfile { risk_score, coverage_limit } => {
            &&& bytes[0] == OP_UPDATE_RISK_PROFILE
            &&& risk_score == bytes[1]
            &&& coverage_limit == le_bytes_to_nat(bytes.subrange(2, 10))
        },
        OperationView::SetReserveRatio { caller, ratio_bps } => {
            &&& bytes[0] == OP_SET_RESERVE_RATIO
            &&& caller == actor
            &&& ratio_bps == le_bytes_to_nat(bytes.subrange(1, 5))
        },
        OperationView::SubmitDispute { initiator, respondent, description, related_claim } => {
            &&& bytes[0] == OP_SUBMIT_DISPUTE
            &&& initiator == actor
            &&& respondent == counterparty
            &&& description == bytes.subrange(1, bytes.len() as int)
            &&& related_claim is None
        },
        OperationView::CastVote { dispute_index, voter, stance } => {
            &&& bytes[0] == OP_CAST_VOTE
            &&& dispute_index == le_bytes_to_nat(bytes.subrange(1, 9))
            &&& voter == actor
            &&& stance == (bytes[9] != 0)
        },
    }
}

/// Decodes one operation envelope.  `actor` is the authenticated caller
/// resolved by the dispatcher, and `counterparty` the second party an
/// opcode may involve (the provider of a claim, the respondent of a
/// dispute).  Every length and field bound is validated here; a malformed
/// envelope is rejected whole.
pub fn decode_operation(data: &Vec<u8>, actor: AccountId, counterparty: AccountId) -> (r: Result<
    Operation,
    DaoError,
>)
    ensures
        r is Ok <==> envelope_ok(data@),
        (r matches Ok(op) ==> decoded_op(data@, actor, counterparty, op@)),
        r is Err ==> r == Err::<Operation, DaoError>(DaoError::ValidationError),
{
    if data.len() == 0 {
        return Err(DaoError::ValidationError);
    }
    let opcode = data[0];
    if opcode == OP_JOIN {
        if data.len() != 34 {
            return Err(DaoError::ValidationError);
        }
        if data[1] != ROLE_BYTE_MEMBER {
            return Err(DaoError::ValidationError);
        }
        let profile_hash = read_hash(data, 2);
        Ok(Operation::Join { candidate: actor, role: Role::Member, profile_hash })
    } else if opcode == OP_SUBMIT_CLAIM {
        if data.len() < 17 {
            return Err(DaoError::ValidationError);
        }
        let amount = read_u64_le(data, 1);
        let service_date = read_i64_le(data, 9);
        let service_type = read_tail(data, 17);
        Ok(Operation::SubmitClaim {
            member: actor,
            provider: counterparty,
            amount,
            service_date,
            service_type,
            zkp_proof: None,
        })
    } else if opcode == OP_VERIFY_CLAIM {
        if data.len() != 9 {
            return Err(DaoError::ValidationError);
        }
        let claim_index = read_u64_le(data, 1);
        Ok(Operation::VerifyClaim { claim_index, verifier: actor })
    } else if opcode == OP_PAYOUT_CLAIM {
        if data.len() != 9 {
            return Err(DaoError::ValidationError);
        }
        let claim_index = read_u64_le(data, 1);
        Ok(Operation::PayoutClaim { claim_index })
    } else if opcode == OP_PAY_PREMIUM {
        if data.len() != 9 {
            return Err(DaoError::ValidationError);
        }
        let amount = read_u64_le(data, 1);
        Ok(Operation::PayPremium { payer: actor, amount })
    } else if opcode == OP_UPDATE_RISK_PROFILE {
        if data.len() != 10 {
            return Err(DaoError::ValidationError);
        }
        let risk_score = data[1];
        let coverage_limit = read_u64_le(data, 2);
        Ok(Operation::UpdateRiskProfile { risk_score, coverage_limit })
    } else if opcode == OP_SET_RESERVE_RATIO {
        if data.len() != 5 {
            return Err(DaoError::ValidationError);
        }
        let ratio_bps = read_u32_le(data, 1);
        Ok(Operation::SetReserveRatio { caller: actor, ratio_bps })
    } else if opcode == OP_SUBMIT_DISPUTE {
        let description = read_tail(data, 1);
        Ok(Operation::SubmitDispute {
            initiator: actor,
            respondent: counterparty,
            description,
            related_claim: None,
        })
    } else if opcode == OP_CAST_VOTE {
        if data.len() != 10 {
            return Err(DaoError::ValidationError);
        }
        let dispute_index = read_u64_le(data, 1);
        let stance = data[9] != 0;
        Ok(Operation::CastVote { dispute_index, voter: actor, stance })
    } else {
        Err(DaoError::ValidationError)
    }
}

} // verus!
