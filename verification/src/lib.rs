//! Ledger state machine for a mutual health-insurance pool run by a DAO.
//!
//! Members join a shared registry, submit claims against medical events,
//! claims are approved by a quorum of independent verifiers, payouts are
//! gated by a risk-adjusted treasury with a reserve requirement, and
//! disagreements are resolved by majority member voting.  Every operation
//! applies atomically to one [`dao::HealthInsuranceDAO`] aggregate and
//! preserves its well-formedness invariant.

pub mod claims;
pub mod codec;
pub mod dao;
pub mod disputes;
pub mod errors;
pub mod ids;
pub mod laws;
pub mod membership;
pub mod ops;
pub mod treasury;
