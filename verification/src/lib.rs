//! Verified core of a small token-ecosystem program pair: a staking pool with
//! time-weighted reward accrual and a scripted reallocation heuristic, and a
//! swap escrow with a dynamic burn plus a linear fee-discount staking rule.
//!
//! The host blockchain runtime owns account storage, signatures, derived-address
//! proofs and the token-transfer interface; this crate holds only the arithmetic
//! and the state transitions, stated over plain values. Every instruction
//! handler is a function from the stored records, the caller's inputs and the
//! current wall-clock seconds to the new records and the event the host emits;
//! the host performs the token transfers the event amounts call for and persists
//! the records only when all transfers succeeded.
use vstd::prelude::*;

pub mod staking;
pub mod swap;

verus! {

/// An opaque account identity: the host addresses every record by a
/// deterministic derived address; the core only stores and compares these keys.
pub type AccountKey = u64;

} // verus!
