//! Custodial payment agreements between a buyer and a seller, as verified
//! state machines: a single-transfer escrow with dispute arbitration, and an
//! installment agreement with accumulated payments and finalization.
//!
//! Operations take the already-authenticated caller and the ledger's time as
//! plain values, update the contract's store, and return the token transfer
//! that the host must perform; a failed transfer voids the whole operation.

pub mod custody;
pub mod escrow_contract;
pub mod escrow_error;
pub mod escrow_logic;
pub mod escrow_storage;
pub mod identity;
pub mod installment;
pub mod installment_contracts;
pub mod installment_errors;
pub mod installment_storage;
