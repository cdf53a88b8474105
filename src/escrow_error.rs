use vstd::prelude::*;

verus! {

/// Every way an escrow operation can be refused.
#[derive(Clone, Copy, Debug, PartialEq, Eq, Structural)]
pub enum ContractError {
    AlreadyInitialized,
    ReleaseTimeNotPassed,
    EscrowNotActive,
    EscrowAlreadyDisputed,
    EscrowNotDisputed,
    NotAdmin,
    NotBuyer,
    EscrowNotFound,
    InvalidAmount,
    InvalidReleaseTime,
}

} // verus!
