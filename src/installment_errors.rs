use vstd::prelude::*;

verus! {

/// Every way an installment operation can be refused.
#[derive(Clone, Copy, Debug, PartialEq, Eq, Structural)]
pub enum ContractError {
    AlreadyInstantiated,
    InvalidAmount,
    DuplicateUsers,
    ArbitratorNotAllowed,
    InvalidTimestamp,
    InvalidAgreementId,
    NotAuthorized,
    AgreementNotFound,
    /// The seller has not accepted the agreement.
    NotAccepted,
    /// The seller has already accepted the agreement.
    AlreadyAccepted,
    AgreementCanceled,
    AgreementFinalized,
    /// The ledger's time has reached the agreement's deadline.
    DeadlinePassed,
    /// The payer's balance does not cover the payment.
    InsufficientBalance,
    /// The payments made do not yet cover the total amount.
    AmountNotMet,
}

} // verus!
