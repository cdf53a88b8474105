use vstd::prelude::*;

use crate::identity::Identity;

verus! {

/// A movement of tokens that an operation asks the token ledger to perform.
///
/// The ledger's transfer is atomic: when it fails, the whole operation that
/// asked for it is void, and nothing it wrote is kept.
#[derive(Debug)]
pub enum Transfer {
    /// Pulls `amount` of `token` from the account `from` into the contract's custody.
    Deposit { token: Identity, from: Identity, amount: u128 },
    /// Pays `amount` of `token` out of the contract's custody to the account `to`.
    Payout { token: Identity, to: Identity, amount: u128 },
}

} // verus!
