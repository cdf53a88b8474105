use vstd::prelude::*;

use crate::custody::Transfer;
use crate::escrow_error::ContractError;
use crate::escrow_logic::{
    self, can_release, confirm_receipt_outcome, dispute_escrow_outcome, new_escrow,
    records_evolve, release_funds_outcome, replaced, resolve_outcome,
};
use crate::escrow_storage::{self, AutoReleaseEscrowContract, Escrow, EscrowStatus};
use crate::identity::Identity;

verus! {

/// The entry points of the escrow contract. Each caller identity passed in is
/// one whose authorization the host has already checked; `now` is the
/// ledger's time.
impl AutoReleaseEscrowContract {
    /// Gives the contract its admin; refused once it has one.
    pub fn initialize(&mut self, admin: Identity) -> (r: Result<(), ContractError>)
        requires
            old(self).wf(),
        ensures
            final(self).wf(),
            old(self).admin_slot() is Some ==> r == Err::<(), ContractError>(
                ContractError::AlreadyInitialized,
            ) && *final(self) == *old(self),
            old(self).admin_slot() is None ==> r is Ok && final(self).admin_slot() == Some(admin)
                && final(self).records() == old(self).records(),
    {
        escrow_logic::initialize(self, admin)
    }

    /// The current admin hands the admin role to `new_admin`.
    pub fn set_admin(&mut self, admin: &Identity, new_admin: Identity) -> (r: Result<
        (),
        ContractError,
    >)
        requires
            old(self).wf(),
        ensures
            final(self).wf(),
            !old(self).admin_is(*admin) ==> r == Err::<(), ContractError>(ContractError::NotAdmin)
                && *final(self) == *old(self),
            old(self).admin_is(*admin) ==> r is Ok && final(self).admin_slot() == Some(new_admin)
                && final(self).records() == old(self).records(),
    {
        escrow_logic::set_admin(self, admin, new_admin)
    }

    /// Opens an escrow and returns its id with the deposit that locks the funds.
    pub fn create_escrow(
        &mut self,
        buyer: Identity,
        seller: Identity,
        amount: i128,
        payment_token: Identity,
        release_timestamp: u64,
        now: u64,
    ) -> (r: Result<(u64, Transfer), ContractError>)
        requires
            old(self).wf(),
            old(self).counter() < u64::MAX,
        ensures
            final(self).wf(),
            records_evolve(old(self).records(), final(self).records()),
            amount <= 0 ==> r == Err::<(u64, Transfer), ContractError>(
                ContractError::InvalidAmount,
            ) && *final(self) == *old(self),
            amount > 0 && release_timestamp <= now ==> r == Err::<(u64, Transfer), ContractError>(
                ContractError::InvalidReleaseTime,
            ) && *final(self) == *old(self),
            amount > 0 && release_timestamp > now ==> {
                let id = (old(self).records().len() + 1) as u64;
                &&& r == Ok::<(u64, Transfer), ContractError>(
                    (
                        id,
                        Transfer::Deposit {
                            token: payment_token,
                            from: buyer,
                            amount: amount as u128,
                        },
                    ),
                )
                &&& final(self).admin_slot() == old(self).admin_slot()
                &&& final(self).records() == old(self).records().push(
                    new_escrow(id, buyer, seller, amount, payment_token, release_timestamp),
                )
            },
    {
        escrow_logic::create_escrow(
            self,
            buyer,
            seller,
            amount,
            payment_token,
            release_timestamp,
            now,
        )
    }

    /// The buyer confirms receipt, enabling an early release.
    pub fn confirm_receipt(&mut self, buyer: &Identity, escrow_id: u64) -> (r: Result<
        (),
        ContractError,
    >)
        requires
            old(self).wf(),
        ensures
            final(self).wf(),
            records_evolve(old(self).records(), final(self).records()),
            match confirm_receipt_outcome(*old(self), *buyer, escrow_id) {
                Ok(n) => r is Ok && replaced(*old(self), *final(self), escrow_id, n),
                Err(e) => r == Err::<(), ContractError>(e) && *final(self) == *old(self),
            },
    {
        escrow_logic::confirm_receipt(self, buyer, escrow_id)
    }

    /// Releases the funds to the seller once the release time has passed or
    /// the buyer has confirmed; returns the payout to make.
    pub fn release_funds(&mut self, escrow_id: u64, now: u64) -> (r: Result<
        Transfer,
        ContractError,
    >)
        requires
            old(self).wf(),
        ensures
            final(self).wf(),
            records_evolve(old(self).records(), final(self).records()),
            r is Ok <==> old(self).contains(escrow_id) && old(self).record(escrow_id).status
                == EscrowStatus::Active && can_release(old(self).record(escrow_id), now),
            match release_funds_outcome(*old(self), escrow_id, now) {
                Ok((n, t)) => r == Ok::<Transfer, ContractError>(t) && replaced(
                    *old(self),
                    *final(self),
                    escrow_id,
                    n,
                ),
                Err(e) => r == Err::<Transfer, ContractError>(e) && *final(self) == *old(self),
            },
    {
        escrow_logic::release_funds(self, escrow_id, now)
    }

    /// The buyer disputes the escrow.
    pub fn dispute_escrow(&mut self, buyer: &Identity, escrow_id: u64, reason: String) -> (r:
        Result<(), ContractError>)
        requires
            old(self).wf(),
        ensures
            final(self).wf(),
            records_evolve(old(self).records(), final(self).records()),
            match dispute_escrow_outcome(*old(self), *buyer, escrow_id, reason) {
                Ok(n) => r is Ok && replaced(*old(self), *final(self), escrow_id, n),
                Err(e) => r == Err::<(), ContractError>(e) && *final(self) == *old(self),
            },
    {
        escrow_logic::dispute_escrow(self, buyer, escrow_id, reason)
    }

    /// The admin settles a dispute by refunding the buyer; returns the payout
    /// to make.
    pub fn resolve_dispute_and_refund(&mut self, admin: &Identity, escrow_id: u64) -> (r: Result<
        Transfer,
        ContractError,
    >)
        requires
            old(self).wf(),
        ensures
            final(self).wf(),
            records_evolve(old(self).records(), final(self).records()),
            match resolve_outcome(*old(self), *admin, escrow_id) {
                Ok((n, t)) => r == Ok::<Transfer, ContractError>(t) && replaced(
                    *old(self),
                    *final(self),
                    escrow_id,
                    n,
                ),
                Err(e) => r == Err::<Transfer, ContractError>(e) && *final(self) == *old(self),
            },
    {
        escrow_logic::resolve_dispute_and_refund(self, admin, escrow_id)
    }

    /// The escrow with id `escrow_id`.
    pub fn get_escrow(&self, escrow_id: u64) -> (r: Result<&Escrow, ContractError>)
        requires
            self.wf(),
        ensures
            self.contains(escrow_id) ==> r == Ok::<&Escrow, ContractError>(
                &self.record(escrow_id),
            ),
            !self.contains(escrow_id) ==> r == Err::<&Escrow, ContractError>(
                ContractError::EscrowNotFound,
            ),
    {
        escrow_storage::get_escrow(self, escrow_id)
    }
}

} // verus!
