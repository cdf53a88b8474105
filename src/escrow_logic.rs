use vstd::prelude::*;

use crate::custody::Transfer;
use crate::escrow_error::ContractError;
use crate::escrow_storage::{
    self, AutoReleaseEscrowContract, Escrow, EscrowStatus, get_escrow, set_escrow,
};
use crate::identity::Identity;

verus! {

// ---------------------------------------------------------------------------
// The escrow state machine, one record at a time.
// ---------------------------------------------------------------------------

/// The edges of the escrow state machine, and staying put.
pub open spec fn status_step(from: EscrowStatus, to: EscrowStatus) -> bool {
    ||| from == to
    ||| from == EscrowStatus::Active && to == EscrowStatus::Released
    ||| from == EscrowStatus::Active && to == EscrowStatus::Disputed
    ||| from == EscrowStatus::Disputed && to == EscrowStatus::Refunded
}

/// The statuses that any number of steps leads to from `from`.
pub open spec fn status_reachable(from: EscrowStatus, to: EscrowStatus) -> bool {
    ||| from == to
    ||| from == EscrowStatus::Active
    ||| from == EscrowStatus::Disputed && to == EscrowStatus::Refunded
}

/// What one operation may do to a record: its status moves along one edge at
/// most, the buyer's confirmation only escalates, a dispute reason once given
/// is kept, and the id, parties, amount, token and release time never change.
pub open spec fn escrow_evolves(a: Escrow, b: Escrow) -> bool {
    &&& status_step(a.status, b.status)
    &&& a.buyer_confirmed ==> b.buyer_confirmed
    &&& a.dispute_reason is Some ==> b.dispute_reason == a.dispute_reason
    &&& b.id == a.id
    &&& b.buyer == a.buyer
    &&& b.seller == a.seller
    &&& b.amount == a.amount
    &&& b.payment_token == a.payment_token
    &&& b.release_timestamp == a.release_timestamp
}

/// What one operation may do to a store's records: none is removed, and each
/// evolves as `escrow_evolves` allows.
pub open spec fn records_evolve(a: Seq<Escrow>, b: Seq<Escrow>) -> bool {
    &&& a.len() <= b.len()
    &&& forall|i: int| 0 <= i < a.len() ==> escrow_evolves(a[i], #[trigger] b[i])
}

/// The payout of the whole escrowed amount to `to`.
pub open spec fn payout_of(e: Escrow, to: Identity) -> Transfer {
    Transfer::Payout { token: e.payment_token, to, amount: e.amount as u128 }
}

/// Funds may be released once the release time has come or the buyer has confirmed.
pub open spec fn can_release(e: Escrow, now: u64) -> bool {
    now >= e.release_timestamp || e.buyer_confirmed
}

pub open spec fn confirm_outcome(e: Escrow, caller: Identity) -> Result<Escrow, ContractError> {
    if e.buyer@ != caller@ {
        Err(ContractError::NotBuyer)
    } else if e.status != EscrowStatus::Active {
        Err(ContractError::EscrowNotActive)
    } else {
        Ok(Escrow { buyer_confirmed: true, ..e })
    }
}

pub open spec fn release_outcome(e: Escrow, now: u64) -> Result<(Escrow, Transfer), ContractError> {
    if e.status != EscrowStatus::Active {
        Err(ContractError::EscrowNotActive)
    } else if !can_release(e, now) {
        Err(ContractError::ReleaseTimeNotPassed)
    } else {
        Ok((Escrow { status: EscrowStatus::Released, ..e }, payout_of(e, e.seller)))
    }
}

pub open spec fn dispute_outcome(e: Escrow, caller: Identity, reason: String) -> Result<
    Escrow,
    ContractError,
> {
    if e.buyer@ != caller@ {
        Err(ContractError::NotBuyer)
    } else if e.status == EscrowStatus::Disputed {
        Err(ContractError::EscrowAlreadyDisputed)
    } else if e.status != EscrowStatus::Active {
        Err(ContractError::EscrowNotActive)
    } else {
        Ok(Escrow { status: EscrowStatus::Disputed, dispute_reason: Some(reason), ..e })
    }
}

pub open spec fn refund_outcome(e: Escrow) -> Result<(Escrow, Transfer), ContractError> {
    if e.status != EscrowStatus::Disputed {
        Err(ContractError::EscrowNotDisputed)
    } else {
        Ok((Escrow { status: EscrowStatus::Refunded, ..e }, payout_of(e, e.buyer)))
    }
}

/// The record that `create_escrow` stores.
pub open spec fn new_escrow(
    id: u64,
    buyer: Identity,
    seller: Identity,
    amount: i128,
    payment_token: Identity,
    release_timestamp: u64,
) -> Escrow {
    Escrow {
        id,
        buyer,
        seller,
        amount,
        payment_token,
        release_timestamp,
        status: EscrowStatus::Active,
        dispute_reason: None,
        buyer_confirmed: false,
    }
}

/// Why the terms of a new escrow are refused, if they are.
pub open spec fn terms_error(amount: i128, release_timestamp: u64, now: u64) -> Option<ContractError> {
    if amount <= 0 {
        Some(ContractError::InvalidAmount)
    } else if release_timestamp <= now {
        Some(ContractError::InvalidReleaseTime)
    } else {
        None
    }
}

impl Escrow {
    /// Checks the terms of a new escrow and, if they hold, opens it under
    /// `id`, with the deposit that locks the buyer's funds.
    pub fn open(
        id: u64,
        buyer: Identity,
        seller: Identity,
        amount: i128,
        payment_token: Identity,
        release_timestamp: u64,
        now: u64,
    ) -> (r: Result<(Escrow, Transfer), ContractError>)
        ensures
            match terms_error(amount, release_timestamp, now) {
                Some(e) => r == Err::<(Escrow, Transfer), ContractError>(e),
                None => r == Ok::<(Escrow, Transfer), ContractError>(
                    (
                        new_escrow(id, buyer, seller, amount, payment_token, release_timestamp),
                        Transfer::Deposit { token: payment_token, from: buyer, amount: amount as u128 },
                    ),
                ),
            },
            r is Ok ==> r->Ok_0.0.wf(),
    {
        if amount <= 0 {
            return Err(ContractError::InvalidAmount);
        }
        if release_timestamp <= now {
            return Err(ContractError::InvalidReleaseTime);
        }
        let deposit = Transfer::Deposit {
            token: payment_token.duplicate(),
            from: buyer.duplicate(),
            amount: amount as u128,
        };
        let escrow = Escrow {
            id,
            buyer,
            seller,
            amount,
            payment_token,
            release_timestamp,
            status: EscrowStatus::Active,
            dispute_reason: None,
            buyer_confirmed: false,
        };
        Ok((escrow, deposit))
    }

    /// The buyer confirms receipt, which allows an early release.
    pub fn confirm_receipt(&mut self, buyer: &Identity) -> (r: Result<(), ContractError>)
        requires
            old(self).wf(),
        ensures
            final(self).wf(),
            escrow_evolves(*old(self), *final(self)),
            match confirm_outcome(*old(self), *buyer) {
                Ok(n) => r is Ok && *final(self) == n,
                Err(e) => r == Err::<(), ContractError>(e) && *final(self) == *old(self),
            },
    {
        if !(self.buyer == *buyer) {
            return Err(ContractError::NotBuyer);
        }
        if self.status != EscrowStatus::Active {
            return Err(ContractError::EscrowNotActive);
        }
        self.buyer_confirmed = true;
        Ok(())
    }

    /// Releases the funds to the seller: the transfer to make is returned.
    pub fn release(&mut self, now: u64) -> (r: Result<Transfer, ContractError>)
        requires
            old(self).wf(),
        ensures
            final(self).wf(),
            escrow_evolves(*old(self), *final(self)),
            match release_outcome(*old(self), now) {
                Ok((n, t)) => r == Ok::<Transfer, ContractError>(t) && *final(self) == n,
                Err(e) => r == Err::<Transfer, ContractError>(e) && *final(self) == *old(self),
            },
    {
        if self.status != EscrowStatus::Active {
            return Err(ContractError::EscrowNotActive);
        }
        if !(now >= self.release_timestamp || self.buyer_confirmed) {
            return Err(ContractError::ReleaseTimeNotPassed);
        }
        self.status = EscrowStatus::Released;
        Ok(
            Transfer::Payout {
                token: self.payment_token.duplicate(),
                to: self.seller.duplicate(),
                amount: self.amount as u128,
            },
        )
    }

    /// The buyer disputes the escrow, giving a reason.
    pub fn dispute(&mut self, buyer: &Identity, reason: String) -> (r: Result<(), ContractError>)
        requires
            old(self).wf(),
        ensures
            final(self).wf(),
            escrow_evolves(*old(self), *final(self)),
            match dispute_outcome(*old(self), *buyer, reason) {
                Ok(n) => r is Ok && *final(self) == n,
                Err(e) => r == Err::<(), ContractError>(e) && *final(self) == *old(self),
            },
    {
        if !(self.buyer == *buyer) {
            return Err(ContractError::NotBuyer);
        }
        if self.status == EscrowStatus::Disputed {
            return Err(ContractError::EscrowAlreadyDisputed);
        }
        if self.status != EscrowStatus::Active {
            return Err(ContractError::EscrowNotActive);
        }
        self.status = EscrowStatus::Disputed;
        self.dispute_reason = Some(reason);
        Ok(())
    }

    /// Settles a dispute by returning the funds to the buyer: the transfer to
    /// make is returned.
    pub fn refund(&mut self) -> (r: Result<Transfer, ContractError>)
        requires
            old(self).wf(),
        ensures
            final(self).wf(),
            escrow_evolves(*old(self), *final(self)),
            match refund_outcome(*old(self)) {
                Ok((n, t)) => r == Ok::<Transfer, ContractError>(t) && *final(self) == n,
                Err(e) => r == Err::<Transfer, ContractError>(e) && *final(self) == *old(self),
            },
    {
        if self.status != EscrowStatus::Disputed {
            return Err(ContractError::EscrowNotDisputed);
        }
        self.status = EscrowStatus::Refunded;
        Ok(
            Transfer::Payout {
                token: self.payment_token.duplicate(),
                to: self.buyer.duplicate(),
                amount: self.amount as u128,
            },
        )
    }
}

// ---------------------------------------------------------------------------
// The operations of the contract, on its store.
// ---------------------------------------------------------------------------

/// `after` is `before` with the record of `id` replaced by `rec`.
pub open spec fn replaced(
    before: AutoReleaseEscrowContract,
    after: AutoReleaseEscrowContract,
    id: u64,
    rec: Escrow,
) -> bool {
    &&& after.admin_slot() == before.admin_slot()
    &&& after.records() == before.records().update(id - 1, rec)
}

pub open spec fn lookup(c: AutoReleaseEscrowContract, id: u64) -> Result<Escrow, ContractError> {
    if c.contains(id) {
        Ok(c.record(id))
    } else {
        Err(ContractError::EscrowNotFound)
    }
}

pub open spec fn confirm_receipt_outcome(c: AutoReleaseEscrowContract, caller: Identity, id: u64) -> Result<
    Escrow,
    ContractError,
> {
    match lookup(c, id) {
        Ok(e) => confirm_outcome(e, caller),
        Err(err) => Err(err),
    }
}

pub open spec fn release_funds_outcome(c: AutoReleaseEscrowContract, id: u64, now: u64) -> Result<
    (Escrow, Transfer),
    ContractError,
> {
    match lookup(c, id) {
        Ok(e) => release_outcome(e, now),
        Err(err) => Err(err),
    }
}

pub open spec fn dispute_escrow_outcome(
    c: AutoReleaseEscrowContract,
    caller: Identity,
    id: u64,
    reason: String,
) -> Result<Escrow, ContractError> {
    match lookup(c, id) {
        Ok(e) => dispute_outcome(e, caller, reason),
        Err(err) => Err(err),
    }
}

pub open spec fn resolve_outcome(c: AutoReleaseEscrowContract, caller: Identity, id: u64) -> Result<
    (Escrow, Transfer),
    ContractError,
> {
    if !c.admin_is(caller) {
        Err(ContractError::NotAdmin)
    } else {
        match lookup(c, id) {
            Ok(e) => refund_outcome(e),
            Err(err) => Err(err),
        }
    }
}

/// Gives the contract its admin; refused once it has one.
pub fn initialize(c: &mut AutoReleaseEscrowContract, admin: Identity) -> (r: Result<(), ContractError>)
    requires
        old(c).wf(),
    ensures
        final(c).wf(),
        old(c).admin_slot() is Some ==> r == Err::<(), ContractError>(
            ContractError::AlreadyInitialized,
        ) && *final(c) == *old(c),
        old(c).admin_slot() is None ==> r is Ok && final(c).admin_slot() == Some(admin)
            && final(c).records() == old(c).records(),
{
    if escrow_storage::has_admin(c) {
        return Err(ContractError::AlreadyInitialized);
    }
    escrow_storage::set_admin(c, admin);
    Ok(())
}

/// The current admin hands the admin role to `new_admin`.
pub fn set_admin(c: &mut AutoReleaseEscrowContract, admin: &Identity, new_admin: Identity) -> (r:
    Result<(), ContractError>)
    requires
        old(c).wf(),
    ensures
        final(c).wf(),
        !old(c).admin_is(*admin) ==> r == Err::<(), ContractError>(ContractError::NotAdmin)
            && *final(c) == *old(c),
        old(c).admin_is(*admin) ==> r is Ok && final(c).admin_slot() == Some(new_admin)
            && final(c).records() == old(c).records(),
{
    if !escrow_storage::is_admin(c, admin) {
        return Err(ContractError::NotAdmin);
    }
    escrow_storage::set_admin(c, new_admin);
    Ok(())
}

/// Opens an escrow of `amount` from `buyer` for `seller`, releasable from
/// `release_timestamp` on. Returns its id and the deposit that locks the funds.
pub fn create_escrow(
    c: &mut AutoReleaseEscrowContract,
    buyer: Identity,
    seller: Identity,
    amount: i128,
    payment_token: Identity,
    release_timestamp: u64,
    now: u64,
) -> (r: Result<(u64, Transfer), ContractError>)
    requires
        old(c).wf(),
        old(c).counter() < u64::MAX,
    ensures
        final(c).wf(),
        records_evolve(old(c).records(), final(c).records()),
        amount <= 0 ==> r == Err::<(u64, Transfer), ContractError>(ContractError::InvalidAmount)
            && *final(c) == *old(c),
        amount > 0 && release_timestamp <= now ==> r == Err::<(u64, Transfer), ContractError>(
            ContractError::InvalidReleaseTime,
        ) && *final(c) == *old(c),
        amount > 0 && release_timestamp > now ==> {
            let id = (old(c).records().len() + 1) as u64;
            &&& r == Ok::<(u64, Transfer), ContractError>(
                (id, Transfer::Deposit { token: payment_token, from: buyer, amount: amount as u128 }),
            )
            &&& final(c).admin_slot() == old(c).admin_slot()
            &&& final(c).records() == old(c).records().push(
                new_escrow(id, buyer, seller, amount, payment_token, release_timestamp),
            )
        },
{
    let escrow_id = escrow_storage::get_next_escrow_id(c);
    match Escrow::open(escrow_id, buyer, seller, amount, payment_token, release_timestamp, now) {
        Ok((escrow, deposit)) => {
            set_escrow(c, escrow);
            Ok((escrow_id, deposit))
        },
        Err(e) => Err(e),
    }
}

/// The buyer confirms receipt of escrow `escrow_id`.
pub fn confirm_receipt(c: &mut AutoReleaseEscrowContract, buyer: &Identity, escrow_id: u64) -> (r:
    Result<(), ContractError>)
    requires
        old(c).wf(),
    ensures
        final(c).wf(),
        records_evolve(old(c).records(), final(c).records()),
        match confirm_receipt_outcome(*old(c), *buyer, escrow_id) {
            Ok(n) => r is Ok && replaced(*old(c), *final(c), escrow_id, n),
            Err(e) => r == Err::<(), ContractError>(e) && *final(c) == *old(c),
        },
{
    let mut escrow = match get_escrow(c, escrow_id) {
        Ok(e) => e.duplicate(),
        Err(e) => return Err(e),
    };
    match escrow.confirm_receipt(buyer) {
        Ok(()) => {
            set_escrow(c, escrow);
            Ok(())
        },
        Err(e) => Err(e),
    }
}

/// Releases escrow `escrow_id` to its seller once the release time has come
/// or the buyer has confirmed. Anyone may call it. Returns the payout to make.
pub fn release_funds(c: &mut AutoReleaseEscrowContract, escrow_id: u64, now: u64) -> (r: Result<
    Transfer,
    ContractError,
>)
    requires
        old(c).wf(),
    ensures
        final(c).wf(),
        records_evolve(old(c).records(), final(c).records()),
        r is Ok <==> old(c).contains(escrow_id) && old(c).record(escrow_id).status
            == EscrowStatus::Active && can_release(old(c).record(escrow_id), now),
        match release_funds_outcome(*old(c), escrow_id, now) {
            Ok((n, t)) => r == Ok::<Transfer, ContractError>(t) && replaced(
                *old(c),
                *final(c),
                escrow_id,
                n,
            ),
            Err(e) => r == Err::<Transfer, ContractError>(e) && *final(c) == *old(c),
        },
{
    let mut escrow = match get_escrow(c, escrow_id) {
        Ok(e) => e.duplicate(),
        Err(e) => return Err(e),
    };
    match escrow.release(now) {
        Ok(t) => {
            set_escrow(c, escrow);
            Ok(t)
        },
        Err(e) => Err(e),
    }
}

/// The buyer disputes escrow `escrow_id`.
pub fn dispute_escrow(
    c: &mut AutoReleaseEscrowContract,
    buyer: &Identity,
    escrow_id: u64,
    reason: String,
) -> (r: Result<(), ContractError>)
    requires
        old(c).wf(),
    ensures
        final(c).wf(),
        records_evolve(old(c).records(), final(c).records()),
        match dispute_escrow_outcome(*old(c), *buyer, escrow_id, reason) {
            Ok(n) => r is Ok && replaced(*old(c), *final(c), escrow_id, n),
            Err(e) => r == Err::<(), ContractError>(e) && *final(c) == *old(c),
        },
{
    let mut escrow = match get_escrow(c, escrow_id) {
        Ok(e) => e.duplicate(),
        Err(e) => return Err(e),
    };
    match escrow.dispute(buyer, reason) {
        Ok(()) => {
            set_escrow(c, escrow);
            Ok(())
        },
        Err(e) => Err(e),
    }
}

/// The admin settles the dispute of escrow `escrow_id` by refunding the
/// buyer. Returns the payout to make.
pub fn resolve_dispute_and_refund(
    c: &mut AutoReleaseEscrowContract,
    admin: &Identity,
    escrow_id: u64,
) -> (r: Result<Transfer, ContractError>)
    requires
        old(c).wf(),
    ensures
        final(c).wf(),
        records_evolve(old(c).records(), final(c).records()),
        match resolve_outcome(*old(c), *admin, escrow_id) {
            Ok((n, t)) => r == Ok::<Transfer, ContractError>(t) && replaced(
                *old(c),
                *final(c),
                escrow_id,
                n,
            ),
            Err(e) => r == Err::<Transfer, ContractError>(e) && *final(c) == *old(c),
        },
{
    if !escrow_storage::is_admin(c, admin) {
        return Err(ContractError::NotAdmin);
    }
    let mut escrow = match get_escrow(c, escrow_id) {
        Ok(e) => e.duplicate(),
        Err(e) => return Err(e),
    };
    match escrow.refund() {
        Ok(t) => {
            set_escrow(c, escrow);
            Ok(t)
        },
        Err(e) => Err(e),
    }
}

// ---------------------------------------------------------------------------
// Laws.
// ---------------------------------------------------------------------------

/// Along any run of operations on one escrow, its status only moves along the
/// edges Active to Released, Active to Disputed and Disputed to Refunded: once
/// it has left Active it never comes back, and Released and Refunded are final.
pub proof fn lemma_status_run(run: Seq<EscrowStatus>)
    requires
        run.len() > 0,
        forall|i: int| 0 <= i < run.len() - 1 ==> status_step(#[trigger] run[i], run[i + 1]),
    ensures
        forall|j: int| 0 <= j < run.len() ==> status_reachable(run[0], #[trigger] run[j]),
    decreases run.len(),
{
    if run.len() > 1 {
        let prefix = run.drop_last();
        assert forall|i: int| 0 <= i < prefix.len() - 1 implies status_step(
            #[trigger] prefix[i],
            prefix[i + 1],
        ) by {
            assert(status_step(run[i], run[i + 1]));
        }
        lemma_status_run(prefix);
        assert forall|j: int| 0 <= j < run.len() implies status_reachable(
            run[0],
            #[trigger] run[j],
        ) by {
            if j < run.len() - 1 {
                assert(status_reachable(prefix[0], prefix[j]));
            } else {
                assert(status_reachable(prefix[0], prefix[j - 1]));
                assert(status_step(run[j - 1], run[j]));
            }
        }
    }
}

} // verus!
