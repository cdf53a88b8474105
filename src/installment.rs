use vstd::prelude::*;

use crate::custody::Transfer;
use crate::identity::Identity;
use crate::installment_contracts::{
    AgreementView, InstallmentAgreement, PaidHistory, paid_sum, phase_step,
};
use crate::installment_errors::ContractError;
use crate::installment_storage::{
    self, InstallmentPayment, get_installment_agreement, save_installment_agreement,
};

verus! {

// ---------------------------------------------------------------------------
// The installment state machine, one agreement at a time.
// ---------------------------------------------------------------------------

/// Adding a payment to a history adds its amount to the sum.
pub proof fn lemma_paid_sum_push(history: Seq<PaidHistory>, p: PaidHistory)
    ensures
        paid_sum(history.push(p)) == paid_sum(history) + p.amount,
{
    assert(history.push(p).drop_last() =~= history);
}

/// In every agreement of a well-formed store, the amount paid is the sum of
/// the payment history; every entry point keeps the store well formed, so
/// this holds after every operation.
pub proof fn lemma_amount_paid_is_history_sum(c: InstallmentPayment, id: u128)
    requires
        c.wf(),
        c.contains(id),
    ensures
        c.record(id).amount_paid == paid_sum(c.record(id).paid_history),
{
    assert(c.records()[id - 1].wf());
}

/// What one operation may do to an agreement: its phase moves one step at
/// most, a closed agreement does not change, the history is append-only and
/// the amount paid never decreases, and the parties, terms and token stay.
pub open spec fn agreement_evolves(a: AgreementView, b: AgreementView) -> bool {
    &&& phase_step(a.phase(), b.phase())
    &&& a.is_closed() ==> b == a
    &&& a.paid_history.is_prefix_of(b.paid_history)
    &&& a.amount_paid <= b.amount_paid
    &&& b.id == a.id
    &&& b.buyer == a.buyer
    &&& b.seller == a.seller
    &&& b.total_amount == a.total_amount
    &&& b.deadline == a.deadline
    &&& b.arbitrator == a.arbitrator
    &&& b.description == a.description
    &&& b.token == a.token
}

/// What one operation may do to a store's agreements: none is removed, and
/// each evolves as `agreement_evolves` allows.
pub open spec fn agreements_evolve(a: Seq<AgreementView>, b: Seq<AgreementView>) -> bool {
    &&& a.len() <= b.len()
    &&& forall|i: int| 0 <= i < a.len() ==> agreement_evolves(a[i], #[trigger] b[i])
}

/// A payout of `amount` of the agreement's token to `to`.
pub open spec fn payout_of(a: AgreementView, to: Identity, amount: u128) -> Transfer {
    Transfer::Payout { token: a.token, to, amount }
}

/// The agreement that `create_installment_agreement` stores.
pub open spec fn proposed(
    id: u128,
    seller: Identity,
    buyer: Identity,
    amount: u128,
    deadline: u64,
    arbitrator: Identity,
    token: Identity,
    description: String,
    now: u64,
) -> AgreementView {
    AgreementView {
        id,
        buyer,
        seller,
        is_accepted: false,
        amount_paid: 0,
        paid_history: Seq::empty(),
        total_amount: amount,
        deadline: (now + deadline) as u64,
        is_finalized: false,
        is_canceled: false,
        arbitrator,
        description,
        token,
    }
}

/// Why the terms of a new agreement are refused, if they are.
pub open spec fn terms_error(
    seller: Identity,
    buyer: Identity,
    amount: u128,
    deadline: u64,
    arbitrator: Identity,
    now: u64,
) -> Option<ContractError> {
    if amount == 0 {
        Some(ContractError::InvalidAmount)
    } else if buyer@ == seller@ {
        Some(ContractError::DuplicateUsers)
    } else if arbitrator@ == buyer@ || arbitrator@ == seller@ {
        Some(ContractError::ArbitratorNotAllowed)
    } else if now + deadline > u64::MAX {
        Some(ContractError::InvalidTimestamp)
    } else {
        None
    }
}

pub open spec fn accept_outcome(a: AgreementView, caller: Identity, accept: bool) -> Result<
    AgreementView,
    ContractError,
> {
    if a.seller@ != caller@ {
        Err(ContractError::NotAuthorized)
    } else if a.is_accepted {
        Err(ContractError::AlreadyAccepted)
    } else if a.is_canceled {
        Err(ContractError::AgreementCanceled)
    } else if a.is_finalized {
        Err(ContractError::AgreementFinalized)
    } else {
        Ok(AgreementView { is_accepted: accept, ..a })
    }
}

pub open spec fn pay_outcome(
    a: AgreementView,
    payer: Identity,
    amount: u128,
    balance: i128,
    now: u64,
) -> Result<(AgreementView, Transfer), ContractError> {
    if !a.is_accepted {
        Err(ContractError::NotAccepted)
    } else if a.is_canceled {
        Err(ContractError::AgreementCanceled)
    } else if a.is_finalized {
        Err(ContractError::AgreementFinalized)
    } else if now >= a.deadline {
        Err(ContractError::DeadlinePassed)
    } else if amount == 0 {
        Err(ContractError::InvalidAmount)
    } else if balance < amount {
        Err(ContractError::InsufficientBalance)
    } else if a.amount_paid + amount > u128::MAX {
        Err(ContractError::InvalidAmount)
    } else {
        Ok(
            (
                AgreementView {
                    paid_history: a.paid_history.push(PaidHistory { amount, timeline: now }),
                    amount_paid: (a.amount_paid + amount) as u128,
                    ..a
                },
                Transfer::Deposit { token: a.token, from: payer, amount },
            ),
        )
    }
}

pub open spec fn finalize_outcome(a: AgreementView, caller: Identity) -> Result<
    (AgreementView, Transfer),
    ContractError,
> {
    if caller@ != a.buyer@ && caller@ != a.seller@ {
        Err(ContractError::NotAuthorized)
    } else if !a.is_accepted {
        Err(ContractError::NotAccepted)
    } else if a.is_finalized {
        Err(ContractError::AgreementFinalized)
    } else if a.is_canceled {
        Err(ContractError::AgreementCanceled)
    } else if a.amount_paid < a.total_amount {
        Err(ContractError::AmountNotMet)
    } else {
        Ok((AgreementView { is_finalized: true, ..a }, payout_of(a, a.seller, a.total_amount)))
    }
}

pub open spec fn cancel_outcome(a: AgreementView, caller: Identity) -> Result<
    (AgreementView, Option<Transfer>),
    ContractError,
> {
    if !a.is_accepted {
        Err(ContractError::NotAccepted)
    } else if a.is_canceled {
        Err(ContractError::AgreementCanceled)
    } else if a.is_finalized {
        Err(ContractError::AgreementFinalized)
    } else if a.seller@ != caller@ {
        Err(ContractError::NotAuthorized)
    } else {
        Ok(
            (
                AgreementView { is_canceled: true, ..a },
                if a.amount_paid > 0 {
                    Some(payout_of(a, a.buyer, a.amount_paid))
                } else {
                    None
                },
            ),
        )
    }
}

impl InstallmentAgreement {
    /// Checks the terms of a new agreement and, if they hold, proposes it
    /// under `id` at time `now`.
    pub fn open(
        id: u128,
        seller: Identity,
        buyer: Identity,
        amount: u128,
        deadline: u64,
        arbitrator: Identity,
        token: Identity,
        description: String,
        now: u64,
    ) -> (r: Result<InstallmentAgreement, ContractError>)
        ensures
            match terms_error(seller, buyer, amount, deadline, arbitrator, now) {
                Some(e) => r == Err::<InstallmentAgreement, ContractError>(e),
                None => r is Ok && r->Ok_0@ == proposed(
                    id,
                    seller,
                    buyer,
                    amount,
                    deadline,
                    arbitrator,
                    token,
                    description,
                    now,
                ),
            },
            r is Ok ==> r->Ok_0@.wf(),
    {
        if amount == 0 {
            return Err(ContractError::InvalidAmount);
        }
        if buyer == seller {
            return Err(ContractError::DuplicateUsers);
        }
        if buyer == arbitrator || seller == arbitrator {
            return Err(ContractError::ArbitratorNotAllowed);
        }
        if deadline > u64::MAX - now {
            return Err(ContractError::InvalidTimestamp);
        }
        let r = InstallmentAgreement::new(
            now,
            id,
            buyer,
            seller,
            amount,
            deadline,
            arbitrator,
            description,
            token,
        );
        assert(r@ == proposed(id, seller, buyer, amount, deadline, arbitrator, token, description, now));
        Ok(r)
    }

    /// The seller answers the proposal: `accept` true accepts it, false leaves
    /// it proposed.
    pub fn try_accept(&mut self, seller: &Identity, accept: bool) -> (r: Result<(), ContractError>)
        requires
            old(self)@.wf(),
        ensures
            final(self)@.wf(),
            agreement_evolves(old(self)@, final(self)@),
            old(self)@.is_closed() ==> r is Err,
            match accept_outcome(old(self)@, *seller, accept) {
                Ok(n) => r is Ok && final(self)@ == n,
                Err(e) => r == Err::<(), ContractError>(e) && final(self)@ == old(self)@,
            },
    {
        if !(*seller == self.seller) {
            return Err(ContractError::NotAuthorized);
        }
        if self.is_accepted {
            return Err(ContractError::AlreadyAccepted);
        }
        if self.is_canceled {
            return Err(ContractError::AgreementCanceled);
        }
        if self.is_finalized {
            return Err(ContractError::AgreementFinalized);
        }
        self.accept_agreement(accept);
        Ok(())
    }

    /// `payer`, whose balance in the agreement's token is `balance`, pays
    /// `amount` at time `now`: the deposit to make is returned.
    pub fn try_pay(&mut self, payer: &Identity, amount: u128, balance: i128, now: u64) -> (r:
        Result<Transfer, ContractError>)
        requires
            old(self)@.wf(),
        ensures
            final(self)@.wf(),
            agreement_evolves(old(self)@, final(self)@),
            old(self)@.is_closed() ==> r is Err,
            now >= old(self).deadline ==> r is Err,
            match pay_outcome(old(self)@, *payer, amount, balance, now) {
                Ok((n, t)) => r == Ok::<Transfer, ContractError>(t) && final(self)@ == n,
                Err(e) => r == Err::<Transfer, ContractError>(e) && final(self)@ == old(self)@,
            },
    {
        if !self.is_accepted {
            return Err(ContractError::NotAccepted);
        }
        if self.is_canceled {
            return Err(ContractError::AgreementCanceled);
        }
        if self.is_finalized {
            return Err(ContractError::AgreementFinalized);
        }
        if now >= self.deadline {
            return Err(ContractError::DeadlinePassed);
        }
        if amount == 0 {
            return Err(ContractError::InvalidAmount);
        }
        if balance < 0 || (balance as u128) < amount {
            return Err(ContractError::InsufficientBalance);
        }
        if amount > u128::MAX - self.amount_paid {
            return Err(ContractError::InvalidAmount);
        }
        proof {
            let p = PaidHistory { amount, timeline: now };
            lemma_paid_sum_push(self.paid_history@, p);
        }
        self.update_installment_agreement_payment_and_history(now, amount);
        Ok(Transfer::Deposit { token: self.token.duplicate(), from: payer.duplicate(), amount })
    }

    /// The buyer or the seller completes a fully paid agreement: the payout of
    /// the total to the seller is returned.
    pub fn try_finalize(&mut self, user: &Identity) -> (r: Result<Transfer, ContractError>)
        requires
            old(self)@.wf(),
        ensures
            final(self)@.wf(),
            agreement_evolves(old(self)@, final(self)@),
            old(self)@.is_closed() ==> r is Err,
            old(self).amount_paid < old(self).total_amount ==> r is Err,
            match finalize_outcome(old(self)@, *user) {
                Ok((n, t)) => r == Ok::<Transfer, ContractError>(t) && final(self)@ == n,
                Err(e) => r == Err::<Transfer, ContractError>(e) && final(self)@ == old(self)@,
            },
    {
        if !(*user == self.buyer || *user == self.seller) {
            return Err(ContractError::NotAuthorized);
        }
        if !self.is_accepted {
            return Err(ContractError::NotAccepted);
        }
        if self.is_finalized {
            return Err(ContractError::AgreementFinalized);
        }
        if self.is_canceled {
            return Err(ContractError::AgreementCanceled);
        }
        if self.amount_paid < self.total_amount {
            return Err(ContractError::AmountNotMet);
        }
        self.finalize();
        Ok(
            Transfer::Payout {
                token: self.token.duplicate(),
                to: self.seller.duplicate(),
                amount: self.total_amount,
            },
        )
    }

    /// The seller cancels an accepted agreement: the refund of everything
    /// paid to the buyer is returned, when anything was paid.
    pub fn try_cancel(&mut self, seller: &Identity) -> (r: Result<Option<Transfer>, ContractError>)
        requires
            old(self)@.wf(),
        ensures
            final(self)@.wf(),
            agreement_evolves(old(self)@, final(self)@),
            old(self)@.is_closed() ==> r is Err,
            match cancel_outcome(old(self)@, *seller) {
                Ok((n, t)) => r == Ok::<Option<Transfer>, ContractError>(t) && final(self)@ == n,
                Err(e) => r == Err::<Option<Transfer>, ContractError>(e) && final(self)@ == old(
                    self,
                )@,
            },
    {
        if !self.is_accepted {
            return Err(ContractError::NotAccepted);
        }
        if self.is_canceled {
            return Err(ContractError::AgreementCanceled);
        }
        if self.is_finalized {
            return Err(ContractError::AgreementFinalized);
        }
        if !(self.seller == *seller) {
            return Err(ContractError::NotAuthorized);
        }
        self.cancel_agreement();
        if self.amount_paid > 0 {
            Ok(
                Some(
                    Transfer::Payout {
                        token: self.token.duplicate(),
                        to: self.buyer.duplicate(),
                        amount: self.amount_paid,
                    },
                ),
            )
        } else {
            Ok(None)
        }
    }
}

// ---------------------------------------------------------------------------
// The entry points of the contract, on its store.
// ---------------------------------------------------------------------------

/// `after` is `before` with the agreement of `id` replaced by `rec`.
pub open spec fn agreement_replaced(
    before: InstallmentPayment,
    after: InstallmentPayment,
    id: u128,
    rec: AgreementView,
) -> bool {
    &&& after.admin_slot() == before.admin_slot()
    &&& after.records() == before.records().update(id - 1, rec)
}

pub open spec fn lookup(c: InstallmentPayment, id: u128, missing: ContractError) -> Result<
    AgreementView,
    ContractError,
> {
    if c.contains(id) {
        Ok(c.record(id))
    } else {
        Err(missing)
    }
}

pub open spec fn accept_agreement_outcome(
    c: InstallmentPayment,
    caller: Identity,
    accept: bool,
    id: u128,
) -> Result<AgreementView, ContractError> {
    match lookup(c, id, ContractError::InvalidAgreementId) {
        Ok(a) => accept_outcome(a, caller, accept),
        Err(e) => Err(e),
    }
}

pub open spec fn pay_on_installment_outcome(
    c: InstallmentPayment,
    payer: Identity,
    amount: u128,
    id: u128,
    balance: i128,
    now: u64,
) -> Result<(AgreementView, Transfer), ContractError> {
    match lookup(c, id, ContractError::AgreementNotFound) {
        Ok(a) => pay_outcome(a, payer, amount, balance, now),
        Err(e) => Err(e),
    }
}

pub open spec fn finalize_agreement_outcome(c: InstallmentPayment, id: u128, caller: Identity) -> Result<
    (AgreementView, Transfer),
    ContractError,
> {
    match lookup(c, id, ContractError::AgreementNotFound) {
        Ok(a) => finalize_outcome(a, caller),
        Err(e) => Err(e),
    }
}

pub open spec fn cancel_agreement_outcome(c: InstallmentPayment, caller: Identity, id: u128) -> Result<
    (AgreementView, Option<Transfer>),
    ContractError,
> {
    match lookup(c, id, ContractError::AgreementNotFound) {
        Ok(a) => cancel_outcome(a, caller),
        Err(e) => Err(e),
    }
}

/// Each caller identity passed in is one whose authorization the host has
/// already checked; `now` is the ledger's time.
impl InstallmentPayment {
    /// Gives the contract its admin, and returns it; refused once it has one.
    pub fn initialize(&mut self, admin: Identity) -> (r: Result<Identity, ContractError>)
        requires
            old(self).wf(),
        ensures
            final(self).wf(),
            old(self).admin_slot() is Some ==> r == Err::<Identity, ContractError>(
                ContractError::AlreadyInstantiated,
            ) && *final(self) == *old(self),
            old(self).admin_slot() is None ==> r == Ok::<Identity, ContractError>(admin)
                && final(self).admin_slot() == Some(admin) && final(self).records() == old(
                self,
            ).records(),
    {
        if installment_storage::has_admin(self) {
            return Err(ContractError::AlreadyInstantiated);
        }
        let result = admin.duplicate();
        installment_storage::set_admin(self, admin);
        Ok(result)
    }

    /// The buyer proposes an agreement to pay `amount` to `seller` within
    /// `deadline` seconds from now. No funds move. Returns the new id.
    pub fn create_installment_agreement(
        &mut self,
        seller: Identity,
        buyer: Identity,
        amount: u128,
        deadline: u64,
        arbitrator: Identity,
        token: Identity,
        description: String,
        now: u64,
    ) -> (r: Result<u128, ContractError>)
        requires
            old(self).wf(),
        ensures
            final(self).wf(),
            agreements_evolve(old(self).records(), final(self).records()),
            match terms_error(seller, buyer, amount, deadline, arbitrator, now) {
                Some(e) => r == Err::<u128, ContractError>(e) && *final(self) == *old(self),
                None => {
                    let id = (old(self).records().len() + 1) as u128;
                    &&& r == Ok::<u128, ContractError>(id)
                    &&& final(self).admin_slot() == old(self).admin_slot()
                    &&& final(self).records() == old(self).records().push(
                        proposed(
                            id,
                            seller,
                            buyer,
                            amount,
                            deadline,
                            arbitrator,
                            token,
                            description,
                            now,
                        ),
                    )
                },
            },
    {
        let count = self.agreement_count();
        let agreement_id = installment_storage::get_agreement_id(self) + 1;
        assert(agreement_id == count + 1);
        let agreement = match InstallmentAgreement::open(
            agreement_id,
            seller,
            buyer,
            amount,
            deadline,
            arbitrator,
            token,
            description,
            now,
        ) {
            Ok(a) => a,
            Err(e) => return Err(e),
        };
        save_installment_agreement(self, agreement_id, agreement);
        Ok(agreement_id)
    }

    /// `buyer_address`, whose balance in the agreement's token is `balance`,
    /// pays `installment_amount` towards agreement `agreement_id`. Returns the
    /// deposit to make.
    pub fn pay_on_installment(
        &mut self,
        buyer_address: &Identity,
        installment_amount: u128,
        agreement_id: u128,
        balance: i128,
        now: u64,
    ) -> (r: Result<Transfer, ContractError>)
        requires
            old(self).wf(),
        ensures
            final(self).wf(),
            agreements_evolve(old(self).records(), final(self).records()),
            old(self).contains(agreement_id) && now >= old(self).record(agreement_id).deadline
                ==> r is Err,
            match pay_on_installment_outcome(
                *old(self),
                *buyer_address,
                installment_amount,
                agreement_id,
                balance,
                now,
            ) {
                Ok((n, t)) => r == Ok::<Transfer, ContractError>(t) && agreement_replaced(
                    *old(self),
                    *final(self),
                    agreement_id,
                    n,
                ),
                Err(e) => r == Err::<Transfer, ContractError>(e) && *final(self) == *old(self),
            },
    {
        let mut agreement = match get_installment_agreement(self, agreement_id) {
            Some(a) => a.duplicate(),
            None => return Err(ContractError::AgreementNotFound),
        };
        match agreement.try_pay(buyer_address, installment_amount, balance, now) {
            Ok(t) => {
                save_installment_agreement(self, agreement_id, agreement);
                Ok(t)
            },
            Err(e) => Err(e),
        }
    }

    /// The buyer or the seller completes agreement `agreement_id` once the
    /// payments cover its total. Returns the payout of the total to the seller.
    pub fn finalize_agreement(&mut self, agreement_id: u128, user: &Identity) -> (r: Result<
        Transfer,
        ContractError,
    >)
        requires
            old(self).wf(),
        ensures
            final(self).wf(),
            agreements_evolve(old(self).records(), final(self).records()),
            old(self).contains(agreement_id) && old(self).record(agreement_id).amount_paid < old(
                self,
            ).record(agreement_id).total_amount ==> r is Err,
            match finalize_agreement_outcome(*old(self), agreement_id, *user) {
                Ok((n, t)) => r == Ok::<Transfer, ContractError>(t) && agreement_replaced(
                    *old(self),
                    *final(self),
                    agreement_id,
                    n,
                ),
                Err(e) => r == Err::<Transfer, ContractError>(e) && *final(self) == *old(self),
            },
    {
        let mut agreement = match get_installment_agreement(self, agreement_id) {
            Some(a) => a.duplicate(),
            None => return Err(ContractError::AgreementNotFound),
        };
        match agreement.try_finalize(user) {
            Ok(t) => {
                save_installment_agreement(self, agreement_id, agreement);
                Ok(t)
            },
            Err(e) => Err(e),
        }
    }

    /// The seller accepts, or declines to accept, agreement `agreement_id`.
    pub fn accept_installment_agreement(
        &mut self,
        seller: &Identity,
        accept_agreement: bool,
        agreement_id: u128,
    ) -> (r: Result<(), ContractError>)
        requires
            old(self).wf(),
        ensures
            final(self).wf(),
            agreements_evolve(old(self).records(), final(self).records()),
            match accept_agreement_outcome(*old(self), *seller, accept_agreement, agreement_id) {
                Ok(n) => r is Ok && agreement_replaced(*old(self), *final(self), agreement_id, n),
                Err(e) => r == Err::<(), ContractError>(e) && *final(self) == *old(self),
            },
    {
        let mut agreement = match get_installment_agreement(self, agreement_id) {
            Some(a) => a.duplicate(),
            None => return Err(ContractError::InvalidAgreementId),
        };
        match agreement.try_accept(seller, accept_agreement) {
            Ok(()) => {
                save_installment_agreement(self, agreement_id, agreement);
                Ok(())
            },
            Err(e) => Err(e),
        }
    }

    /// The seller cancels agreement `agreement_id`. Returns the refund to the
    /// buyer of exactly the amount paid, not the total, when anything was paid.
    pub fn cancel_and_refund_agreement(&mut self, address: &Identity, agreement_id: u128) -> (r:
        Result<Option<Transfer>, ContractError>)
        requires
            old(self).wf(),
        ensures
            final(self).wf(),
            agreements_evolve(old(self).records(), final(self).records()),
            match r {
                Ok(Some(Transfer::Payout { to, amount, .. })) => to == old(self).record(
                    agreement_id,
                ).buyer && amount == old(self).record(agreement_id).amount_paid,
                Ok(Some(Transfer::Deposit { .. })) => false,
                Ok(None) => old(self).record(agreement_id).amount_paid == 0,
                Err(_) => true,
            },
            match cancel_agreement_outcome(*old(self), *address, agreement_id) {
                Ok((n, t)) => r == Ok::<Option<Transfer>, ContractError>(t) && agreement_replaced(
                    *old(self),
                    *final(self),
                    agreement_id,
                    n,
                ),
                Err(e) => r == Err::<Option<Transfer>, ContractError>(e) && *final(self) == *old(
                    self,
                ),
            },
    {
        let mut agreement = match get_installment_agreement(self, agreement_id) {
            Some(a) => a.duplicate(),
            None => return Err(ContractError::AgreementNotFound),
        };
        match agreement.try_cancel(address) {
            Ok(t) => {
                save_installment_agreement(self, agreement_id, agreement);
                Ok(t)
            },
            Err(e) => Err(e),
        }
    }

    /// The agreement with id `agreement_id`, or `None` when there is none.
    pub fn get_installment_agreement(&self, agreement_id: u128) -> (r: Option<&InstallmentAgreement>)
        requires
            self.wf(),
        ensures
            self.contains(agreement_id) <==> r is Some,
            self.contains(agreement_id) ==> r->0@ == self.record(agreement_id),
    {
        get_installment_agreement(self, agreement_id)
    }
}

} // verus!
