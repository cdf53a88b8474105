use vstd::prelude::*;

use crate::identity::Identity;

verus! {

/// One payment made towards an agreement.
#[derive(Clone, Copy, Debug, PartialEq, Eq, Structural)]
pub struct PaidHistory {
    pub amount: u128,
    pub timeline: u64,
}

/// An agreement to pay `total_amount` in installments before `deadline`.
#[derive(Debug)]
pub struct InstallmentAgreement {
    pub id: u128,
    pub buyer: Identity,
    pub seller: Identity,
    pub is_accepted: bool,
    pub amount_paid: u128,
    pub paid_history: Vec<PaidHistory>,
    pub total_amount: u128,
    pub deadline: u64,
    pub is_finalized: bool,
    pub is_canceled: bool,
    pub arbitrator: Identity,
    pub description: String,
    pub token: Identity,
}

/// The stage of an agreement's life, read off its flags.
#[derive(Clone, Copy, Debug, PartialEq, Eq, Structural)]
pub enum AgreementPhase {
    /// Created, waiting for the seller.
    Proposed,
    /// Accepted by the seller: payments are taken.
    Accepted,
    /// Fully paid and paid out to the seller.
    Finalized,
    /// Canceled by the seller, with everything paid refunded.
    Canceled,
}

/// The moves between phases, and staying put: Proposed to Accepted, and
/// Accepted to Finalized or Canceled.
pub open spec fn phase_step(from: AgreementPhase, to: AgreementPhase) -> bool {
    ||| from == to
    ||| from == AgreementPhase::Proposed && to == AgreementPhase::Accepted
    ||| from == AgreementPhase::Accepted && to == AgreementPhase::Finalized
    ||| from == AgreementPhase::Accepted && to == AgreementPhase::Canceled
}

/// The mathematical content of an agreement: its payment history as a sequence.
pub struct AgreementView {
    pub id: u128,
    pub buyer: Identity,
    pub seller: Identity,
    pub is_accepted: bool,
    pub amount_paid: u128,
    pub paid_history: Seq<PaidHistory>,
    pub total_amount: u128,
    pub deadline: u64,
    pub is_finalized: bool,
    pub is_canceled: bool,
    pub arbitrator: Identity,
    pub description: String,
    pub token: Identity,
}

impl View for InstallmentAgreement {
    type V = AgreementView;

    open spec fn view(&self) -> AgreementView {
        AgreementView {
            id: self.id,
            buyer: self.buyer,
            seller: self.seller,
            is_accepted: self.is_accepted,
            amount_paid: self.amount_paid,
            paid_history: self.paid_history@,
            total_amount: self.total_amount,
            deadline: self.deadline,
            is_finalized: self.is_finalized,
            is_canceled: self.is_canceled,
            arbitrator: self.arbitrator,
            description: self.description,
            token: self.token,
        }
    }
}

impl AgreementView {
    /// The amount paid is the sum of the history; an agreement is finalized or
    /// canceled, not both, and only once accepted; its total is positive.
    pub open spec fn wf(&self) -> bool {
        &&& self.amount_paid == paid_sum(self.paid_history)
        &&& !(self.is_finalized && self.is_canceled)
        &&& (self.is_finalized || self.is_canceled) ==> self.is_accepted
        &&& self.total_amount > 0
    }

    pub open spec fn phase(&self) -> AgreementPhase {
        if self.is_finalized {
            AgreementPhase::Finalized
        } else if self.is_canceled {
            AgreementPhase::Canceled
        } else if self.is_accepted {
            AgreementPhase::Accepted
        } else {
            AgreementPhase::Proposed
        }
    }

    /// Whether the agreement is finalized or canceled: then nothing changes any more.
    pub open spec fn is_closed(&self) -> bool {
        self.is_finalized || self.is_canceled
    }
}

/// The sum of the amounts of a payment history.
pub open spec fn paid_sum(history: Seq<PaidHistory>) -> int
    decreases history.len(),
{
    if history.len() == 0 {
        0
    } else {
        paid_sum(history.drop_last()) + history.last().amount
    }
}

/// The sum of a prefix of a history is at most the sum of a longer prefix.
pub proof fn lemma_paid_sum_prefix(history: Seq<PaidHistory>, i: int, j: int)
    requires
        0 <= i <= j <= history.len(),
    ensures
        paid_sum(history.subrange(0, i)) <= paid_sum(history.subrange(0, j)),
    decreases j - i,
{
    if i < j {
        lemma_paid_sum_prefix(history, i, j - 1);
        assert(history.subrange(0, j).drop_last() =~= history.subrange(0, j - 1));
    }
}

impl InstallmentAgreement {
    /// The stage the agreement is in.
    pub fn phase(&self) -> (r: AgreementPhase)
        ensures
            r == self@.phase(),
    {
        if self.is_finalized {
            AgreementPhase::Finalized
        } else if self.is_canceled {
            AgreementPhase::Canceled
        } else if self.is_accepted {
            AgreementPhase::Accepted
        } else {
            AgreementPhase::Proposed
        }
    }

    /// Whether the agreement is well formed.
    pub fn is_well_formed(&self) -> (r: bool)
        ensures
            r == self@.wf(),
    {
        if self.is_finalized && self.is_canceled {
            return false;
        }
        if (self.is_finalized || self.is_canceled) && !self.is_accepted {
            return false;
        }
        if self.total_amount == 0 {
            return false;
        }
        let mut sum: u128 = 0;
        let mut i: usize = 0;
        while i < self.paid_history.len()
            invariant
                i <= self.paid_history@.len(),
                sum == paid_sum(self.paid_history@.subrange(0, i as int)),
                sum <= self.amount_paid,
            decreases self.paid_history@.len() - i,
        {
            let amount = self.paid_history[i].amount;
            proof {
                assert(self.paid_history@.subrange(0, i + 1).drop_last()
                    =~= self.paid_history@.subrange(0, i as int));
                lemma_paid_sum_prefix(self.paid_history@, i + 1, self.paid_history@.len() as int);
                assert(self.paid_history@.subrange(0, self.paid_history@.len() as int)
                    =~= self.paid_history@);
            }
            if amount > self.amount_paid - sum {
                return false;
            }
            sum = sum + amount;
            i = i + 1;
        }
        assert(self.paid_history@.subrange(0, i as int) =~= self.paid_history@);
        sum == self.amount_paid
    }

    /// A copy of this agreement.
    pub fn duplicate(&self) -> (r: InstallmentAgreement)
        ensures
            r@ == self@,
    {
        let mut paid_history: Vec<PaidHistory> = Vec::new();
        let mut i: usize = 0;
        while i < self.paid_history.len()
            invariant
                i <= self.paid_history@.len(),
                paid_history@ == self.paid_history@.subrange(0, i as int),
            decreases self.paid_history@.len() - i,
        {
            let p = self.paid_history[i];
            paid_history.push(PaidHistory { amount: p.amount, timeline: p.timeline });
            i = i + 1;
            assert(paid_history@ =~= self.paid_history@.subrange(0, i as int));
        }
        assert(paid_history@ =~= self.paid_history@);
        InstallmentAgreement {
            id: self.id,
            buyer: self.buyer.duplicate(),
            seller: self.seller.duplicate(),
            is_accepted: self.is_accepted,
            amount_paid: self.amount_paid,
            paid_history,
            total_amount: self.total_amount,
            deadline: self.deadline,
            is_finalized: self.is_finalized,
            is_canceled: self.is_canceled,
            arbitrator: self.arbitrator.duplicate(),
            description: self.description.clone(),
            token: self.token.duplicate(),
        }
    }

    /// A proposed agreement, created at time `now` with its deadline `deadline`
    /// seconds later: not accepted, nothing paid.
    pub fn new(
        now: u64,
        id: u128,
        buyer: Identity,
        seller: Identity,
        amount: u128,
        deadline: u64,
        arbitrator: Identity,
        description: String,
        token: Identity,
    ) -> (r: InstallmentAgreement)
        requires
            now + deadline <= u64::MAX,
        ensures
            r.id == id,
            r.buyer == buyer,
            r.seller == seller,
            r.total_amount == amount,
            r.is_accepted == false,
            r.amount_paid == 0,
            r.paid_history@ == Seq::<PaidHistory>::empty(),
            r.deadline == now + deadline,
            r.is_finalized == false,
            r.is_canceled == false,
            r.arbitrator == arbitrator,
            r.description == description,
            r.token == token,
    {
        InstallmentAgreement {
            id,
            buyer,
            seller,
            total_amount: amount,
            is_accepted: false,
            amount_paid: 0,
            paid_history: Vec::new(),
            deadline: now + deadline,
            is_finalized: false,
            is_canceled: false,
            arbitrator,
            description,
            token,
        }
    }

    /// Records a payment of `amount` made at time `now`.
    pub fn update_installment_agreement_payment_and_history(&mut self, now: u64, amount: u128)
        requires
            old(self).amount_paid + amount <= u128::MAX,
        ensures
            final(self)@ == (AgreementView {
                paid_history: old(self)@.paid_history.push(PaidHistory { amount, timeline: now }),
                amount_paid: (old(self).amount_paid + amount) as u128,
                ..old(self)@
            }),
    {
        let payment_history = PaidHistory { amount, timeline: now };
        self.paid_history.push(payment_history);
        self.amount_paid = self.amount_paid + amount;
    }

    /// Marks the agreement finalized.
    pub fn finalize(&mut self)
        ensures
            final(self)@ == (AgreementView { is_finalized: true, ..old(self)@ }),
    {
        self.is_finalized = true;
    }

    /// Sets whether the seller accepts the agreement.
    pub fn accept_agreement(&mut self, accept_agreement: bool)
        ensures
            final(self)@ == (AgreementView { is_accepted: accept_agreement, ..old(self)@ }),
    {
        self.is_accepted = accept_agreement;
    }

    /// Marks the agreement canceled.
    pub fn cancel_agreement(&mut self)
        ensures
            final(self)@ == (AgreementView { is_canceled: true, ..old(self)@ }),
    {
        self.is_canceled = true;
    }
}

} // verus!
