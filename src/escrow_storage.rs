use vstd::prelude::*;

use crate::escrow_error::ContractError;
use crate::identity::Identity;

verus! {

/// Where an escrow stands.
#[derive(Clone, Copy, Debug, PartialEq, Eq, Structural)]
pub enum EscrowStatus {
    /// Funds are locked and the release time is pending.
    Active,
    /// Funds have been paid to the seller.
    Released,
    /// Funds have been returned to the buyer.
    Refunded,
    /// Awaiting the admin's decision.
    Disputed,
}

/// One escrow: the buyer's funds held for the seller.
#[derive(Debug)]
pub struct Escrow {
    pub id: u64,
    pub buyer: Identity,
    pub seller: Identity,
    pub amount: i128,
    pub payment_token: Identity,
    pub release_timestamp: u64,
    pub status: EscrowStatus,
    pub dispute_reason: Option<String>,
    pub buyer_confirmed: bool,
}

impl Escrow {
    /// A record is well formed when it holds a positive amount and carries a
    /// dispute reason exactly when it has been disputed.
    pub open spec fn wf(&self) -> bool {
        &&& self.amount > 0
        &&& self.dispute_reason.is_some() <==> (self.status == EscrowStatus::Disputed
            || self.status == EscrowStatus::Refunded)
    }

    /// Whether the record is well formed.
    pub fn is_well_formed(&self) -> (r: bool)
        ensures
            r == self.wf(),
    {
        let disputed = self.status == EscrowStatus::Disputed || self.status
            == EscrowStatus::Refunded;
        self.amount > 0 && self.dispute_reason.is_some() == disputed
    }

    /// A copy of this record.
    pub fn duplicate(&self) -> (r: Escrow)
        ensures
            r == *self,
    {
        let dispute_reason = match &self.dispute_reason {
            Some(reason) => Some(reason.clone()),
            None => None,
        };
        Escrow {
            id: self.id,
            buyer: self.buyer.duplicate(),
            seller: self.seller.duplicate(),
            amount: self.amount,
            payment_token: self.payment_token.duplicate(),
            release_timestamp: self.release_timestamp,
            status: self.status,
            dispute_reason,
            buyer_confirmed: self.buyer_confirmed,
        }
    }
}

/// The slots of the escrow contract's store.
#[derive(Clone, Copy, Debug, PartialEq, Eq, Structural)]
pub enum DataKey {
    Admin,
    EscrowCounter,
    Escrow(u64),
}

/// The state of one escrow contract: its admin, its id counter and its records.
///
/// Records are never deleted; the record with id `i` sits at position `i - 1`,
/// so the counter is also the number of records.
pub struct AutoReleaseEscrowContract {
    admin: Option<Identity>,
    escrow_counter: u64,
    escrows: Vec<Escrow>,
}

/// Record `i` holds id `i + 1`, and every record is well formed.
pub open spec fn well_keyed(records: Seq<Escrow>) -> bool {
    forall|i: int| 0 <= i < records.len() ==> (#[trigger] records[i]).id == i + 1 && records[i].wf()
}

impl AutoReleaseEscrowContract {
    /// The admin slot.
    pub closed spec fn admin_slot(&self) -> Option<Identity> {
        self.admin
    }

    /// The id counter: the last id handed out, 0 before the first.
    pub closed spec fn counter(&self) -> nat {
        self.escrow_counter as nat
    }

    /// All records, in the order of their ids.
    pub closed spec fn records(&self) -> Seq<Escrow> {
        self.escrows@
    }

    pub open spec fn wf(&self) -> bool {
        &&& self.counter() == self.records().len()
        &&& well_keyed(self.records())
    }

    pub open spec fn contains(&self, id: u64) -> bool {
        1 <= id <= self.records().len()
    }

    pub open spec fn record(&self, id: u64) -> Escrow {
        self.records()[id - 1]
    }

    /// Whether `who` is the current admin.
    pub open spec fn admin_is(&self, who: Identity) -> bool {
        self.admin_slot() is Some && self.admin_slot()->0@ == who@
    }

    /// Whether a slot of the store holds a value.
    pub open spec fn holds(&self, key: DataKey) -> bool {
        match key {
            DataKey::Admin => self.admin_slot() is Some,
            DataKey::EscrowCounter => self.counter() > 0,
            DataKey::Escrow(id) => self.contains(id),
        }
    }

    /// A fresh contract: no admin and no escrow.
    pub fn new() -> (r: AutoReleaseEscrowContract)
        ensures
            r.wf(),
            r.admin_slot() is None,
            r.records().len() == 0,
    {
        AutoReleaseEscrowContract { admin: None, escrow_counter: 0, escrows: Vec::new() }
    }

    /// A contract whose admin is `admin`, with no escrow yet.
    pub fn with_admin(admin: Identity) -> (r: AutoReleaseEscrowContract)
        ensures
            r.wf(),
            r.admin_slot() == Some(admin),
            r.records().len() == 0,
    {
        AutoReleaseEscrowContract { admin: Some(admin), escrow_counter: 0, escrows: Vec::new() }
    }

    /// The current admin, if there is one.
    pub fn admin(&self) -> (r: Option<&Identity>)
        ensures
            r is Some <==> self.admin_slot() is Some,
            r is Some ==> *r->0 == self.admin_slot()->0,
    {
        self.admin.as_ref()
    }

    /// The number of escrows created so far.
    pub fn escrow_count(&self) -> (r: u64)
        requires
            self.wf(),
        ensures
            r == self.records().len(),
    {
        self.escrow_counter
    }

    /// Whether a slot of the store holds a value.
    pub fn has(&self, key: DataKey) -> (r: bool)
        requires
            self.wf(),
        ensures
            r == self.holds(key),
    {
        match key {
            DataKey::Admin => self.admin.is_some(),
            DataKey::EscrowCounter => self.escrow_counter > 0,
            DataKey::Escrow(id) => 1 <= id && id <= self.escrow_counter,
        }
    }
}

/// Whether the contract has been given an admin.
pub fn has_admin(c: &AutoReleaseEscrowContract) -> (r: bool)
    requires
        c.wf(),
    ensures
        r == (c.admin_slot() is Some),
{
    c.has(DataKey::Admin)
}

/// Puts `admin` in the admin slot, replacing what was there.
pub fn set_admin(c: &mut AutoReleaseEscrowContract, admin: Identity)
    ensures
        final(c).admin_slot() == Some(admin),
        final(c).counter() == old(c).counter(),
        final(c).records() == old(c).records(),
{
    c.admin = Some(admin);
}

/// The current admin.
pub fn get_admin(c: &AutoReleaseEscrowContract) -> (r: &Identity)
    requires
        c.admin_slot() is Some,
    ensures
        *r == c.admin_slot()->0,
{
    c.admin.as_ref().unwrap()
}

/// Whether `user` is the current admin; never true before an admin is set.
pub fn is_admin(c: &AutoReleaseEscrowContract, user: &Identity) -> (r: bool)
    ensures
        r == c.admin_is(*user),
{
    match &c.admin {
        Some(admin) => *admin == *user,
        None => false,
    }
}

/// The id that the next escrow stored will receive.
pub fn get_next_escrow_id(c: &AutoReleaseEscrowContract) -> (r: u64)
    requires
        c.wf(),
        c.counter() < u64::MAX,
    ensures
        r == c.counter() + 1,
{
    c.escrow_counter + 1
}

/// The record with id `escrow_id`.
pub fn get_escrow(c: &AutoReleaseEscrowContract, escrow_id: u64) -> (r: Result<&Escrow, ContractError>)
    requires
        c.wf(),
    ensures
        c.contains(escrow_id) ==> r == Ok::<&Escrow, ContractError>(&c.record(escrow_id)),
        !c.contains(escrow_id) ==> r == Err::<&Escrow, ContractError>(ContractError::EscrowNotFound),
{
    if 1 <= escrow_id && escrow_id <= c.escrow_counter {
        let n: usize = c.escrows.len();
        assert(escrow_id - 1 < n);
        let i = (escrow_id - 1) as usize;
        Ok(&c.escrows[i])
    } else {
        Err(ContractError::EscrowNotFound)
    }
}

/// Stores `escrow` under its id: it replaces the record of that id, or, with
/// the next id, it is added and the counter moves on.
pub fn set_escrow(c: &mut AutoReleaseEscrowContract, escrow: Escrow)
    requires
        old(c).wf(),
        escrow.wf(),
        1 <= escrow.id <= old(c).records().len() + 1,
    ensures
        final(c).wf(),
        final(c).admin_slot() == old(c).admin_slot(),
        escrow.id <= old(c).records().len() ==> final(c).records() == old(c).records().update(
            escrow.id - 1,
            escrow,
        ),
        escrow.id == old(c).records().len() + 1 ==> final(c).records() == old(c).records().push(
            escrow,
        ),
{
    let ghost before = c.escrows@;
    if escrow.id <= c.escrow_counter {
        let n: usize = c.escrows.len();
        assert(escrow.id - 1 < n);
        let i = (escrow.id - 1) as usize;
        c.escrows.set(i, escrow);
    } else {
        c.escrows.push(escrow);
        c.escrow_counter = c.escrow_counter + 1;
    }
    assert forall|i: int| 0 <= i < c.escrows@.len() implies (#[trigger] c.escrows@[i]).id == i + 1
        && c.escrows@[i].wf() by {
        if i < before.len() && i != escrow.id - 1 {
            assert(c.escrows@[i] == before[i]);
        }
    }
}

} // verus!
