use vstd::prelude::*;

use crate::identity::Identity;
use crate::installment_contracts::{AgreementView, InstallmentAgreement};

verus! {

/// The state of one installment contract: its admin, its id counter and its
/// agreements.
///
/// Agreements are never deleted; the agreement with id `i` sits at position
/// `i - 1`, so the counter is also the number of agreements.
pub struct InstallmentPayment {
    admin: Option<Identity>,
    agreement_counter: u128,
    agreements: Vec<InstallmentAgreement>,
}

/// Agreement `i` holds id `i + 1`, and every agreement is well formed.
pub open spec fn agreements_keyed(records: Seq<AgreementView>) -> bool {
    forall|i: int| 0 <= i < records.len() ==> (#[trigger] records[i]).id == i + 1 && records[i].wf()
}

impl InstallmentPayment {
    /// The admin slot.
    pub closed spec fn admin_slot(&self) -> Option<Identity> {
        self.admin
    }

    /// The id counter: the last id handed out, 0 before the first.
    pub closed spec fn counter(&self) -> nat {
        self.agreement_counter as nat
    }

    /// All agreements, in the order of their ids.
    pub closed spec fn records(&self) -> Seq<AgreementView> {
        self.agreements@.map_values(|a: InstallmentAgreement| a@)
    }

    pub open spec fn wf(&self) -> bool {
        &&& self.counter() == self.records().len()
        &&& agreements_keyed(self.records())
    }

    pub open spec fn contains(&self, id: u128) -> bool {
        1 <= id <= self.records().len()
    }

    pub open spec fn record(&self, id: u128) -> AgreementView {
        self.records()[id - 1]
    }

    /// A contract whose admin is `admin`, with no agreement yet.
    pub fn with_admin(admin: Identity) -> (r: InstallmentPayment)
        ensures
            r.wf(),
            r.admin_slot() == Some(admin),
            r.records().len() == 0,
    {
        let r = InstallmentPayment {
            admin: Some(admin),
            agreement_counter: 0,
            agreements: Vec::new(),
        };
        assert(r.records() =~= Seq::<AgreementView>::empty());
        r
    }

    /// The current admin, if there is one.
    pub fn admin(&self) -> (r: Option<&Identity>)
        ensures
            r is Some <==> self.admin_slot() is Some,
            r is Some ==> *r->0 == self.admin_slot()->0,
    {
        self.admin.as_ref()
    }

    /// The number of agreements created so far.
    pub fn agreement_count(&self) -> (r: usize)
        requires
            self.wf(),
        ensures
            r == self.records().len(),
    {
        self.agreements.len()
    }

    /// A fresh contract: no admin and no agreement.
    pub fn new() -> (r: InstallmentPayment)
        ensures
            r.wf(),
            r.admin_slot() is None,
            r.records().len() == 0,
    {
        let r = InstallmentPayment { admin: None, agreement_counter: 0, agreements: Vec::new() };
        assert(r.records() =~= Seq::<AgreementView>::empty());
        r
    }
}

/// Whether the contract has been given an admin.
pub fn has_admin(c: &InstallmentPayment) -> (r: bool)
    ensures
        r == (c.admin_slot() is Some),
{
    c.admin.is_some()
}

/// Puts `admin` in the admin slot.
pub fn set_admin(c: &mut InstallmentPayment, admin: Identity)
    ensures
        final(c).admin_slot() == Some(admin),
        final(c).counter() == old(c).counter(),
        final(c).records() == old(c).records(),
{
    c.admin = Some(admin);
}

/// The agreement with id `agreement_id`, if there is one.
pub fn get_installment_agreement(c: &InstallmentPayment, agreement_id: u128) -> (r: Option<
    &InstallmentAgreement,
>)
    requires
        c.wf(),
    ensures
        c.contains(agreement_id) <==> r is Some,
        c.contains(agreement_id) ==> r->0@ == c.record(agreement_id),
{
    if 1 <= agreement_id && agreement_id <= c.agreement_counter {
        let n: usize = c.agreements.len();
        assert(agreement_id - 1 < n);
        let i = (agreement_id - 1) as usize;
        Some(&c.agreements[i])
    } else {
        None
    }
}

/// Stores `installment_agreement` under `agreement_id`: it replaces the
/// agreement of that id, or, with the next id, it is added and the counter
/// moves on.
pub fn save_installment_agreement(
    c: &mut InstallmentPayment,
    agreement_id: u128,
    installment_agreement: InstallmentAgreement,
)
    requires
        old(c).wf(),
        installment_agreement@.wf(),
        installment_agreement.id == agreement_id,
        1 <= agreement_id <= old(c).records().len() + 1,
    ensures
        final(c).wf(),
        final(c).admin_slot() == old(c).admin_slot(),
        agreement_id <= old(c).records().len() ==> final(c).records() == old(c).records().update(
            agreement_id - 1,
            installment_agreement@,
        ),
        agreement_id == old(c).records().len() + 1 ==> final(c).records() == old(
            c,
        ).records().push(installment_agreement@),
{
    let ghost before = c.records();
    let ghost rec = installment_agreement@;
    let n: usize = c.agreements.len();
    if agreement_id <= c.agreement_counter {
        assert(agreement_id - 1 < n);
        let i = (agreement_id - 1) as usize;
        c.agreements.set(i, installment_agreement);
        assert(c.records() =~= before.update(i as int, rec));
    } else {
        c.agreements.push(installment_agreement);
        c.agreement_counter = c.agreement_counter + 1;
        assert(c.records() =~= before.push(rec));
    }
}

/// The last agreement id handed out, 0 before the first.
pub fn get_agreement_id(c: &InstallmentPayment) -> (r: u128)
    requires
        c.wf(),
    ensures
        r == c.records().len(),
{
    c.agreement_counter
}

} // verus!
