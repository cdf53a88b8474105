use std::collections::HashMap;

use payment_contracts::custody::Transfer;
use payment_contracts::escrow_error::ContractError;
use payment_contracts::escrow_storage::{
    get_admin, get_next_escrow_id, has_admin, is_admin, AutoReleaseEscrowContract, DataKey, Escrow,
    EscrowStatus,
};
use payment_contracts::identity::Identity;

const CUSTODY: &str = "escrow-contract";

fn id(name: &str) -> Identity {
    Identity::new(String::from(name))
}

/// A token ledger that performs the transfers the contract asks for.
struct TokenLedger {
    balances: HashMap<String, i128>,
}

impl TokenLedger {
    fn new() -> Self {
        TokenLedger { balances: HashMap::new() }
    }

    fn mint(&mut self, who: &str, amount: i128) {
        *self.balances.entry(who.to_string()).or_insert(0) += amount;
    }

    fn balance(&self, who: &str) -> i128 {
        *self.balances.get(who).unwrap_or(&0)
    }

    fn move_funds(&mut self, from: &str, to: &str, amount: u128) {
        let amount = i128::try_from(amount).unwrap();
        assert!(self.balance(from) >= amount, "insufficient balance");
        *self.balances.entry(from.to_string()).or_insert(0) -= amount;
        *self.balances.entry(to.to_string()).or_insert(0) += amount;
    }

    fn apply(&mut self, t: &Transfer) {
        match t {
            Transfer::Deposit { from, amount, .. } => self.move_funds(from.as_str(), CUSTODY, *amount),
            Transfer::Payout { to, amount, .. } => self.move_funds(CUSTODY, to.as_str(), *amount),
        }
    }
}

struct EscrowTest {
    now: u64,
    contract: AutoReleaseEscrowContract,
    ledger: TokenLedger,
}

impl EscrowTest {
    fn setup() -> Self {
        let mut contract = AutoReleaseEscrowContract::new();
        let mut ledger = TokenLedger::new();
        ledger.mint("buyer", 10000);
        contract.initialize(id("admin")).unwrap();
        EscrowTest { now: 0, contract, ledger }
    }

    fn create(&mut self, amount: i128, release_timestamp: u64) -> u64 {
        let (escrow_id, deposit) = self
            .contract
            .create_escrow(id("buyer"), id("seller"), amount, id("token"), release_timestamp, self.now)
            .unwrap();
        self.ledger.apply(&deposit);
        escrow_id
    }

    fn release(&mut self, escrow_id: u64) -> Result<(), ContractError> {
        let payout = self.contract.release_funds(escrow_id, self.now)?;
        self.ledger.apply(&payout);
        Ok(())
    }

    fn refund(&mut self, admin: &str, escrow_id: u64) -> Result<(), ContractError> {
        let payout = self.contract.resolve_dispute_and_refund(&id(admin), escrow_id)?;
        self.ledger.apply(&payout);
        Ok(())
    }
}

#[test]
fn test_initialize() {
    let mut test = EscrowTest::setup();
    let result = test.contract.initialize(id("admin"));
    assert_eq!(result, Err(ContractError::AlreadyInitialized));
}

#[test]
fn test_set_admin() {
    let mut test = EscrowTest::setup();
    test.contract.set_admin(&id("admin"), id("new_admin")).unwrap();

    let escrow_id = test.create(100, test.now + 100);
    test.contract
        .dispute_escrow(&id("buyer"), escrow_id, String::from("reason"))
        .unwrap();

    test.refund("new_admin", escrow_id).unwrap();
    let escrow = test.contract.get_escrow(escrow_id).unwrap();
    assert_eq!(escrow.status, EscrowStatus::Refunded);
}

#[test]
fn test_set_admin_unauthorized() {
    let mut test = EscrowTest::setup();
    let result = test.contract.set_admin(&id("seller"), id("new_admin"));
    assert_eq!(result, Err(ContractError::NotAdmin));
}

#[test]
fn test_create_escrow_and_fund_locking() {
    let mut test = EscrowTest::setup();
    let release_timestamp = test.now + 3600;
    let escrow_id = test.create(1000, release_timestamp);

    assert_eq!(escrow_id, 1);

    let escrow = test.contract.get_escrow(escrow_id).unwrap();
    assert_eq!(escrow.buyer, id("buyer"));
    assert_eq!(escrow.seller, id("seller"));
    assert_eq!(escrow.amount, 1000);
    assert_eq!(escrow.status, EscrowStatus::Active);
    assert_eq!(escrow.buyer_confirmed, false);

    assert_eq!(test.ledger.balance("buyer"), 9000);
    assert_eq!(test.ledger.balance(CUSTODY), 1000);
}

#[test]
fn test_release_funds_after_time_elapses() {
    let mut test = EscrowTest::setup();
    let release_timestamp = test.now + 10;
    let escrow_id = test.create(1000, release_timestamp);

    test.now += 20;
    test.release(escrow_id).unwrap();

    let escrow = test.contract.get_escrow(escrow_id).unwrap();
    assert_eq!(escrow.status, EscrowStatus::Released);
    assert_eq!(test.ledger.balance("seller"), 1000);
    assert_eq!(test.ledger.balance(CUSTODY), 0);
}

#[test]
fn test_confirm_receipt_and_early_release() {
    let mut test = EscrowTest::setup();
    let release_timestamp = test.now + 3600;
    let escrow_id = test.create(1000, release_timestamp);

    test.contract.confirm_receipt(&id("buyer"), escrow_id).unwrap();
    let escrow_after_confirm = test.contract.get_escrow(escrow_id).unwrap();
    assert_eq!(escrow_after_confirm.buyer_confirmed, true);

    test.release(escrow_id).unwrap();
    let escrow_after_release = test.contract.get_escrow(escrow_id).unwrap();
    assert_eq!(escrow_after_release.status, EscrowStatus::Released);
    assert_eq!(test.ledger.balance("seller"), 1000);
}

#[test]
fn test_dispute_and_admin_refund() {
    let mut test = EscrowTest::setup();
    let release_timestamp = test.now + 3600;
    let escrow_id = test.create(1000, release_timestamp);

    let reason = String::from("Item not as described");
    test.contract.dispute_escrow(&id("buyer"), escrow_id, reason.clone()).unwrap();

    let escrow_after_dispute = test.contract.get_escrow(escrow_id).unwrap();
    assert_eq!(escrow_after_dispute.status, EscrowStatus::Disputed);
    assert_eq!(escrow_after_dispute.dispute_reason, Some(reason));

    test.refund("admin", escrow_id).unwrap();
    let escrow_after_refund = test.contract.get_escrow(escrow_id).unwrap();
    assert_eq!(escrow_after_refund.status, EscrowStatus::Refunded);

    assert_eq!(test.ledger.balance("buyer"), 10000);
    assert_eq!(test.ledger.balance(CUSTODY), 0);
}

#[test]
fn test_release_fails_before_time() {
    let mut test = EscrowTest::setup();
    let release_timestamp = test.now + 3600;
    let escrow_id = test.create(1000, release_timestamp);

    let result = test.release(escrow_id);
    assert_eq!(result, Err(ContractError::ReleaseTimeNotPassed));
}

#[test]
fn test_release_fails_if_disputed() {
    let mut test = EscrowTest::setup();
    let release_timestamp = test.now + 3600;
    let escrow_id = test.create(1000, release_timestamp);
    test.contract
        .dispute_escrow(&id("buyer"), escrow_id, String::from("reason"))
        .unwrap();

    let result = test.release(escrow_id);
    assert_eq!(result, Err(ContractError::EscrowNotActive));
}

#[test]
fn test_dispute_fails_if_not_buyer() {
    let mut test = EscrowTest::setup();
    let release_timestamp = test.now + 3600;
    let escrow_id = test.create(1000, release_timestamp);

    let result = test.contract.dispute_escrow(&id("seller"), escrow_id, String::from("reason"));
    assert_eq!(result, Err(ContractError::NotBuyer));
}

#[test]
fn test_dispute_fails_if_already_disputed() {
    let mut test = EscrowTest::setup();
    let release_timestamp = test.now + 3600;
    let escrow_id = test.create(1000, release_timestamp);
    test.contract
        .dispute_escrow(&id("buyer"), escrow_id, String::from("reason1"))
        .unwrap();

    let result = test.contract.dispute_escrow(&id("buyer"), escrow_id, String::from("reason2"));
    assert_eq!(result, Err(ContractError::EscrowAlreadyDisputed));
}

#[test]
fn test_resolve_dispute_fails_if_not_admin() {
    let mut test = EscrowTest::setup();
    let release_timestamp = test.now + 3600;
    let escrow_id = test.create(1000, release_timestamp);
    test.contract
        .dispute_escrow(&id("buyer"), escrow_id, String::from("reason"))
        .unwrap();

    let result = test.refund("seller", escrow_id);
    assert_eq!(result, Err(ContractError::NotAdmin));
}

// --- Further cases ---

#[test]
fn confirm_then_release_moves_exactly_the_amount_before_release_time() {
    let mut test = EscrowTest::setup();
    let escrow_id = test.create(1000, test.now + 3600);
    test.contract.confirm_receipt(&id("buyer"), escrow_id).unwrap();

    let payout = test.contract.release_funds(escrow_id, test.now).unwrap();
    match &payout {
        Transfer::Payout { token, to, amount } => {
            assert_eq!(*token, id("token"));
            assert_eq!(*to, id("seller"));
            assert_eq!(*amount, 1000);
        }
        Transfer::Deposit { .. } => panic!("a release pays out"),
    }
    let escrow = test.contract.get_escrow(escrow_id).unwrap();
    assert_eq!(escrow.status, EscrowStatus::Released);
}

#[test]
fn second_dispute_keeps_first_reason() {
    let mut test = EscrowTest::setup();
    let escrow_id = test.create(1000, test.now + 3600);
    test.contract
        .dispute_escrow(&id("buyer"), escrow_id, String::from("reason"))
        .unwrap();
    let result = test.contract.dispute_escrow(&id("buyer"), escrow_id, String::from("reason2"));
    assert_eq!(result, Err(ContractError::EscrowAlreadyDisputed));
    let escrow = test.contract.get_escrow(escrow_id).unwrap();
    assert_eq!(escrow.dispute_reason, Some(String::from("reason")));
}

#[test]
fn release_at_exact_release_time_succeeds() {
    let mut test = EscrowTest::setup();
    let escrow_id = test.create(1000, 50);
    test.now = 49;
    assert_eq!(test.release(escrow_id), Err(ContractError::ReleaseTimeNotPassed));
    test.now = 50;
    assert_eq!(test.release(escrow_id), Ok(()));
    assert_eq!(test.release(escrow_id), Err(ContractError::EscrowNotActive));
}

#[test]
fn released_escrow_cannot_be_disputed_or_refunded() {
    let mut test = EscrowTest::setup();
    let escrow_id = test.create(1000, 10);
    test.now = 10;
    test.release(escrow_id).unwrap();
    let dispute = test.contract.dispute_escrow(&id("buyer"), escrow_id, String::from("late"));
    assert_eq!(dispute, Err(ContractError::EscrowNotActive));
    assert_eq!(test.refund("admin", escrow_id), Err(ContractError::EscrowNotDisputed));
    let confirm = test.contract.confirm_receipt(&id("buyer"), escrow_id);
    assert_eq!(confirm, Err(ContractError::EscrowNotActive));
}

#[test]
fn refunded_escrow_stays_refunded() {
    let mut test = EscrowTest::setup();
    let escrow_id = test.create(1000, 3600);
    test.contract
        .dispute_escrow(&id("buyer"), escrow_id, String::from("reason"))
        .unwrap();
    test.refund("admin", escrow_id).unwrap();
    assert_eq!(test.refund("admin", escrow_id), Err(ContractError::EscrowNotDisputed));
    test.now = 5000;
    assert_eq!(test.release(escrow_id), Err(ContractError::EscrowNotActive));
    let escrow = test.contract.get_escrow(escrow_id).unwrap();
    assert_eq!(escrow.status, EscrowStatus::Refunded);
    assert_eq!(test.ledger.balance("buyer"), 10000);
}

#[test]
fn refund_requires_dispute() {
    let mut test = EscrowTest::setup();
    let escrow_id = test.create(1000, 3600);
    assert_eq!(test.refund("admin", escrow_id), Err(ContractError::EscrowNotDisputed));
}

#[test]
fn create_escrow_rejects_bad_terms() {
    let mut test = EscrowTest::setup();
    test.now = 100;
    let zero = test.contract.create_escrow(id("buyer"), id("seller"), 0, id("token"), 200, test.now);
    assert_eq!(zero.err(), Some(ContractError::InvalidAmount));
    let negative =
        test.contract.create_escrow(id("buyer"), id("seller"), -5, id("token"), 200, test.now);
    assert_eq!(negative.err(), Some(ContractError::InvalidAmount));
    let now_time =
        test.contract.create_escrow(id("buyer"), id("seller"), 10, id("token"), 100, test.now);
    assert_eq!(now_time.err(), Some(ContractError::InvalidReleaseTime));
    assert_eq!(test.contract.escrow_count(), 0);
}

#[test]
fn create_returns_the_deposit() {
    let mut test = EscrowTest::setup();
    let (escrow_id, deposit) = test
        .contract
        .create_escrow(id("buyer"), id("seller"), 250, id("token"), 10, 0)
        .unwrap();
    assert_eq!(escrow_id, 1);
    match deposit {
        Transfer::Deposit { token, from, amount } => {
            assert_eq!(token, id("token"));
            assert_eq!(from, id("buyer"));
            assert_eq!(amount, 250);
        }
        Transfer::Payout { .. } => panic!("a creation deposits"),
    }
    let (second, _) = test
        .contract
        .create_escrow(id("buyer"), id("seller"), 1, id("token"), 10, 0)
        .unwrap();
    assert_eq!(second, 2);
}

#[test]
fn unknown_escrow_is_not_found() {
    let mut test = EscrowTest::setup();
    assert_eq!(test.contract.get_escrow(1).err(), Some(ContractError::EscrowNotFound));
    assert_eq!(test.contract.get_escrow(0).err(), Some(ContractError::EscrowNotFound));
    assert_eq!(test.release(7), Err(ContractError::EscrowNotFound));
    assert_eq!(
        test.contract.confirm_receipt(&id("buyer"), 7),
        Err(ContractError::EscrowNotFound)
    );
    assert_eq!(test.refund("admin", 7), Err(ContractError::EscrowNotFound));
}

#[test]
fn confirm_by_stranger_is_refused_and_repeat_is_noop() {
    let mut test = EscrowTest::setup();
    let escrow_id = test.create(1000, 3600);
    assert_eq!(
        test.contract.confirm_receipt(&id("seller"), escrow_id),
        Err(ContractError::NotBuyer)
    );
    test.contract.confirm_receipt(&id("buyer"), escrow_id).unwrap();
    test.contract.confirm_receipt(&id("buyer"), escrow_id).unwrap();
    let escrow = test.contract.get_escrow(escrow_id).unwrap();
    assert_eq!(escrow.buyer_confirmed, true);
    assert_eq!(escrow.status, EscrowStatus::Active);
}

#[test]
fn admin_actions_fail_before_initialization() {
    let mut contract = AutoReleaseEscrowContract::new();
    assert!(!contract.has(DataKey::Admin));
    assert_eq!(contract.set_admin(&id("admin"), id("other")), Err(ContractError::NotAdmin));
    contract.initialize(id("admin")).unwrap();
    assert!(contract.has(DataKey::Admin));
    assert!(!contract.has(DataKey::EscrowCounter));
    assert!(!contract.has(DataKey::Escrow(1)));
}

#[test]
fn old_admin_loses_rights_after_handover() {
    let mut test = EscrowTest::setup();
    test.contract.set_admin(&id("admin"), id("new_admin")).unwrap();
    let escrow_id = test.create(1000, 3600);
    test.contract
        .dispute_escrow(&id("buyer"), escrow_id, String::from("reason"))
        .unwrap();
    assert_eq!(test.refund("admin", escrow_id), Err(ContractError::NotAdmin));
    assert_eq!(
        test.contract.set_admin(&id("admin"), id("admin")),
        Err(ContractError::NotAdmin)
    );
}

#[test]
fn escrow_level_transitions_and_well_formedness() {
    assert_eq!(
        Escrow::open(3, id("buyer"), id("seller"), 0, id("token"), 10, 0).err(),
        Some(ContractError::InvalidAmount)
    );
    let (mut escrow, deposit) =
        Escrow::open(3, id("buyer"), id("seller"), 40, id("token"), 10, 0).unwrap();
    assert_eq!(escrow.id, 3);
    assert!(escrow.is_well_formed());
    match deposit {
        Transfer::Deposit { from, amount, .. } => {
            assert_eq!(from, id("buyer"));
            assert_eq!(amount, 40);
        }
        Transfer::Payout { .. } => panic!("opening deposits"),
    }
    assert_eq!(escrow.release(9).err(), Some(ContractError::ReleaseTimeNotPassed));
    escrow.dispute(&id("buyer"), String::from("broken")).unwrap();
    assert!(escrow.is_well_formed());
    let payout = escrow.refund().unwrap();
    match payout {
        Transfer::Payout { to, amount, .. } => {
            assert_eq!(to, id("buyer"));
            assert_eq!(amount, 40);
        }
        Transfer::Deposit { .. } => panic!("a refund pays out"),
    }
    assert_eq!(escrow.status, EscrowStatus::Refunded);
    escrow.dispute_reason = None;
    assert!(!escrow.is_well_formed());
}

#[test]
fn storage_helpers_follow_the_store() {
    let mut contract = AutoReleaseEscrowContract::new();
    assert!(!has_admin(&contract));
    assert!(!is_admin(&contract, &id("admin")));
    assert_eq!(get_next_escrow_id(&contract), 1);
    contract = AutoReleaseEscrowContract::with_admin(id("admin"));
    assert!(has_admin(&contract));
    assert_eq!(*get_admin(&contract), id("admin"));
    assert!(is_admin(&contract, &id("admin")));
    assert!(!is_admin(&contract, &id("buyer")));
    contract
        .create_escrow(id("buyer"), id("seller"), 5, id("token"), 10, 0)
        .unwrap();
    assert_eq!(get_next_escrow_id(&contract), 2);
    assert!(contract.has(DataKey::EscrowCounter));
    assert!(contract.has(DataKey::Escrow(1)));
    assert!(!contract.has(DataKey::Escrow(2)));
}
