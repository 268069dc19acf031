use std::collections::HashMap;

use star_escrow::address::Address;
use star_escrow::escrow::events::EscrowEvent;
use star_escrow::escrow::storage::EscrowStatus;
use star_escrow::escrow::{Account, Effects, EscrowContract, EscrowError};

const CONTRACT: &str = "CESCROWCONTRACT";

/// Token balances, moved by the payments the contract asks for.
struct Setup {
    payer: Address,
    freelancer: Address,
    token_addr: Address,
    contract: EscrowContract,
    balances: HashMap<String, i128>,
}

impl Setup {
    fn new() -> Self {
        let payer = Address::new("GPAYER");
        let freelancer = Address::new("GFREELANCER");
        let token_addr = Address::new("CTOKEN");
        let mut balances = HashMap::new();
        // Mint 1000 tokens to payer
        balances.insert(payer.strkey.clone(), 1000);
        Setup { payer, freelancer, token_addr, contract: EscrowContract::new(), balances }
    }

    fn balance(&self, who: &str) -> i128 {
        *self.balances.get(who).unwrap_or(&0)
    }

    fn apply(&mut self, effects: &Effects) {
        if let Some(payment) = &effects.payment {
            assert_eq!(payment.token.strkey, self.token_addr.strkey);
            let key = |account: &Account| match account {
                Account::Escrow => CONTRACT.to_string(),
                Account::Party(a) => a.strkey.clone(),
            };
            *self.balances.entry(key(&payment.from)).or_insert(0) -= payment.amount;
            *self.balances.entry(key(&payment.to)).or_insert(0) += payment.amount;
        }
    }

    fn create(&mut self, amount: i128, milestone: &str, deadline: Option<u64>) -> Result<(), EscrowError> {
        let effects = self.contract.create(
            self.payer.clone(),
            self.freelancer.clone(),
            self.token_addr.clone(),
            amount,
            milestone.to_string(),
            deadline,
        )?;
        self.apply(&effects);
        Ok(())
    }

    fn run(&mut self, op: fn(&mut EscrowContract) -> Result<Effects, EscrowError>) -> Result<Effects, EscrowError> {
        let effects = op(&mut self.contract)?;
        self.apply(&effects);
        Ok(effects)
    }
}

#[test]
fn test_full_happy_path() {
    let mut s = Setup::new();
    s.create(500, "Deliver MVP", None).unwrap();

    // Payer balance reduced
    assert_eq!(s.balance("GPAYER"), 500);
    // Contract holds funds
    assert_eq!(s.balance(CONTRACT), 500);

    s.run(EscrowContract::submit_work).unwrap();
    s.run(EscrowContract::approve).unwrap();

    // Freelancer received funds
    assert_eq!(s.balance("GFREELANCER"), 500);
    assert_eq!(s.balance(CONTRACT), 0);
}

#[test]
fn test_cancel_refunds_payer() {
    let mut s = Setup::new();
    s.create(300, "Design mockups", None).unwrap();

    assert_eq!(s.balance("GPAYER"), 700);

    s.run(EscrowContract::cancel).unwrap();

    // Payer gets refund
    assert_eq!(s.balance("GPAYER"), 1000);
    assert_eq!(s.balance(CONTRACT), 0);
}

#[test]
fn test_cancel_after_submit_is_refused() {
    let mut s = Setup::new();
    s.create(200, "Write tests", None).unwrap();
    s.run(EscrowContract::submit_work).unwrap();
    assert_eq!(s.run(EscrowContract::cancel).unwrap_err(), EscrowError::NotActive);
    assert_eq!(s.contract.get_status(), EscrowStatus::WorkSubmitted);
    assert_eq!(s.balance(CONTRACT), 200);
}

#[test]
fn test_approve_before_submit_is_refused() {
    let mut s = Setup::new();
    s.create(100, "Deploy contract", None).unwrap();
    assert_eq!(s.run(EscrowContract::approve).unwrap_err(), EscrowError::WorkNotSubmitted);
    assert_eq!(s.contract.get_status(), EscrowStatus::Active);
}

#[test]
fn test_double_create_is_refused() {
    let mut s = Setup::new();
    s.create(100, "Phase 1", None).unwrap();
    assert_eq!(s.create(100, "Phase 1", None), Err(EscrowError::AlreadyExists));
    assert_eq!(s.balance("GPAYER"), 900);
    assert_eq!(s.contract.get_escrow().milestone, "Phase 1");
}

#[test]
fn test_create_rejects_non_positive_amount() {
    let mut s = Setup::new();
    assert_eq!(s.create(0, "Nothing", None), Err(EscrowError::InvalidAmount));
    assert_eq!(s.create(-5, "Negative", None), Err(EscrowError::InvalidAmount));
    assert_eq!(s.balance("GPAYER"), 1000);
    // The contract still holds no escrow: a valid create goes through.
    s.create(1, "Tiny", None).unwrap();
    assert_eq!(s.balance(CONTRACT), 1);
}

#[test]
fn test_create_records_terms_and_effects() {
    let mut contract = EscrowContract::new();
    let effects = contract
        .create(
            Address::new("GPAYER"),
            Address::new("GFREELANCER"),
            Address::new("CTOKEN"),
            42,
            "Logo".to_string(),
            Some(1_000),
        )
        .unwrap();
    assert_eq!(effects.authorizer.strkey, "GPAYER");
    assert_eq!(effects.event.topic(), "escrow_created");
    match &effects.event {
        EscrowEvent::EscrowCreated { payer, freelancer, amount, milestone } => {
            assert_eq!(payer.strkey, "GPAYER");
            assert_eq!(freelancer.strkey, "GFREELANCER");
            assert_eq!(*amount, 42);
            assert_eq!(milestone, "Logo");
        }
        other => panic!("unexpected event {:?}", other),
    }
    let data = contract.get_escrow();
    assert_eq!(data.amount, 42);
    assert_eq!(data.deadline, Some(1_000));
    assert_eq!(data.status, EscrowStatus::Active);
    assert_eq!(data.token.strkey, "CTOKEN");
}

#[test]
fn test_submit_work_needs_freelancer_and_emits_event() {
    let mut s = Setup::new();
    s.create(10, "M", None).unwrap();
    let effects = s.run(EscrowContract::submit_work).unwrap();
    assert_eq!(effects.authorizer.strkey, "GFREELANCER");
    assert!(effects.payment.is_none());
    assert_eq!(effects.event.topic(), "work_submitted");
    assert_eq!(s.run(EscrowContract::submit_work).unwrap_err(), EscrowError::NotActive);
}

#[test]
fn test_approve_and_cancel_need_payer() {
    let mut s = Setup::new();
    s.create(10, "M", None).unwrap();
    s.run(EscrowContract::submit_work).unwrap();
    let effects = s.run(EscrowContract::approve).unwrap();
    assert_eq!(effects.authorizer.strkey, "GPAYER");
    assert_eq!(effects.event.topic(), "payment_released");

    let mut t = Setup::new();
    t.create(10, "M", None).unwrap();
    let effects = t.run(EscrowContract::cancel).unwrap();
    assert_eq!(effects.authorizer.strkey, "GPAYER");
    assert_eq!(effects.event.topic(), "escrow_cancelled");
}

#[test]
fn test_expire_needs_a_passed_deadline() {
    let mut s = Setup::new();
    s.create(400, "Late work", Some(100)).unwrap();
    assert_eq!(s.contract.expire(50).unwrap_err(), EscrowError::DeadlineNotPassed);
    // The deadline itself is not yet past.
    assert_eq!(s.contract.expire(100).unwrap_err(), EscrowError::DeadlineNotPassed);
    let effects = s.contract.expire(101).unwrap();
    s.apply(&effects);
    assert_eq!(effects.authorizer.strkey, "GPAYER");
    assert_eq!(effects.event.topic(), "escrow_expired");
    assert_eq!(s.balance("GPAYER"), 1000);
    assert_eq!(s.balance(CONTRACT), 0);
    assert_eq!(s.contract.get_status(), EscrowStatus::Expired);
}

#[test]
fn test_expire_without_deadline_is_refused() {
    let mut s = Setup::new();
    s.create(400, "Open ended", None).unwrap();
    assert_eq!(s.contract.expire(u64::MAX).unwrap_err(), EscrowError::NotExpired);
}

#[test]
fn test_expire_after_submission_is_refused() {
    let mut s = Setup::new();
    s.create(400, "Submitted", Some(10)).unwrap();
    s.run(EscrowContract::submit_work).unwrap();
    assert_eq!(s.contract.expire(11).unwrap_err(), EscrowError::NotActive);
}

#[test]
fn test_settled_escrow_refuses_everything() {
    for settle in 0..3 {
        let mut s = Setup::new();
        s.create(50, "Settle", Some(5)).unwrap();
        match settle {
            0 => {
                s.run(EscrowContract::submit_work).unwrap();
                s.run(EscrowContract::approve).unwrap();
            }
            1 => {
                s.run(EscrowContract::cancel).unwrap();
            }
            _ => {
                let effects = s.contract.expire(6).unwrap();
                s.apply(&effects);
            }
        }
        let status = s.contract.get_status();
        assert!(s.run(EscrowContract::submit_work).is_err());
        assert!(s.run(EscrowContract::approve).is_err());
        assert!(s.run(EscrowContract::cancel).is_err());
        assert!(s.contract.expire(1_000).is_err());
        assert_eq!(s.contract.get_status(), status);
        // Funds conserved: everything locked was paid out exactly once.
        assert_eq!(s.balance(CONTRACT), 0);
        assert_eq!(s.balance("GPAYER") + s.balance("GFREELANCER"), 1000);
    }
}

#[test]
fn test_terms_never_change() {
    let mut s = Setup::new();
    s.create(77, "Terms", Some(9)).unwrap();
    s.run(EscrowContract::submit_work).unwrap();
    s.run(EscrowContract::approve).unwrap();
    let data = s.contract.get_escrow();
    assert_eq!(data.payer.strkey, "GPAYER");
    assert_eq!(data.freelancer.strkey, "GFREELANCER");
    assert_eq!(data.token.strkey, "CTOKEN");
    assert_eq!(data.amount, 77);
    assert_eq!(data.milestone, "Terms");
    assert_eq!(data.deadline, Some(9));
    assert_eq!(data.status, EscrowStatus::Completed);
}
