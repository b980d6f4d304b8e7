use work_escrow::EscrowError;
use work_escrow::Ledger;
use work_escrow::WorkContract;
use work_escrow::payment_due;

const ALICE: u64 = 1;
const BOB: u64 = 2;
const ESCROW: u64 = 9;
const ID: u64 = 7;

fn funded_setup() -> (WorkContract, Ledger) {
    let mut contract = WorkContract::new(ESCROW);
    let mut ledger = Ledger::new();
    ledger.set_balance(ALICE, 500);
    assert_eq!(contract.init(ID, ALICE, ALICE, BOB, 100), Ok(()));
    (contract, ledger)
}

#[test]
fn full_run_settles_escrow() {
    let (mut contract, mut ledger) = funded_setup();
    assert_eq!(contract.fund(ID, ALICE, &mut ledger), Ok(()));
    assert_eq!(ledger.balance_of(ALICE), 400);
    assert_eq!(ledger.balance_of(ESCROW), 100);
    let agreement = contract.get_agreement(ID).unwrap();
    assert!(agreement.funded);
    assert!(!agreement.completed);

    assert_eq!(contract.submit_work(ID, BOB), Ok(()));
    let agreement = contract.get_agreement(ID).unwrap();
    assert!(agreement.completed);

    assert_eq!(contract.approve_and_pay(ID, ALICE, &mut ledger), Ok(()));
    assert_eq!(ledger.balance_of(ALICE), 400);
    assert_eq!(ledger.balance_of(BOB), 100);
    assert_eq!(ledger.balance_of(ESCROW), 0);
}

#[test]
fn approve_before_ready_is_a_silent_no_op() {
    let (mut contract, mut ledger) = funded_setup();

    // Neither funded nor completed.
    assert_eq!(contract.approve_and_pay(ID, ALICE, &mut ledger), Ok(()));
    assert_eq!(ledger.balance_of(ALICE), 500);
    assert_eq!(ledger.balance_of(BOB), 0);

    // Funded but not completed.
    assert_eq!(contract.fund(ID, ALICE, &mut ledger), Ok(()));
    assert_eq!(contract.approve_and_pay(ID, ALICE, &mut ledger), Ok(()));
    assert_eq!(ledger.balance_of(ALICE), 400);
    assert_eq!(ledger.balance_of(BOB), 0);
    assert_eq!(ledger.balance_of(ESCROW), 100);
}

#[test]
fn approve_completed_but_unfunded_moves_nothing() {
    let (mut contract, mut ledger) = funded_setup();
    assert_eq!(contract.submit_work(ID, BOB), Ok(()));
    assert_eq!(contract.approve_and_pay(ID, ALICE, &mut ledger), Ok(()));
    assert_eq!(ledger.balance_of(ALICE), 500);
    assert_eq!(ledger.balance_of(BOB), 0);
    assert_eq!(ledger.balance_of(ESCROW), 0);
}

#[test]
fn fund_by_non_client_fails_and_leaves_unfunded() {
    let (mut contract, mut ledger) = funded_setup();
    ledger.set_balance(BOB, 500);
    assert_eq!(
        contract.fund(ID, BOB, &mut ledger),
        Err(EscrowError::AuthorizationError)
    );
    let agreement = contract.get_agreement(ID).unwrap();
    assert!(!agreement.funded);
    assert_eq!(ledger.balance_of(ALICE), 500);
    assert_eq!(ledger.balance_of(BOB), 500);
    assert_eq!(ledger.balance_of(ESCROW), 0);
}

#[test]
fn submit_by_non_worker_fails_and_leaves_incomplete() {
    let (mut contract, _ledger) = funded_setup();
    assert_eq!(
        contract.submit_work(ID, ALICE),
        Err(EscrowError::AuthorizationError)
    );
    let agreement = contract.get_agreement(ID).unwrap();
    assert!(!agreement.completed);
}

#[test]
fn operations_before_init_fail() {
    let mut contract = WorkContract::new(ESCROW);
    let mut ledger = Ledger::new();
    ledger.set_balance(ALICE, 500);
    assert_eq!(
        contract.fund(ID, ALICE, &mut ledger),
        Err(EscrowError::NotInitialized)
    );
    assert_eq!(
        contract.submit_work(ID, BOB),
        Err(EscrowError::NotInitialized)
    );
    assert_eq!(
        contract.approve_and_pay(ID, ALICE, &mut ledger),
        Err(EscrowError::NotInitialized)
    );
    assert_eq!(ledger.balance_of(ALICE), 500);
}

#[test]
fn fund_and_submit_order_is_immaterial() {
    let (mut fund_first, mut ledger_a) = funded_setup();
    assert_eq!(fund_first.fund(ID, ALICE, &mut ledger_a), Ok(()));
    assert_eq!(fund_first.submit_work(ID, BOB), Ok(()));
    assert_eq!(fund_first.approve_and_pay(ID, ALICE, &mut ledger_a), Ok(()));

    let (mut submit_first, mut ledger_b) = funded_setup();
    assert_eq!(submit_first.submit_work(ID, BOB), Ok(()));
    assert_eq!(submit_first.fund(ID, ALICE, &mut ledger_b), Ok(()));
    assert_eq!(submit_first.approve_and_pay(ID, ALICE, &mut ledger_b), Ok(()));

    assert_eq!(
        fund_first.get_agreement(ID).unwrap(),
        submit_first.get_agreement(ID).unwrap()
    );
    for account in [ALICE, BOB, ESCROW] {
        assert_eq!(ledger_a.balance_of(account), ledger_b.balance_of(account));
    }
}

#[test]
fn rejected_deposit_leaves_unfunded_and_retry_succeeds() {
    let mut contract = WorkContract::new(ESCROW);
    let mut ledger = Ledger::new();
    ledger.set_balance(ALICE, 40);
    assert_eq!(contract.init(ID, ALICE, ALICE, BOB, 100), Ok(()));
    assert_eq!(
        contract.fund(ID, ALICE, &mut ledger),
        Err(EscrowError::TransferError)
    );
    let agreement = contract.get_agreement(ID).unwrap();
    assert!(!agreement.funded);
    assert_eq!(ledger.balance_of(ALICE), 40);
    assert_eq!(ledger.balance_of(ESCROW), 0);

    ledger.set_balance(ALICE, 150);
    assert_eq!(contract.fund(ID, ALICE, &mut ledger), Ok(()));
    assert!(contract.get_agreement(ID).unwrap().funded);
    assert_eq!(ledger.balance_of(ALICE), 50);
    assert_eq!(ledger.balance_of(ESCROW), 100);
}

#[test]
fn init_requires_the_client_as_caller() {
    let mut contract = WorkContract::new(ESCROW);
    assert_eq!(
        contract.init(ID, BOB, ALICE, BOB, 100),
        Err(EscrowError::AuthorizationError)
    );
    assert!(contract.get_agreement(ID).is_none());
}

#[test]
fn init_twice_conflicts() {
    let (mut contract, _ledger) = funded_setup();
    assert_eq!(
        contract.init(ID, ALICE, ALICE, BOB, 250),
        Err(EscrowError::StorageConflict)
    );
    let agreement = contract.get_agreement(ID).unwrap();
    assert_eq!(agreement.amount, 100);
}

#[test]
fn agreements_are_kept_per_identifier() {
    let (mut contract, mut ledger) = funded_setup();
    assert_eq!(contract.init(8, BOB, BOB, ALICE, 30), Ok(()));
    ledger.set_balance(BOB, 70);
    assert_eq!(contract.fund(8, BOB, &mut ledger), Ok(()));
    assert!(!contract.get_agreement(ID).unwrap().funded);
    assert!(contract.get_agreement(8).unwrap().funded);
    assert_eq!(ledger.balance_of(BOB), 40);
    assert_eq!(ledger.balance_of(ESCROW), 30);
}

#[test]
fn funding_again_re_executes_the_deposit() {
    // There is no guard against double funding: a second `fund` runs the
    // deposit transfer again.
    let (mut contract, mut ledger) = funded_setup();
    assert_eq!(contract.fund(ID, ALICE, &mut ledger), Ok(()));
    assert_eq!(contract.fund(ID, ALICE, &mut ledger), Ok(()));
    assert_eq!(ledger.balance_of(ALICE), 300);
    assert_eq!(ledger.balance_of(ESCROW), 200);
    assert!(contract.get_agreement(ID).unwrap().funded);
}

#[test]
fn repeated_release_fails_once_custody_is_empty() {
    // There is no terminal paid flag: a second `approve_and_pay` requests
    // the transfer again, and fails only because custody no longer covers
    // the amount.
    let (mut contract, mut ledger) = funded_setup();
    assert_eq!(contract.fund(ID, ALICE, &mut ledger), Ok(()));
    assert_eq!(contract.submit_work(ID, BOB), Ok(()));
    assert_eq!(contract.approve_and_pay(ID, ALICE, &mut ledger), Ok(()));
    assert_eq!(
        contract.approve_and_pay(ID, ALICE, &mut ledger),
        Err(EscrowError::TransferError)
    );
    assert_eq!(ledger.balance_of(BOB), 100);
    assert_eq!(ledger.balance_of(ESCROW), 0);
}

#[test]
fn payment_due_only_when_funded_and_completed() {
    assert!(payment_due(true, true));
    assert!(!payment_due(true, false));
    assert!(!payment_due(false, true));
    assert!(!payment_due(false, false));
}
