use vaccine_ledger::errors::Error;
use vaccine_ledger::ledger::VaccineLedger;

pub const ALICE: u64 = 1;
pub const BOB: u64 = 2;
pub const CHARLIE: u64 = 3;

// ALICE(1): system manager
// BOB(2): manufacture
// CHARLIE(3): user

#[test]
fn should_cause_error_for_register_role() {
    let mut ledger = VaccineLedger::new(3);
    ledger.set_genesis_account(ALICE);
    // 1 is system manager by default
    assert_eq!(ledger.sys_man(ALICE), true);
    // 2 claimed to be manufacture
    assert!(ledger.claim_vm(BOB).is_ok());

    // claim again after claimed but before approved
    assert_eq!(ledger.claim_vm(BOB), Err(Error::AlreadyClaimed));

    // 2 is manufacture
    assert!(ledger.approve_vm(ALICE, BOB).is_ok());

    // claim again after approved
    assert_eq!(ledger.claim_vm(BOB), Err(Error::AlreadyApproved));

    // not system manager approve role
    assert_eq!(ledger.approve_vm(CHARLIE, BOB), Err(Error::NotSysMan));

    // approve again after approved
    assert_eq!(ledger.approve_vm(ALICE, BOB), Err(Error::NotClaimed));
    // approve entity which does not claim
    assert_eq!(ledger.approve_vm(ALICE, CHARLIE), Err(Error::NotClaimed));
}

#[test]
fn tests_should_cause_error_for_register_role() {
    let mut ledger = VaccineLedger::new(3);
    ledger.set_genesis_account(ALICE);
    // 1 is system manager by default
    assert_eq!(ledger.sys_man(ALICE), true);
    // 2 claimed to be manufacture
    assert!(ledger.claim_vm(BOB).is_ok());

    // claim again after claimed but before approved
    assert_eq!(ledger.claim_vm(BOB), Err(Error::AlreadyClaimed));

    // 2 is manufacture
    assert!(ledger.approve_vm(ALICE, BOB).is_ok());

    // claim again after approved
    assert_eq!(ledger.claim_vm(BOB), Err(Error::AlreadyApproved));

    // not system manager approve role
    assert_eq!(ledger.approve_vm(CHARLIE, BOB), Err(Error::NotSysMan));

    // approve again after approved
    assert_eq!(ledger.approve_vm(ALICE, BOB), Err(Error::NotClaimed));
    // approve entity which does not claim
    assert_eq!(ledger.approve_vm(ALICE, CHARLIE), Err(Error::NotClaimed));
}
