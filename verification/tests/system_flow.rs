use vaccine_ledger::ledger::VaccineLedger;
use vaccine_ledger::roles::Role;

pub const ALICE: u64 = 1;
pub const BOB: u64 = 2;
pub const CHARLIE: u64 = 3;
pub const DAVE: u64 = 4;
pub const EVE: u64 = 5;

// ALICE(1): system manager
// BOB(2): manufacture
// CHARLIE(3): VAO
// DAVE(4): VAD
// EVE(5): USER

#[test]
fn start_system() {
    let mut ledger = VaccineLedger::new(3);
    ledger.set_genesis_account(ALICE);
    // 1 is system manager by default
    assert_eq!(ledger.sys_man(ALICE), true);
    // 2 claimed to be manufacture
    assert!(ledger.claim_vm(BOB).is_ok());
    // 3 claimed to be authorized organization
    assert!(ledger.claim_vao(CHARLIE).is_ok());
    // 4 claimed to be distributer
    assert!(ledger.claim_vad(DAVE).is_ok());
    // 2 is manufacture
    assert!(ledger.approve_vm(ALICE, BOB).is_ok());
    // 3 is authorized organization
    assert!(ledger.approve_vao(ALICE, CHARLIE).is_ok());
    // 4 is distributer
    assert!(ledger.approve_vad(ALICE, DAVE).is_ok());
    // sysman(1) register vaccine type
    assert_eq!(ledger.register_vac_type(ALICE), Ok(1));
    // VM(2) register vaccine information
    assert!(ledger.register_vac_info(BOB, 1, 1).is_ok());
    // VAO approve vaccine
    assert!(ledger.approve_vaccine(CHARLIE, 1).is_ok());
    // VM transfer vaccine to VAD
    assert!(ledger.transfer_vaccine(BOB, DAVE, 1).is_ok());
    // VAD receive vaccine from VM
    assert!(ledger.receive_vaccine(DAVE, BOB, 1).is_ok());
    // User have a vaccine in VAD
    assert!(ledger.transfer_get_vaccine_right(DAVE, EVE, 1).is_ok());
    assert!(ledger.confirm_vaccine(EVE, DAVE, 1).is_ok());

    println!("vaccine info: {:?}", ledger.vaccines(1));
    println!("vaccine passport info: {:?}", ledger.vaccine_passports(EVE));
}

#[test]
fn tests_start_system() {
    let mut ledger = VaccineLedger::new(3);
    ledger.set_genesis_account(ALICE);
    // 1 is system manager by default
    assert_eq!(ledger.sys_man(ALICE), true);
    // 2 claimed to be manufacture
    assert!(ledger.claim_vm(BOB).is_ok());
    // 3 claimed to be authorized organization
    assert!(ledger.claim_vao(CHARLIE).is_ok());
    // 4 claimed to be distributer
    assert!(ledger.claim_vad(DAVE).is_ok());
    // 2 is manufacture
    assert!(ledger.approve_vm(ALICE, BOB).is_ok());
    // 3 is authorized organization
    assert!(ledger.approve_vao(ALICE, CHARLIE).is_ok());
    // 4 is distributer
    assert!(ledger.approve_vad(ALICE, DAVE).is_ok());
    // sysman(1) register vaccine type
    assert_eq!(ledger.register_vac_type(ALICE), Ok(1));
    // VM(2) register vaccine information
    assert!(ledger.register_vac_info(BOB, 1, 1).is_ok());
    // VAO approve vaccine
    assert!(ledger.approve_vaccine(CHARLIE, 1).is_ok());
    // VM transfer vaccine to VAD
    assert!(ledger.transfer_vaccine(BOB, DAVE, 1).is_ok());
    // VAD receive vaccine from VM
    assert!(ledger.receive_vaccine(DAVE, BOB, 1).is_ok());
    // User have a vaccine in VAD
    assert!(ledger.transfer_get_vaccine_right(DAVE, EVE, 1).is_ok());
    assert!(ledger.confirm_vaccine(EVE, DAVE, 1).is_ok());

    println!("vaccine info: {:?}", ledger.vaccines(1));
    println!("vaccine passport info: {:?}", ledger.vaccine_passports(EVE));
}

#[test]
fn tests_start_system_account() {
    let mut ledger = VaccineLedger::new(3);
    ledger.set_genesis_account(ALICE);
    // 2 claimed to be manufacture
    assert!(ledger.claim_role(BOB, Role::VM).is_ok());
    // 3 claimed to be authorized organization
    assert!(ledger.claim_role(CHARLIE, Role::VAO).is_ok());
    // 4 claimed to be distributer
    assert!(ledger.claim_role(DAVE, Role::VAD).is_ok());
    // 2 is manufacture
    assert!(ledger.approve_role(ALICE, BOB, Role::VM).is_ok());
    // 3 is authorized organization
    assert!(ledger.approve_role(ALICE, CHARLIE, Role::VAO).is_ok());
    // 4 is distributer
    assert!(ledger.approve_role(ALICE, DAVE, Role::VAD).is_ok());
    // sysman(1) register vaccine type
    assert_eq!(ledger.register_vac_type(ALICE), Ok(1));
    // VM(2) register vaccine information
    assert!(ledger.register_vac_info(BOB, 1, 1).is_ok());
    // VAO approve vaccine
    assert!(ledger.approve_vaccine(CHARLIE, 1).is_ok());
    // VM transfer vaccine to VAD
    assert!(ledger.transfer_vaccine(BOB, DAVE, 1).is_ok());
    // VAD receive vaccine from VM
    assert!(ledger.receive_vaccine(DAVE, BOB, 1).is_ok());
    // User have a vaccine in VAD
    assert!(ledger.transfer_get_vaccine_right(DAVE, EVE, 1).is_ok());
    assert!(ledger.confirm_vaccine(EVE, DAVE, 1).is_ok());

    println!("vaccine info: {:?}", ledger.vaccines(1));
    println!("vaccine passport info: {:?}", ledger.vaccine_passports(EVE));
}
