//! End-to-end scenarios: the dispatcher driven the way the host embedding
//! drives it, with the provisioning step simulated in the test.

use pda_counter::accounts::Account;
use pda_counter::codec::{decode, COUNTER_LEN};
use pda_counter::error::CounterError;
use pda_counter::process::{init_finish, process_instruction, Outcome};
use solana_program::rent::Rent;

const INIT: u8 = 0;
const INCREMENT: u8 = 1;
const DECREMENT: u8 = 2;

fn key(b: u8) -> Vec<u8> {
    vec![b; 32]
}

fn program_id() -> Vec<u8> {
    key(0xAB)
}

fn system_owner() -> Vec<u8> {
    key(0x00)
}

fn signer(owner: u8) -> Account {
    Account {
        key: key(owner),
        is_signer: true,
        owner: system_owner(),
        data: vec![],
    }
}

fn derived(owner: &[u8]) -> (Vec<u8>, u8) {
    pda_counter::derive::derive_address(&owner.to_vec(), &program_id()).unwrap()
}

/// A storage account at the owner's derived address, not yet provisioned.
fn fresh_counter_account(owner: u8) -> Account {
    let (address, _bump) = derived(&key(owner));
    Account {
        key: address,
        is_signer: false,
        owner: system_owner(),
        data: vec![],
    }
}

/// Run Init end to end, simulating the host's account creation, and return
/// the initialized storage account and the lamports the host was asked for.
fn run_init(owner: u8) -> (Account, u64) {
    let authority = signer(owner);
    let mut counter = fresh_counter_account(owner);
    let outcome = process_instruction(&program_id(), &authority, &mut counter, &vec![INIT])
        .expect("init should not fail");
    let request = match outcome {
        Outcome::NeedsProvision(request) => request,
        Outcome::Complete => panic!("a fresh account needs provisioning"),
    };
    assert_eq!(request.payer, authority.key);
    assert_eq!(request.address, counter.key);
    assert_eq!(request.space, COUNTER_LEN as u64);
    assert_eq!(request.bump, derived(&key(owner)).1);
    // What the host does with the request: create the account at the derived
    // address, zero-filled at the requested size, funded to the rent
    // minimum, owned by the handling program.
    let lamports = Rent::default().minimum_balance(request.space as usize);
    counter.owner = program_id();
    counter.data = vec![0u8; request.space as usize];
    init_finish(&authority.key, request.bump, &mut counter).expect("init_finish should succeed");
    (counter, lamports)
}

fn run_step(owner: u8, counter: &mut Account, ix: u8) -> Result<(), CounterError> {
    let authority = signer(owner);
    match process_instruction(&program_id(), &authority, counter, &vec![ix]) {
        Ok(Outcome::Complete) => Ok(()),
        Ok(Outcome::NeedsProvision(_)) => panic!("only Init provisions"),
        Err(e) => Err(e),
    }
}

fn count_of(counter: &Account) -> u64 {
    decode(&counter.data).expect("stored record should decode").count
}

#[test]
fn scenario_init_creates_record() {
    let owner = 0x11;
    let (counter, lamports) = run_init(owner);
    assert_eq!(counter.data.len(), COUNTER_LEN);
    let record = decode(&counter.data).unwrap();
    assert_eq!(record.authority, key(owner));
    assert_eq!(record.count, 0);
    assert_eq!(record.bump, derived(&key(owner)).1);
    assert_eq!(lamports, Rent::default().minimum_balance(COUNTER_LEN));
}

#[test]
fn scenario_three_increments() {
    let owner = 0x11;
    let (mut counter, _) = run_init(owner);
    for _ in 0..3 {
        run_step(owner, &mut counter, INCREMENT).expect("increment should succeed");
    }
    assert_eq!(count_of(&counter), 3);
}

#[test]
fn scenario_decrement_at_zero() {
    let owner = 0x11;
    let (mut counter, _) = run_init(owner);
    let r = run_step(owner, &mut counter, DECREMENT);
    assert_eq!(r, Err(CounterError::ArithmeticUnderflow));
    assert_eq!(count_of(&counter), 0);
}

#[test]
fn scenario_foreign_signer_rejected() {
    let owner = 0x11;
    let intruder = 0x22;
    let (mut counter, _) = run_init(owner);
    run_step(owner, &mut counter, INCREMENT).unwrap();
    let r = run_step(intruder, &mut counter, INCREMENT);
    assert_eq!(r, Err(CounterError::AuthorizationFailure));
    assert_eq!(count_of(&counter), 1);
}

#[test]
fn increment_then_decrement_round_trip() {
    let owner = 0x11;
    let (mut counter, _) = run_init(owner);
    run_step(owner, &mut counter, INCREMENT).unwrap();
    run_step(owner, &mut counter, DECREMENT).unwrap();
    assert_eq!(count_of(&counter), 0);
}

#[test]
fn increment_overflow_rejected() {
    let owner = 0x11;
    let (mut counter, _) = run_init(owner);
    // Put the stored count at the top of its range, as a long history of
    // increments would.
    let mut record = decode(&counter.data).unwrap();
    record.count = u64::MAX;
    counter.data = pda_counter::codec::encode(&record);
    let r = run_step(owner, &mut counter, INCREMENT);
    assert_eq!(r, Err(CounterError::ArithmeticOverflow));
    assert_eq!(count_of(&counter), u64::MAX);
}

#[test]
fn seed_mismatch_rejected() {
    let owner = 0x11;
    let (mut counter, _) = run_init(owner);
    // A well-formed record in an account at the wrong address: the record
    // decodes, but the address no longer matches its own derivation.
    counter.key = key(0x33);
    let r = run_step(owner, &mut counter, INCREMENT);
    assert_eq!(r, Err(CounterError::SeedMismatch));
    assert_eq!(count_of(&counter), 0);
}

#[test]
fn missing_signature_rejected() {
    let owner = 0x11;
    let (mut counter, _) = run_init(owner);
    let mut authority = signer(owner);
    authority.is_signer = false;
    let r = process_instruction(&program_id(), &authority, &mut counter, &vec![INCREMENT]);
    assert!(matches!(r, Err(CounterError::MissingSignature)));
    let r = process_instruction(&program_id(), &authority, &mut counter, &vec![INIT]);
    assert!(matches!(r, Err(CounterError::MissingSignature)));
}

#[test]
fn wrong_owner_rejected() {
    let owner = 0x11;
    let authority = signer(owner);
    let mut counter = fresh_counter_account(owner);
    // Not yet provisioned: still owned by the system, so Increment must be
    // rejected before anything is read.
    let r = process_instruction(&program_id(), &authority, &mut counter, &vec![INCREMENT]);
    assert!(matches!(r, Err(CounterError::WrongOwner)));
}

#[test]
fn malformed_state_rejected() {
    let owner = 0x11;
    let (mut counter, _) = run_init(owner);
    counter.data.pop();
    let r = run_step(owner, &mut counter, INCREMENT);
    assert_eq!(r, Err(CounterError::MalformedState));
}

#[test]
fn malformed_instruction_rejected() {
    let owner = 0x11;
    let (mut counter, _) = run_init(owner);
    let authority = signer(owner);
    let r = process_instruction(&program_id(), &authority, &mut counter, &vec![7]);
    assert!(matches!(r, Err(CounterError::MalformedInstruction)));
    let r = process_instruction(&program_id(), &authority, &mut counter, &vec![]);
    assert!(matches!(r, Err(CounterError::MalformedInstruction)));
    assert_eq!(count_of(&counter), 0);
}

#[test]
fn init_at_wrong_address_rejected() {
    let owner = 0x11;
    let authority = signer(owner);
    // A storage account at some other address than the owner's derivation.
    let mut counter = fresh_counter_account(0x22);
    let r = process_instruction(&program_id(), &authority, &mut counter, &vec![INIT]);
    assert!(matches!(r, Err(CounterError::SeedMismatch)));
}

#[test]
fn init_twice_resets_count() {
    let owner = 0x11;
    let (mut counter, _) = run_init(owner);
    run_step(owner, &mut counter, INCREMENT).unwrap();
    run_step(owner, &mut counter, INCREMENT).unwrap();
    assert_eq!(count_of(&counter), 2);
    let bump_before = decode(&counter.data).unwrap().bump;
    // Re-running Init against the already-provisioned account: no second
    // provisioning request, the count resets, authority and bump stand.
    let authority = signer(owner);
    let outcome = process_instruction(&program_id(), &authority, &mut counter, &vec![INIT]);
    assert!(matches!(outcome, Ok(Outcome::Complete)));
    let record = decode(&counter.data).unwrap();
    assert_eq!(record.authority, key(owner));
    assert_eq!(record.count, 0);
    assert_eq!(record.bump, bump_before);
}
