use counter::account::account_at;
use counter::account::key_eq;
use counter::account::zeroed_bytes;
use counter::account::Account;
use counter::codec::read_counter;
use counter::codec::write_counter;
use counter::cpi::service_identity;
use counter::handlers::increment;
use counter::handlers::initialize;
use counter::handlers::plan_initialize;
use counter::handlers::process_instruction;
use counter::instruction::decode_instruction;
use counter::instruction::Operation;
use counter::ProgramError;

/// The minimum balance the host demands for an eight-byte account under the
/// default rent configuration: (128 + 8) * 6960.
const FUNDING: u64 = 946_560;

fn key(fill: u8) -> Vec<u8> {
    vec![fill; 32]
}

fn account(
    key_fill: u8,
    owner: Vec<u8>,
    lamports: u64,
    is_signer: bool,
    data: Vec<u8>,
) -> Account {
    Account {
        key: key(key_fill),
        owner,
        lamports,
        is_signer,
        is_writable: true,
        data,
        data_borrowed: false,
    }
}

fn payer(lamports: u64) -> Account {
    account(1, key(9), lamports, true, Vec::new())
}

fn fresh_counter() -> Account {
    account(2, service_identity(), 0, false, Vec::new())
}

fn owned_counter(program_id: &[u8], value: u64) -> Account {
    account(2, program_id.to_vec(), FUNDING, false, value.to_le_bytes().to_vec())
}

fn service_account() -> Account {
    let mut a = account(0, key(0), 1, false, Vec::new());
    a.key = service_identity();
    a
}

#[test]
fn decode_selects_the_operation() {
    assert_eq!(decode_instruction(&vec![0]), Ok(Operation::Initialize));
    assert_eq!(decode_instruction(&vec![1]), Ok(Operation::Increment));
    assert_eq!(decode_instruction(&vec![1, 7, 7]), Ok(Operation::Increment));
}

#[test]
fn decode_rejects_empty_instruction() {
    assert_eq!(decode_instruction(&Vec::new()), Err(ProgramError::InvalidInstructionData));
}

#[test]
fn decode_rejects_unknown_discriminant() {
    assert_eq!(decode_instruction(&vec![2]), Err(ProgramError::InvalidInstructionData));
    assert_eq!(decode_instruction(&vec![255, 0]), Err(ProgramError::InvalidInstructionData));
}

#[test]
fn unknown_instruction_mutates_no_account() {
    let program_id = key(7);
    let mut accounts = vec![owned_counter(&program_id, 5), payer(0)];
    let before = accounts[0].data.clone();
    let r = process_instruction(&program_id, &mut accounts, &vec![3]);
    assert_eq!(r, Err(ProgramError::InvalidInstructionData));
    assert_eq!(accounts[0].data, before);
}

#[test]
fn initialize_scenario_zeroes_a_fresh_counter() {
    let program_id = key(7);
    let mut accounts = vec![payer(FUNDING), fresh_counter(), service_account()];
    let r = process_instruction(&program_id, &mut accounts, &vec![0]);
    assert_eq!(r, Ok(()));
    assert_eq!(accounts[1].data, vec![0, 0, 0, 0, 0, 0, 0, 0]);
    assert_eq!(accounts[1].owner, program_id);
}

#[test]
fn initialize_funds_exactly_the_rent_minimum() {
    let program_id = key(7);
    let mut accounts = vec![payer(FUNDING + 123), fresh_counter(), service_account()];
    let r = initialize(&program_id, &mut accounts);
    assert_eq!(r, Ok(()));
    assert_eq!(accounts[0].lamports, 123);
    assert_eq!(accounts[1].lamports, FUNDING);
    let host_minimum = solana_program::rent::Rent::default().minimum_balance(8);
    assert_eq!(accounts[1].lamports, host_minimum);
}

#[test]
fn initialize_rejects_underfunded_payer() {
    let program_id = key(7);
    let mut accounts = vec![payer(FUNDING - 1), fresh_counter(), service_account()];
    let r = initialize(&program_id, &mut accounts);
    assert_eq!(r, Err(ProgramError::InsufficientFunds));
    assert_eq!(accounts[0].lamports, FUNDING - 1);
    assert_eq!(accounts[1].data, Vec::<u8>::new());
}

#[test]
fn initialize_rejects_unsigned_payer() {
    let program_id = key(7);
    let mut accounts = vec![payer(FUNDING), fresh_counter(), service_account()];
    accounts[0].is_signer = false;
    let r = initialize(&program_id, &mut accounts);
    assert_eq!(r, Err(ProgramError::MissingRequiredSignature));
}

#[test]
fn initialize_rejects_the_service_as_counter() {
    let program_id = key(7);
    let mut counter = fresh_counter();
    counter.key = service_identity();
    let mut accounts = vec![payer(FUNDING), counter, service_account()];
    let r = initialize(&program_id, &mut accounts);
    assert_eq!(r, Err(ProgramError::InvalidAccountData));
}

#[test]
fn initialize_rejects_an_account_in_use() {
    let program_id = key(7);
    let mut counter = fresh_counter();
    counter.lamports = 5;
    let mut accounts = vec![payer(FUNDING), counter, service_account()];
    let r = initialize(&program_id, &mut accounts);
    assert_eq!(r, Err(ProgramError::InvalidAccountData));
}

#[test]
fn initialize_needs_three_accounts() {
    let program_id = key(7);
    let mut accounts = vec![payer(FUNDING), fresh_counter()];
    let r = initialize(&program_id, &mut accounts);
    assert_eq!(r, Err(ProgramError::NotEnoughAccountKeys));
}

#[test]
fn initialize_rejects_a_borrowed_counter() {
    let program_id = key(7);
    let mut counter = fresh_counter();
    counter.data_borrowed = true;
    let mut accounts = vec![payer(FUNDING), counter, service_account()];
    let r = initialize(&program_id, &mut accounts);
    assert_eq!(r, Err(ProgramError::AccountBorrowFailed));
}

#[test]
fn initialize_does_not_reset_an_owned_counter() {
    let program_id = key(7);
    let mut accounts = vec![payer(FUNDING), owned_counter(&program_id, 41), service_account()];
    let r = initialize(&program_id, &mut accounts);
    assert_eq!(r, Ok(()));
    assert_eq!(accounts[1].data, 41u64.to_le_bytes().to_vec());
}

#[test]
fn plan_lays_out_the_request_bit_for_bit() {
    let program_id = key(7);
    let accounts = vec![payer(FUNDING), fresh_counter(), service_account()];
    let plan = plan_initialize(&program_id, &accounts).unwrap().unwrap();
    let mut expected = vec![0u8, 0, 0, 0];
    expected.extend_from_slice(&FUNDING.to_le_bytes());
    expected.extend_from_slice(&8u64.to_le_bytes());
    expected.extend_from_slice(&program_id);
    assert_eq!(plan.data, expected);
    assert_eq!(plan.program_id, service_identity());
    assert_eq!(plan.accounts.len(), 2);
    assert_eq!(plan.accounts[0].key, accounts[0].key);
    assert!(plan.accounts[0].is_signer && plan.accounts[0].is_writable);
    assert_eq!(plan.accounts[1].key, accounts[1].key);
    assert!(plan.accounts[1].is_signer && plan.accounts[1].is_writable);
}

#[test]
fn plan_is_empty_for_an_owned_counter() {
    let program_id = key(7);
    let accounts = vec![payer(FUNDING), owned_counter(&program_id, 3), service_account()];
    let plan = plan_initialize(&program_id, &accounts).unwrap();
    assert!(plan.is_none());
}

#[test]
fn increment_scenario_adds_one() {
    let program_id = key(7);
    let mut accounts = vec![owned_counter(&program_id, 5), payer(0)];
    let r = process_instruction(&program_id, &mut accounts, &vec![1]);
    assert_eq!(r, Ok(()));
    assert_eq!(accounts[0].data, vec![6, 0, 0, 0, 0, 0, 0, 0]);
}

#[test]
fn increment_wraps_at_the_largest_value() {
    let program_id = key(7);
    let mut accounts = vec![owned_counter(&program_id, u64::MAX), payer(0)];
    let r = increment(&program_id, &mut accounts);
    assert_eq!(r, Ok(()));
    assert_eq!(read_counter(&accounts[0].data), Ok(0));
}

#[test]
fn increment_rejects_a_foreign_owner() {
    let program_id = key(7);
    let mut accounts = vec![owned_counter(&key(8), 5), payer(0)];
    let before = accounts[0].data.clone();
    let r = increment(&program_id, &mut accounts);
    assert_eq!(r, Err(ProgramError::IllegalOwner));
    assert_eq!(accounts[0].data, before);
}

#[test]
fn increment_rejects_a_short_buffer() {
    let program_id = key(7);
    let mut counter = owned_counter(&program_id, 0);
    counter.data = vec![0; 7];
    let mut accounts = vec![counter, payer(0)];
    let r = increment(&program_id, &mut accounts);
    assert_eq!(r, Err(ProgramError::UninitializedAccount));
    assert_eq!(accounts[0].data, vec![0; 7]);
}

#[test]
fn increment_rejects_a_long_buffer() {
    let program_id = key(7);
    let mut counter = owned_counter(&program_id, 0);
    counter.data = vec![0; 9];
    let mut accounts = vec![counter, payer(0)];
    let r = increment(&program_id, &mut accounts);
    assert_eq!(r, Err(ProgramError::UninitializedAccount));
}

#[test]
fn increment_rejects_an_unsigned_payer() {
    let program_id = key(7);
    let mut accounts = vec![owned_counter(&program_id, 5), payer(0)];
    accounts[1].is_signer = false;
    let r = increment(&program_id, &mut accounts);
    assert_eq!(r, Err(ProgramError::MissingRequiredSignature));
}

#[test]
fn increment_rejects_a_borrowed_buffer() {
    let program_id = key(7);
    let mut accounts = vec![owned_counter(&program_id, 5), payer(0)];
    accounts[0].data_borrowed = true;
    let r = increment(&program_id, &mut accounts);
    assert_eq!(r, Err(ProgramError::AccountBorrowFailed));
}

#[test]
fn increment_needs_two_accounts() {
    let program_id = key(7);
    let mut accounts = vec![owned_counter(&program_id, 5)];
    let r = increment(&program_id, &mut accounts);
    assert_eq!(r, Err(ProgramError::NotEnoughAccountKeys));
}

#[test]
fn a_run_of_increments_counts_up() {
    let program_id = key(7);
    let mut accounts = vec![owned_counter(&program_id, 40), payer(0)];
    for _ in 0..5 {
        assert_eq!(increment(&program_id, &mut accounts), Ok(()));
    }
    assert_eq!(read_counter(&accounts[0].data), Ok(45));
}

#[test]
fn initialize_then_increment_end_to_end() {
    let program_id = key(7);
    let mut accounts = vec![payer(FUNDING), fresh_counter(), service_account()];
    assert_eq!(process_instruction(&program_id, &mut accounts, &vec![0]), Ok(()));
    let mut inc_accounts = vec![accounts.remove(1), accounts.remove(0)];
    assert_eq!(process_instruction(&program_id, &mut inc_accounts, &vec![1]), Ok(()));
    assert_eq!(read_counter(&inc_accounts[0].data), Ok(1));
}

#[test]
fn the_service_identity_is_the_well_known_one() {
    let ours = service_identity();
    let host = solana_sdk_ids::system_program::ID.to_bytes();
    assert_eq!(ours.as_slice(), &host[..]);
}

#[test]
fn the_codec_round_trips() {
    let mut data = vec![0xAA; 8];
    assert_eq!(write_counter(&mut data, 0x0102030405060708), Ok(()));
    assert_eq!(data, vec![8, 7, 6, 5, 4, 3, 2, 1]);
    assert_eq!(read_counter(&data), Ok(0x0102030405060708));
}

#[test]
fn the_codec_writes_only_the_first_eight_bytes() {
    let mut data = vec![0xAA; 10];
    assert_eq!(write_counter(&mut data, 5), Ok(()));
    assert_eq!(data, vec![5, 0, 0, 0, 0, 0, 0, 0, 0xAA, 0xAA]);
}

#[test]
fn the_codec_rejects_wrong_sizes() {
    assert_eq!(read_counter(&vec![0; 7]), Err(ProgramError::UninitializedAccount));
    assert_eq!(read_counter(&vec![0; 9]), Err(ProgramError::UninitializedAccount));
    let mut short = vec![0; 7];
    assert_eq!(write_counter(&mut short, 1), Err(ProgramError::AccountDataTooSmall));
    assert_eq!(short, vec![0; 7]);
}

#[test]
fn positional_access_is_bounds_checked() {
    let accounts = vec![payer(17), fresh_counter()];
    assert_eq!(account_at(&accounts, 0).unwrap().lamports, 17);
    assert_eq!(account_at(&accounts, 1).unwrap().lamports, 0);
    assert!(matches!(account_at(&accounts, 2), Err(ProgramError::NotEnoughAccountKeys)));
}

#[test]
fn key_comparison_is_by_content() {
    assert!(key_eq(&key(3), &key(3)));
    assert!(!key_eq(&key(3), &key(4)));
    assert!(!key_eq(&key(3), &vec![3; 31]));
    assert_eq!(zeroed_bytes(32), vec![0u8; 32]);
}
