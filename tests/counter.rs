use counter_test::error::CounterTestError;
use counter_test::instruction::CounterTestInstruction;
use counter_test::pda::{counter_signer_seeds, create_counter_pda, find_counter_pda};
use counter_test::processor::{
    complete_initialize, process_increment, process_initialize, AccountRef, Processor, Step,
};
use counter_test::state::{counter_discriminator_bytes, same_bytes, Counter, COUNTER_HASH_INPUT};
use solana_program::pubkey::Pubkey;
use spl_discriminator::ArrayDiscriminator;

const PROGRAM_ID: [u8; 32] = [7u8; 32];

fn key(b: u8) -> [u8; 32] {
    [b; 32]
}

fn signer(k: [u8; 32]) -> AccountRef {
    AccountRef { key: k, is_signer: true }
}

fn plain(k: [u8; 32]) -> AccountRef {
    AccountRef { key: k, is_signer: false }
}

/// Runs Initialize for `authority` as the runtime would: checks, allocates a
/// zeroed slot of the asked size, then writes the record.
fn initialized_slot(program_id: &[u8; 32], authority: [u8; 32]) -> ([u8; 32], u8, Vec<u8>) {
    let (pda, bump) = find_counter_pda(program_id, &authority).unwrap();
    let accounts = vec![plain(pda), signer(authority), plain([0u8; 32])];
    let data = CounterTestInstruction::Initialize.to_bytes();
    let mut slot: Vec<u8> = Vec::new();
    let step = Processor::process_instruction(program_id, &accounts, &data, &mut slot).unwrap();
    let plan = match step {
        Step::CreateAccount(p) => p,
        Step::Done => panic!("Initialize must ask for an account"),
    };
    assert_eq!(plan.address, pda);
    assert_eq!(plan.payer, authority);
    assert_eq!(plan.bump, bump);
    let mut slot = vec![0u8; plan.space as usize];
    complete_initialize(&mut slot, &authority, plan.bump).unwrap();
    (pda, bump, slot)
}

fn increment(program_id: &[u8; 32], pda: [u8; 32], authority: AccountRef, slot: &mut Vec<u8>) -> Result<Step, CounterTestError> {
    let accounts = vec![plain(pda), authority];
    let data = CounterTestInstruction::Increment.to_bytes();
    Processor::process_instruction(program_id, &accounts, &data, slot)
}

#[test]
fn test_sanity() {
    assert_eq!(true, true)
}

#[test]
fn test_initialize() {
    let payer = key(1);
    let (_, counter_canonical_bump, slot) = initialized_slot(&PROGRAM_ID, payer);
    let counter = Counter::try_from_slice(&slot).unwrap();
    assert_eq!(counter.authority, payer);
    assert_eq!(counter.count, 0);
    assert_eq!(counter.bump, counter_canonical_bump);
}

#[test]
fn test_increment() {
    let payer = key(1);
    let (pda, _, mut slot) = initialized_slot(&PROGRAM_ID, payer);
    assert!(matches!(increment(&PROGRAM_ID, pda, signer(payer), &mut slot), Ok(Step::Done)));
    let counter = Counter::try_from_slice(&slot).unwrap();
    assert_eq!(counter.count, 1);
}

#[test]
fn canonical_derivation_matches_runtime() {
    let authority = key(3);
    let (pda, bump) = find_counter_pda(&PROGRAM_ID, &authority).unwrap();
    let (expected, expected_bump) = Pubkey::find_program_address(
        &[b"counter", authority.as_ref()],
        &Pubkey::new_from_array(PROGRAM_ID),
    );
    assert_eq!(pda, expected.to_bytes());
    assert_eq!(bump, expected_bump);
    assert_ne!(pda, authority);
}

#[test]
fn rederiving_with_canonical_bump_gives_same_address() {
    for b in 0u8..8 {
        let authority = key(b);
        let (pda, bump) = find_counter_pda(&PROGRAM_ID, &authority).unwrap();
        assert_eq!(create_counter_pda(&PROGRAM_ID, &authority, bump), Some(pda));
    }
}

#[test]
fn signer_seeds_are_counter_authority_bump() {
    let seeds = counter_signer_seeds(&key(9), 254);
    assert_eq!(seeds, vec![b"counter".to_vec(), vec![9u8; 32], vec![254u8]]);
}

#[test]
fn initialize_writes_tag_and_fields() {
    let authority = key(4);
    let (_, bump, slot) = initialized_slot(&PROGRAM_ID, authority);
    let counter = Counter::try_from_slice(&slot).unwrap();
    let tag: [u8; 8] = ArrayDiscriminator::new_with_hash_input("counter_test::state::counter").into();
    assert_eq!(counter.discriminator, tag);
    assert_eq!(counter_discriminator_bytes(), tag);
    assert_ne!(tag, [0u8; 8]);
    assert_eq!(COUNTER_HASH_INPUT, "counter_test::state::counter");
    assert!(counter.is_initialized());
    assert!(!counter.is_uninitialized());
    assert_eq!(&slot[0..32], &authority[..]);
    assert_eq!(&slot[32..40], &tag[..]);
    assert_eq!(&slot[40..48], &[0u8; 8][..]);
    assert_eq!(slot[48], bump);
    assert_eq!(&slot[49..64], &[0u8; 15][..]);
}

#[test]
fn zeroed_slot_is_uninitialized() {
    let counter = Counter::try_from_slice(&[0u8; 64]).unwrap();
    assert!(counter.is_uninitialized());
    assert!(!counter.is_initialized());
}

#[test]
fn increment_five_times_counts_five() {
    let authority = key(5);
    let (pda, _, mut slot) = initialized_slot(&PROGRAM_ID, authority);
    for _ in 0..5 {
        increment(&PROGRAM_ID, pda, signer(authority), &mut slot).unwrap();
    }
    assert_eq!(Counter::try_from_slice(&slot).unwrap().count, 5);
}

#[test]
fn initialize_rejects_non_canonical_address() {
    let authority = key(6);
    let (pda, _) = find_counter_pda(&PROGRAM_ID, &authority).unwrap();
    let mut wrong = pda;
    wrong[0] ^= 1;
    assert_eq!(
        process_initialize(&PROGRAM_ID, &plain(wrong), &signer(authority)).unwrap_err(),
        CounterTestError::InvalidSeeds
    );
    let other = find_counter_pda(&PROGRAM_ID, &key(8)).unwrap().0;
    assert_eq!(
        process_initialize(&PROGRAM_ID, &plain(other), &signer(authority)).unwrap_err(),
        CounterTestError::InvalidSeeds
    );
}

#[test]
fn initialize_requires_signature() {
    let authority = key(6);
    let (pda, _) = find_counter_pda(&PROGRAM_ID, &authority).unwrap();
    assert_eq!(
        process_initialize(&PROGRAM_ID, &plain(pda), &plain(authority)).unwrap_err(),
        CounterTestError::MissingRequiredSignature
    );
}

#[test]
fn increment_rejects_wrong_slot_and_keeps_count() {
    let authority = key(10);
    let (pda, _, mut slot) = initialized_slot(&PROGRAM_ID, authority);
    increment(&PROGRAM_ID, pda, signer(authority), &mut slot).unwrap();
    let before = slot.clone();
    let mut wrong = pda;
    wrong[31] ^= 0x80;
    assert_eq!(
        increment(&PROGRAM_ID, wrong, signer(authority), &mut slot).unwrap_err(),
        CounterTestError::InvalidSeeds
    );
    assert_eq!(slot, before);
    assert_eq!(Counter::try_from_slice(&slot).unwrap().count, 1);
}

#[test]
fn increment_rejects_tampered_bump() {
    let authority = key(11);
    let (pda, bump, mut slot) = initialized_slot(&PROGRAM_ID, authority);
    slot[48] = bump.wrapping_sub(1);
    let before = slot.clone();
    assert!(increment(&PROGRAM_ID, pda, signer(authority), &mut slot).is_err());
    assert_eq!(slot, before);
}

#[test]
fn increment_requires_signature() {
    let authority = key(12);
    let (pda, _, mut slot) = initialized_slot(&PROGRAM_ID, authority);
    let before = slot.clone();
    assert_eq!(
        increment(&PROGRAM_ID, pda, plain(authority), &mut slot).unwrap_err(),
        CounterTestError::MissingRequiredSignature
    );
    assert_eq!(slot, before);
}

#[test]
fn other_authority_cannot_increment() {
    let a = key(13);
    let b = key(14);
    let (pda, _, mut slot) = initialized_slot(&PROGRAM_ID, a);
    assert_eq!(Counter::try_from_slice(&slot).unwrap().count, 0);
    increment(&PROGRAM_ID, pda, signer(a), &mut slot).unwrap();
    increment(&PROGRAM_ID, pda, signer(a), &mut slot).unwrap();
    assert_eq!(Counter::try_from_slice(&slot).unwrap().count, 2);
    assert_eq!(
        increment(&PROGRAM_ID, pda, signer(b), &mut slot).unwrap_err(),
        CounterTestError::IllegalOwner
    );
    assert_eq!(
        increment(&PROGRAM_ID, pda, plain(b), &mut slot).unwrap_err(),
        CounterTestError::MissingRequiredSignature
    );
    let (b_pda, _) = find_counter_pda(&PROGRAM_ID, &b).unwrap();
    assert_eq!(
        increment(&PROGRAM_ID, b_pda, signer(b), &mut slot).unwrap_err(),
        CounterTestError::IllegalOwner
    );
    assert_eq!(Counter::try_from_slice(&slot).unwrap().count, 2);
}

#[test]
fn increment_at_max_overflows() {
    let authority = key(15);
    let (pda, bump) = find_counter_pda(&PROGRAM_ID, &authority).unwrap();
    let record = Counter {
        authority,
        discriminator: counter_discriminator_bytes(),
        count: u64::MAX,
        bump,
        padding: [0u8; 15],
    };
    let mut slot = record.to_bytes();
    let before = slot.clone();
    assert_eq!(
        process_increment(&PROGRAM_ID, &plain(pda), &signer(authority), &mut slot).unwrap_err(),
        CounterTestError::ArithmeticOverflow
    );
    assert_eq!(slot, before);
}

#[test]
fn increment_rejects_wrong_length() {
    let authority = key(16);
    let (pda, _) = find_counter_pda(&PROGRAM_ID, &authority).unwrap();
    let mut slot = vec![0u8; 63];
    assert_eq!(
        process_increment(&PROGRAM_ID, &plain(pda), &signer(authority), &mut slot).unwrap_err(),
        CounterTestError::InvalidAccountData
    );
    assert_eq!(slot.len(), 63);
}

#[test]
fn complete_initialize_rejects_wrong_length() {
    let mut slot = vec![0u8; 65];
    assert_eq!(complete_initialize(&mut slot, &key(1), 255).unwrap_err(), CounterTestError::InvalidAccountData);
    assert_eq!(slot, vec![0u8; 65]);
}

#[test]
fn record_layout_round_trip() {
    let record = Counter {
        authority: key(2),
        discriminator: [1, 2, 3, 4, 5, 6, 7, 8],
        count: 0x0102030405060708,
        bump: 200,
        padding: [9u8; 15],
    };
    let bytes = record.to_bytes();
    assert_eq!(bytes.len(), Counter::LEN);
    assert_eq!(&bytes[40..48], &[8, 7, 6, 5, 4, 3, 2, 1]);
    assert_eq!(bytes[48], 200);
    let back = Counter::try_from_slice(&bytes).unwrap();
    assert_eq!(back.count, 0x0102030405060708);
    assert_eq!(back.to_bytes(), bytes);
    assert_eq!(Counter::try_from_slice(&bytes[..63]).unwrap_err(), CounterTestError::InvalidAccountData);
}

#[test]
fn instruction_bytes() {
    assert_eq!(CounterTestInstruction::Initialize.to_bytes(), vec![0u8]);
    assert_eq!(CounterTestInstruction::Increment.to_bytes(), vec![1u8]);
    assert_eq!(CounterTestInstruction::try_from_slice(&[0]), Ok(CounterTestInstruction::Initialize));
    assert_eq!(CounterTestInstruction::try_from_slice(&[1]), Ok(CounterTestInstruction::Increment));
    for bad in [&[2u8][..], &[][..], &[0u8, 0][..], &[1u8, 0][..]] {
        assert_eq!(CounterTestInstruction::try_from_slice(bad), Err(CounterTestError::InvalidInstructionData));
    }
}

#[test]
fn process_instruction_rejects_bad_requests() {
    let mut slot = vec![0u8; 64];
    let accounts = vec![plain(key(1)), signer(key(2)), plain(key(0))];
    assert_eq!(
        Processor::process_instruction(&PROGRAM_ID, &accounts, &[5], &mut slot).unwrap_err(),
        CounterTestError::InvalidInstructionData
    );
    assert_eq!(
        Processor::process_instruction(&PROGRAM_ID, &accounts[..2], &[0], &mut slot).unwrap_err(),
        CounterTestError::NotEnoughAccountKeys
    );
    assert_eq!(
        Processor::process_instruction(&PROGRAM_ID, &accounts[..1], &[1], &mut slot).unwrap_err(),
        CounterTestError::NotEnoughAccountKeys
    );
    assert_eq!(slot, vec![0u8; 64]);
}

#[test]
fn same_bytes_compares_every_byte() {
    assert!(same_bytes(&[1u8, 2, 3], &[1u8, 2, 3]));
    assert!(!same_bytes(&[1u8, 2, 3], &[1u8, 2, 4]));
}

#[test]
fn error_codes_in_declaration_order() {
    assert_eq!(CounterTestError::AlreadyInitialized.code(), 0);
    assert_eq!(CounterTestError::MissingRequiredSignature.code(), 1);
    assert_eq!(CounterTestError::ArithmeticOverflow.code(), 8);
}
