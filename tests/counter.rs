use counter::{process_counter_increment, process_instruction, Counter, CounterError, CounterInstruction};
use solana_program::pubkey::Pubkey;

fn program_id() -> Pubkey {
    Pubkey::new_from_array([7u8; 32])
}

fn count_of(bytes: &[u8]) -> u64 {
    Counter::decode(bytes).unwrap().count
}

#[test]
fn test_counter() {
    let program_id = program_id();
    let mut accounts: Vec<Vec<u8>> = vec![vec![0_u8; std::mem::size_of::<u64>()]];
    assert_eq!(count_of(&accounts[0]), 0);

    process_instruction(&program_id, &mut accounts, &[0_u8]).unwrap();
    assert_eq!(count_of(&accounts[0]), 1);

    process_instruction(&program_id, &mut accounts, &[0_u8]).unwrap();
    assert_eq!(count_of(&accounts[0]), 2);
}

#[test]
fn decode_reads_little_endian() {
    let c = Counter::decode(&[8, 7, 6, 5, 4, 3, 2, 1]).unwrap();
    assert_eq!(c.count, 0x0102_0304_0506_0708);
    assert_eq!(Counter::decode(&[1, 0, 0, 0, 0, 0, 0, 0]).unwrap().count, 1);
    assert_eq!(Counter::decode(&[0xff; 8]).unwrap().count, u64::MAX);
}

#[test]
fn encode_writes_little_endian() {
    assert_eq!(Counter { count: 0x0102_0304_0506_0708 }.encode(), vec![8, 7, 6, 5, 4, 3, 2, 1]);
    assert_eq!(Counter { count: 0 }.encode(), vec![0; 8]);
    assert_eq!(Counter { count: 256 }.encode(), vec![0, 1, 0, 0, 0, 0, 0, 0]);
}

#[test]
fn bytes_round_trip() {
    let samples: Vec<[u8; 8]> = vec![
        [0; 8],
        [0xff; 8],
        [1, 2, 3, 4, 5, 6, 7, 8],
        [0x80, 0, 0, 0, 0, 0, 0, 0x80],
    ];
    for b in samples {
        let c = Counter::decode(&b).unwrap();
        assert_eq!(c.encode(), b.to_vec());
    }
}

#[test]
fn count_round_trip() {
    for n in [0u64, 1, 255, 256, 0xdead_beef, u64::MAX - 1, u64::MAX] {
        let c = Counter { count: n };
        assert_eq!(Counter::decode(&c.encode()), Ok(c));
    }
}

#[test]
fn increment_adds_one_and_keeps_other_accounts() {
    let program_id = program_id();
    let other = vec![9u8, 9, 9];
    let mut accounts = vec![Counter { count: 41 }.encode(), other.clone()];
    assert_eq!(process_counter_increment(&program_id, &mut accounts), Ok(()));
    assert_eq!(accounts.len(), 2);
    assert_eq!(accounts[0], vec![42, 0, 0, 0, 0, 0, 0, 0]);
    assert_eq!(accounts[1], other);
}

#[test]
fn increment_twice_adds_two() {
    let program_id = program_id();
    let n = 0x00ff_ffff_ffffu64;
    let mut accounts = vec![Counter { count: n }.encode()];
    process_instruction(&program_id, &mut accounts, &[0]).unwrap();
    process_instruction(&program_id, &mut accounts, &[0]).unwrap();
    assert_eq!(count_of(&accounts[0]), n + 2);
    assert_ne!(count_of(&accounts[0]), n + 1);
}

#[test]
fn increment_without_accounts_fails() {
    let program_id = program_id();
    let mut accounts: Vec<Vec<u8>> = Vec::new();
    assert_eq!(
        process_counter_increment(&program_id, &mut accounts),
        Err(CounterError::MissingAccount)
    );
    assert_eq!(
        process_instruction(&program_id, &mut accounts, &[0]),
        Err(CounterError::MissingAccount)
    );
    assert!(accounts.is_empty());
}

#[test]
fn malformed_instruction_fails_without_write() {
    let program_id = program_id();
    let record = Counter { count: 5 }.encode();
    for input in [vec![], vec![1u8], vec![0xff], vec![0u8, 0], vec![1u8, 0]] {
        let mut accounts = vec![record.clone()];
        assert_eq!(
            process_instruction(&program_id, &mut accounts, &input),
            Err(CounterError::DecodeMalformedInput)
        );
        assert_eq!(accounts, vec![record.clone()]);
        assert_eq!(CounterInstruction::decode(&input), Err(CounterError::DecodeMalformedInput));
    }
}

#[test]
fn wrong_length_record_fails_without_write() {
    let program_id = program_id();
    for len in [0usize, 1, 7, 9, 16] {
        let record = vec![0u8; len];
        assert_eq!(Counter::decode(&record), Err(CounterError::DecodeMalformedInput));
        let mut accounts = vec![record.clone()];
        assert_eq!(
            process_instruction(&program_id, &mut accounts, &[0]),
            Err(CounterError::DecodeMalformedInput)
        );
        assert_eq!(accounts, vec![record]);
    }
}

#[test]
fn increment_at_largest_count_fails_without_write() {
    let program_id = program_id();
    let record = Counter { count: u64::MAX }.encode();
    let mut accounts = vec![record.clone()];
    assert_eq!(
        process_counter_increment(&program_id, &mut accounts),
        Err(CounterError::CounterOverflow)
    );
    assert_eq!(accounts, vec![record]);

    let mut accounts = vec![Counter { count: u64::MAX - 1 }.encode()];
    assert_eq!(process_counter_increment(&program_id, &mut accounts), Ok(()));
    assert_eq!(count_of(&accounts[0]), u64::MAX);
}

#[test]
fn instruction_round_trip() {
    let bytes = CounterInstruction::Increment.encode();
    assert_eq!(bytes, vec![0]);
    assert_eq!(CounterInstruction::decode(&bytes), Ok(CounterInstruction::Increment));
}

#[test]
fn error_codes_and_descriptions() {
    assert_eq!(CounterError::NotImplemented.code(), 0);
    assert_eq!(CounterError::MissingAccount.code(), 1);
    assert_eq!(CounterError::DecodeMalformedInput.code(), 2);
    assert_eq!(CounterError::CounterOverflow.code(), 3);
    assert_eq!(CounterError::NotImplemented.description(), "Instruction not implemented");
    assert_eq!(CounterError::MissingAccount.description(), "Missing counter account");
    assert_eq!(CounterError::DecodeMalformedInput.description(), "Malformed input");
    assert_eq!(CounterError::CounterOverflow.description(), "Counter overflow");
}
