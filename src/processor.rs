use vstd::prelude::*;

use crate::error::CounterError;
use crate::instruction::{instruction_of, CounterInstruction, INCREMENT_TAG};
use crate::state::{lemma_count_round_trip, record_bytes, record_count, Counter, RECORD_LEN};

verus! {

/// solana_program's `Pubkey`: the identity under which the program was
/// deployed. It is carried through opaquely and never read.
#[verifier::external_type_specification]
#[verifier::external_body]
pub struct ExPubkey(solana_program::pubkey::Pubkey);

/// The bytes of each account buffer.
pub open spec fn buffers(accounts: Seq<Vec<u8>>) -> Seq<Seq<u8>> {
    accounts.map_values(|a: Vec<u8>| a@)
}

/// What `Increment` does to the account buffers: the first one must be a
/// counter record below the largest count, and it is rewritten with a count
/// one higher; every other buffer is left as it was.
pub open spec fn increment_step(s: Seq<Seq<u8>>) -> Result<Seq<Seq<u8>>, CounterError> {
    if s.len() == 0 {
        Err(CounterError::MissingAccount)
    } else {
        match record_count(s[0]) {
            None => Err(CounterError::DecodeMalformedInput),
            Some(n) => if n == u64::MAX {
                Err(CounterError::CounterOverflow)
            } else {
                Ok(s.update(0, record_bytes((n + 1) as u64)))
            },
        }
    }
}

/// What an instruction buffer does to the account buffers.
pub open spec fn instruction_step(input: Seq<u8>, s: Seq<Seq<u8>>) -> Result<
    Seq<Seq<u8>>,
    CounterError,
> {
    match instruction_of(input) {
        None => Err(CounterError::DecodeMalformedInput),
        Some(CounterInstruction::Increment) => increment_step(s),
    }
}

/// Whether a call that was to take the buffers `before` by `step` did so:
/// on success the buffers hold what the step gives, on failure the call
/// returns the step's error and leaves every buffer untouched.
pub open spec fn follows_step(
    step: Result<Seq<Seq<u8>>, CounterError>,
    before: Seq<Vec<u8>>,
    after: Seq<Vec<u8>>,
    r: Result<(), CounterError>,
) -> bool {
    match step {
        Ok(s) => {
            &&& r is Ok
            &&& after.len() == s.len()
            &&& forall|i: int| 0 <= i < s.len() ==> (#[trigger] after[i])@ == s[i]
        },
        Err(e) => r == Err::<(), CounterError>(e) && after == before,
    }
}

/// Decodes an instruction and applies it to the accounts.
pub fn process_instruction(
    program_id: &solana_program::pubkey::Pubkey,
    accounts: &mut Vec<Vec<u8>>,
    input: &[u8],
) -> (r: Result<(), CounterError>)
    ensures
        follows_step(instruction_step(input@, buffers(old(accounts)@)), old(accounts)@, final(accounts)@, r),
{
    match CounterInstruction::decode(input) {
        Err(e) => Err(e),
        Ok(CounterInstruction::Increment) => process_counter_increment(program_id, accounts),
    }
}

/// Adds one to the counter record held by the first account.
///
/// The record is read in full, incremented, and written back in full; a
/// failure at any step leaves every account as it was.
pub fn process_counter_increment(
    _program_id: &solana_program::pubkey::Pubkey,
    accounts: &mut Vec<Vec<u8>>,
) -> (r: Result<(), CounterError>)
    ensures
        follows_step(increment_step(buffers(old(accounts)@)), old(accounts)@, final(accounts)@, r),
{
    if accounts.len() == 0 {
        return Err(CounterError::MissingAccount);
    }
    let counter = match Counter::decode(accounts[0].as_slice()) {
        Ok(c) => c,
        Err(e) => return Err(e),
    };
    if counter.count == u64::MAX {
        return Err(CounterError::CounterOverflow);
    }
    let updated = Counter { count: counter.count + 1 };
    accounts[0] = updated.encode();
    Ok(())
}

/// One `Increment` on a record holding `n` below the largest count leaves
/// a well-formed record holding `n + 1` and changes no other account.
pub proof fn lemma_increment_adds_one(s: Seq<Seq<u8>>, n: u64)
    requires
        s.len() > 0,
        record_count(s[0]) == Some(n),
        n < u64::MAX,
    ensures
        increment_step(s) is Ok,
        increment_step(s)->Ok_0.len() == s.len(),
        increment_step(s)->Ok_0[0].len() == RECORD_LEN,
        record_count(increment_step(s)->Ok_0[0]) == Some((n + 1) as u64),
        forall|i: int| 0 < i < s.len() ==> increment_step(s)->Ok_0[i] == s[i],
{
    lemma_count_round_trip((n + 1) as u64);
}

/// `Increment` is not idempotent: two in a row on a record holding `n`
/// leave it holding `n + 2`.
pub proof fn lemma_increment_twice(s: Seq<Seq<u8>>, n: u64)
    requires
        s.len() > 0,
        record_count(s[0]) == Some(n),
        n + 2 <= u64::MAX,
    ensures
        increment_step(s) is Ok,
        increment_step(increment_step(s)->Ok_0) is Ok,
        record_count(increment_step(increment_step(s)->Ok_0)->Ok_0[0]) == Some((n + 2) as u64),
{
    lemma_increment_adds_one(s, n);
    let t = increment_step(s)->Ok_0;
    lemma_increment_adds_one(t, (n + 1) as u64);
}

/// `Increment` with no accounts fails with `MissingAccount`; since the step
/// fails, a call that follows it writes nothing.
pub proof fn lemma_increment_without_accounts(input: Seq<u8>)
    requires
        instruction_of(input) == Some(CounterInstruction::Increment),
    ensures
        increment_step(Seq::<Seq<u8>>::empty()) == Err::<Seq<Seq<u8>>, CounterError>(
            CounterError::MissingAccount,
        ),
        instruction_step(input, Seq::<Seq<u8>>::empty()) == Err::<Seq<Seq<u8>>, CounterError>(
            CounterError::MissingAccount,
        ),
{
}

/// An empty instruction buffer, or one whose tag is unknown, fails with
/// `DecodeMalformedInput` whatever the accounts hold: no transition runs.
pub proof fn lemma_malformed_instruction(input: Seq<u8>, s: Seq<Seq<u8>>)
    requires
        input.len() == 0 || input[0] != INCREMENT_TAG,
    ensures
        instruction_of(input) is None,
        instruction_step(input, s) == Err::<Seq<Seq<u8>>, CounterError>(
            CounterError::DecodeMalformedInput,
        ),
{
}

/// A counter record whose length is not that of the layout fails with
/// `DecodeMalformedInput`, before any account is written.
pub proof fn lemma_wrong_length_record(s: Seq<Seq<u8>>)
    requires
        s.len() > 0,
        s[0].len() != RECORD_LEN,
    ensures
        record_count(s[0]) is None,
        increment_step(s) == Err::<Seq<Seq<u8>>, CounterError>(CounterError::DecodeMalformedInput),
{
}

} // verus!
