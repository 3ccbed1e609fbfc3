use vstd::bytes::{spec_u64_from_le_bytes, spec_u64_to_le_bytes, u64_to_le_bytes};
use vstd::prelude::*;

use crate::error::CounterError;

verus! {

/// borsh's `io::Error`: what `try_from_slice` reports when a buffer does not
/// hold a value. Only its presence is used, never its contents.
#[verifier::external_type_specification]
#[verifier::external_body]
pub struct ExBorshIoError(borsh::io::Error);

/// The counter record persisted in an account's data.
#[derive(Clone, Copy, Debug, PartialEq, Eq, Structural)]
pub struct Counter {
    pub count: u64,
}

/// Length in bytes of an encoded counter record.
pub const RECORD_LEN: usize = 8;

/// The count that a record buffer holds, if it has the record's layout:
/// exactly eight bytes, a little-endian unsigned integer.
pub open spec fn record_count(b: Seq<u8>) -> Option<u64> {
    if b.len() == RECORD_LEN {
        Some(spec_u64_from_le_bytes(b))
    } else {
        None
    }
}

/// The bytes of the record that holds `count`.
pub open spec fn record_bytes(count: u64) -> Seq<u8> {
    spec_u64_to_le_bytes(count)
}

/// Relies on borsh's `BorshDeserialize::try_from_slice` for `u64`: it reads
/// eight little-endian bytes and fails unless the slice held exactly eight.
#[verifier::external_body]
fn borsh_u64_from_slice(bytes: &[u8]) -> (r: Result<u64, borsh::io::Error>)
    ensures
        r is Ok <==> bytes@.len() == 8,
        r matches Ok(v) ==> v == spec_u64_from_le_bytes(bytes@),
{
    <u64 as borsh::BorshDeserialize>::try_from_slice(bytes)
}

impl Counter {
    /// Reads a record from its fixed eight-byte layout.
    pub fn decode(bytes: &[u8]) -> (r: Result<Counter, CounterError>)
        ensures
            match record_count(bytes@) {
                Some(n) => r == Ok::<Counter, CounterError>(Counter { count: n }),
                None => r == Err::<Counter, CounterError>(CounterError::DecodeMalformedInput),
            },
    {
        match borsh_u64_from_slice(bytes) {
            Ok(count) => Ok(Counter { count }),
            Err(_) => Err(CounterError::DecodeMalformedInput),
        }
    }

    /// Writes the record in its fixed eight-byte layout.
    pub fn encode(&self) -> (r: Vec<u8>)
        ensures
            r@ == record_bytes(self.count),
            r@.len() == RECORD_LEN,
    {
        u64_to_le_bytes(self.count)
    }
}

/// Every eight-byte buffer is a record, and encoding what it holds gives
/// the same bytes back.
pub proof fn lemma_bytes_round_trip(b: Seq<u8>)
    requires
        b.len() == RECORD_LEN,
    ensures
        record_count(b) is Some,
        record_bytes(record_count(b)->0) == b,
{
    vstd::bytes::lemma_auto_spec_u64_to_from_le_bytes();
}

/// Decoding the encoding of a count gives that count back.
pub proof fn lemma_count_round_trip(n: u64)
    ensures
        record_bytes(n).len() == RECORD_LEN,
        record_count(record_bytes(n)) == Some(n),
{
    vstd::bytes::lemma_auto_spec_u64_to_from_le_bytes();
}

} // verus!
