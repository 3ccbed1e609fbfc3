use vstd::prelude::*;

use crate::error::CounterError;

verus! {

/// The closed set of instructions the processor understands.
///
/// On the wire an instruction is a single discriminant byte followed by its
/// payload; `Increment` has tag `0` and no payload.
#[derive(Clone, Copy, Debug, PartialEq, Eq, Structural)]
pub enum CounterInstruction {
    /// Add one to the counter record.
    Increment,
}

/// Discriminant byte of `CounterInstruction::Increment`.
pub const INCREMENT_TAG: u8 = 0;

/// The instruction that a buffer encodes, if any: the tag must be known
/// and the buffer must end where the variant's payload ends.
pub open spec fn instruction_of(b: Seq<u8>) -> Option<CounterInstruction> {
    if b.len() == 1 && b[0] == INCREMENT_TAG {
        Some(CounterInstruction::Increment)
    } else {
        None
    }
}

impl CounterInstruction {
    /// Reads an instruction from its tag-prefixed encoding.
    pub fn decode(input: &[u8]) -> (r: Result<CounterInstruction, CounterError>)
        ensures
            match instruction_of(input@) {
                Some(i) => r == Ok::<CounterInstruction, CounterError>(i),
                None => r == Err::<CounterInstruction, CounterError>(
                    CounterError::DecodeMalformedInput,
                ),
            },
    {
        if input.len() == 0 {
            return Err(CounterError::DecodeMalformedInput);
        }
        let tag = input[0];
        if tag == INCREMENT_TAG {
            if input.len() == 1 {
                Ok(CounterInstruction::Increment)
            } else {
                Err(CounterError::DecodeMalformedInput)
            }
        } else {
            Err(CounterError::DecodeMalformedInput)
        }
    }

    /// Writes the instruction in its tag-prefixed encoding.
    pub fn encode(&self) -> (r: Vec<u8>)
        ensures
            instruction_of(r@) == Some(*self),
    {
        match self {
            CounterInstruction::Increment => {
                let mut v: Vec<u8> = Vec::new();
                v.push(INCREMENT_TAG);
                v
            },
        }
    }
}

} // verus!
