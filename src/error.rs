use vstd::prelude::*;

verus! {

/// The closed set of conditions under which a call fails.
#[derive(Clone, Copy, Debug, PartialEq, Eq, Structural)]
pub enum CounterError {
    /// The instruction is recognised but has no handler yet.
    NotImplemented,
    /// Fewer account buffers were supplied than the instruction needs.
    MissingAccount,
    /// A byte buffer is too short, too long, or carries an unknown tag.
    DecodeMalformedInput,
    /// The counter already holds the largest value it can represent.
    CounterOverflow,
}

/// The stable numeric code that the host sees for each error.
pub open spec fn error_code(e: CounterError) -> u32 {
    match e {
        CounterError::NotImplemented => 0,
        CounterError::MissingAccount => 1,
        CounterError::DecodeMalformedInput => 2,
        CounterError::CounterOverflow => 3,
    }
}

impl CounterError {
    /// The numeric code handed to the host in place of this error.
    pub fn code(&self) -> (r: u32)
        ensures
            r == error_code(*self),
    {
        match self {
            CounterError::NotImplemented => 0,
            CounterError::MissingAccount => 1,
            CounterError::DecodeMalformedInput => 2,
            CounterError::CounterOverflow => 3,
        }
    }

    /// The human-readable description surfaced on the diagnostic channel.
    pub fn description(&self) -> (r: &'static str)
        ensures
            *self == CounterError::NotImplemented ==> r@ == "Instruction not implemented"@,
            *self == CounterError::MissingAccount ==> r@ == "Missing counter account"@,
            *self == CounterError::DecodeMalformedInput ==> r@ == "Malformed input"@,
            *self == CounterError::CounterOverflow ==> r@ == "Counter overflow"@,
    {
        match self {
            CounterError::NotImplemented => "Instruction not implemented",
            CounterError::MissingAccount => "Missing counter account",
            CounterError::DecodeMalformedInput => "Malformed input",
            CounterError::CounterOverflow => "Counter overflow",
        }
    }
}

/// Distinct errors carry distinct codes, so the mapping to the host loses
/// nothing but the description.
pub proof fn lemma_error_code_injective(a: CounterError, b: CounterError)
    ensures
        error_code(a) == error_code(b) ==> a == b,
{
}

} // verus!
