//! A deterministic account-state transition core for a single 64-bit counter.
//!
//! The host hands in the raw bytes of its accounts and of an instruction;
//! the library decodes the instruction, rewrites the counter record and
//! reports every failure as a [`CounterError`]. A failed call writes
//! nothing. An increment at the largest count fails with
//! `CounterOverflow` instead of wrapping.

pub mod error;
pub mod instruction;
pub mod processor;
pub mod state;

pub use error::CounterError;
pub use state::Counter;
pub use instruction::CounterInstruction;
pub use processor::{process_counter_increment, process_instruction};
