//! A single-command program that writes a payload into a fixed-size account
//! buffer at a given offset, refusing any write that would not fit.
mod account;
mod instruction;
mod write;

pub use account::{spec_program_error, target_account, to_program_error};
pub use instruction::{
    offset_of, payload_of, read_offset, WriteCommand, HEADER_LEN,
};
pub use write::{
    lemma_empty_payload, lemma_short_instruction, lemma_unknown_command, lemma_write_idempotent,
    lemma_write_out_of_bounds, lemma_write_round_trip, overwrite, write_at, write_outcome,
    WriteError,
};
