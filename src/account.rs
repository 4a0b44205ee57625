use vstd::prelude::*;

use solana_program::account_info::{next_account_info, AccountInfo};
use solana_program::program_error::ProgramError;

use crate::write::WriteError;

verus! {

/// solana_program's account handle, carried through unopened.
#[verifier::external_type_specification]
#[verifier::external_body]
pub struct ExAccountInfo<'a>(AccountInfo<'a>);

/// solana_program's error enum, whose variants verified code builds and compares.
#[verifier::external_type_specification]
pub struct ExProgramError(ProgramError);

/// Relies on solana_program::account_info::next_account_info: on a fresh
/// iterator over the accounts it yields the first one, or fails with
/// `NotEnoughAccountKeys` when there is none.
#[verifier::external_body]
fn next_account<'a, 'b>(accounts: &'a [AccountInfo<'b>]) -> (r: Result<&'a AccountInfo<'b>, ProgramError>)
    ensures
        r is Ok <==> accounts@.len() > 0,
        r is Ok ==> *r->Ok_0 == accounts@[0],
        r is Err ==> r->Err_0 == ProgramError::NotEnoughAccountKeys,
{
    next_account_info(&mut accounts.iter())
}

/// The target buffer's account: the first of the accounts handed to the program.
pub fn target_account<'a, 'b>(accounts: &'a [AccountInfo<'b>]) -> (r: Result<&'a AccountInfo<'b>, WriteError>)
    ensures
        r is Ok <==> accounts@.len() > 0,
        r is Ok ==> *r->Ok_0 == accounts@[0],
        r is Err ==> r->Err_0 == WriteError::MissingTarget,
{
    match next_account(accounts) {
        Ok(account) => Ok(account),
        Err(_) => Err(WriteError::MissingTarget),
    }
}

/// The program error that reports a refusal to the host.
pub open spec fn spec_program_error(e: WriteError) -> ProgramError {
    match e {
        WriteError::MissingTarget => ProgramError::NotEnoughAccountKeys,
        WriteError::MalformedInstruction => ProgramError::InvalidInstructionData,
        WriteError::OutOfBounds => ProgramError::InvalidAccountData,
        WriteError::UnknownCommand => ProgramError::InvalidInstructionData,
    }
}

/// Maps a refusal to the program error that the host receives.
pub fn to_program_error(e: WriteError) -> (r: ProgramError)
    ensures
        r == spec_program_error(e),
{
    match e {
        WriteError::MissingTarget => ProgramError::NotEnoughAccountKeys,
        WriteError::MalformedInstruction => ProgramError::InvalidInstructionData,
        WriteError::OutOfBounds => ProgramError::InvalidAccountData,
        WriteError::UnknownCommand => ProgramError::InvalidInstructionData,
    }
}

} // verus!
