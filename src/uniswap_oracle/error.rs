//! Errors of the pair oracle program.

use vstd::prelude::*;
use crate::account::ProgramError;

verus! {

/// Errors that the oracle program reports.
#[derive(Clone, Copy, Debug, PartialEq, Eq, Structural)]
pub enum UniswapOracleError {
    /// The account cannot be initialized because it is already being used.
    AlreadyInUse,
    /// The derived program account does not match the expected account.
    DerivedAccountMismatch,
    /// An update names a token pair other than the account's.
    InvalidAccount,
    /// Invalid instruction.
    InvalidInstruction,
    /// Lamport balance below rent-exempt threshold.
    NotRentExempt,
    /// The sender is not authorized to do the transaction.
    Unauthorized,
}

impl UniswapOracleError {
    /// The error's code, its position in the declaration.
    pub open spec fn spec_code(self) -> u32 {
        match self {
            UniswapOracleError::AlreadyInUse => 0,
            UniswapOracleError::DerivedAccountMismatch => 1,
            UniswapOracleError::InvalidAccount => 2,
            UniswapOracleError::InvalidInstruction => 3,
            UniswapOracleError::NotRentExempt => 4,
            UniswapOracleError::Unauthorized => 5,
        }
    }

    /// The program error that carries this error's code.
    pub open spec fn spec_into(self) -> ProgramError {
        ProgramError::Custom(self.spec_code())
    }

    pub fn code(&self) -> (r: u32)
        ensures
            r == self.spec_code(),
    {
        match self {
            UniswapOracleError::AlreadyInUse => 0,
            UniswapOracleError::DerivedAccountMismatch => 1,
            UniswapOracleError::InvalidAccount => 2,
            UniswapOracleError::InvalidInstruction => 3,
            UniswapOracleError::NotRentExempt => 4,
            UniswapOracleError::Unauthorized => 5,
        }
    }

    /// A short description of the error.
    pub fn description(&self) -> (r: &'static str)
        ensures
            r@ == self.spec_description(),
    {
        match self {
            UniswapOracleError::AlreadyInUse => "Already in use",
            UniswapOracleError::DerivedAccountMismatch => "Derived program account mismatch",
            UniswapOracleError::InvalidAccount => "Invalid account",
            UniswapOracleError::InvalidInstruction => "Invalid instruction",
            UniswapOracleError::NotRentExempt => "Lamport balance below rent-exempt threshold",
            UniswapOracleError::Unauthorized => "Unauthorized",
        }
    }

    pub open spec fn spec_description(self) -> Seq<char> {
        match self {
            UniswapOracleError::AlreadyInUse => "Already in use"@,
            UniswapOracleError::DerivedAccountMismatch => "Derived program account mismatch"@,
            UniswapOracleError::InvalidAccount => "Invalid account"@,
            UniswapOracleError::InvalidInstruction => "Invalid instruction"@,
            UniswapOracleError::NotRentExempt => "Lamport balance below rent-exempt threshold"@,
            UniswapOracleError::Unauthorized => "Unauthorized"@,
        }
    }

    /// The line the program logs when it fails with this error.
    pub fn print(&self) -> (r: &'static str)
        ensures
            r@ == self.spec_print(),
    {
        match self {
            UniswapOracleError::InvalidInstruction => "Error: Invalid instruction",
            UniswapOracleError::AlreadyInUse => "Error: account or token already in use",
            UniswapOracleError::DerivedAccountMismatch => "Error: The derived program account does not match the expected account",
            UniswapOracleError::NotRentExempt => "Error: Lamport balance below rent-exempt threshold",
            UniswapOracleError::Unauthorized => "Error: Account not authorized to do the transaction",
            UniswapOracleError::InvalidAccount => "Error: Invalid account cannot be updated",
        }
    }

    pub open spec fn spec_print(self) -> Seq<char> {
        match self {
            UniswapOracleError::InvalidInstruction => "Error: Invalid instruction"@,
            UniswapOracleError::AlreadyInUse => "Error: account or token already in use"@,
            UniswapOracleError::DerivedAccountMismatch => "Error: The derived program account does not match the expected account"@,
            UniswapOracleError::NotRentExempt => "Error: Lamport balance below rent-exempt threshold"@,
            UniswapOracleError::Unauthorized => "Error: Account not authorized to do the transaction"@,
            UniswapOracleError::InvalidAccount => "Error: Invalid account cannot be updated"@,
        }
    }
}

impl From<UniswapOracleError> for ProgramError {
    fn from(e: UniswapOracleError) -> (r: ProgramError) {
        ProgramError::Custom(e.code())
    }
}

impl vstd::std_specs::convert::FromSpecImpl<UniswapOracleError> for ProgramError {
    open spec fn obeys_from_spec() -> bool {
        true
    }

    open spec fn from_spec(e: UniswapOracleError) -> ProgramError {
        e.spec_into()
    }
}

} // verus!
