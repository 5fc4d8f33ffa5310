//! Errors of the simple program.

use vstd::prelude::*;
use crate::account::ProgramError;

verus! {

/// Errors that the simple program reports.
#[derive(Clone, Copy, Debug, PartialEq, Eq, Structural)]
pub enum SimpleProgramError {
    /// Invalid instruction.
    InvalidInstruction,
    /// The account cannot be initialized because it is already being used.
    AlreadyInUse,
    /// Lamport balance below rent-exempt threshold.
    NotRentExempt,
    /// The sender is not authorized to do the transaction.
    Unauthorized,
}

impl SimpleProgramError {
    /// The error's code, its position in the declaration.
    pub open spec fn spec_code(self) -> u32 {
        match self {
            SimpleProgramError::InvalidInstruction => 0,
            SimpleProgramError::AlreadyInUse => 1,
            SimpleProgramError::NotRentExempt => 2,
            SimpleProgramError::Unauthorized => 3,
        }
    }

    /// The program error that carries this error's code.
    pub open spec fn spec_into(self) -> ProgramError {
        ProgramError::Custom(self.spec_code())
    }

    pub fn code(&self) -> (r: u32)
        ensures
            r == self.spec_code(),
    {
        match self {
            SimpleProgramError::InvalidInstruction => 0,
            SimpleProgramError::AlreadyInUse => 1,
            SimpleProgramError::NotRentExempt => 2,
            SimpleProgramError::Unauthorized => 3,
        }
    }

    /// A short description of the error.
    pub fn description(&self) -> (r: &'static str)
        ensures
            r@ == self.spec_description(),
    {
        match self {
            SimpleProgramError::InvalidInstruction => "Invalid instruction",
            SimpleProgramError::AlreadyInUse => "Already in use",
            SimpleProgramError::NotRentExempt => "Lamport balance below rent-exempt threshold",
            SimpleProgramError::Unauthorized => "Unauthorized",
        }
    }

    pub open spec fn spec_description(self) -> Seq<char> {
        match self {
            SimpleProgramError::InvalidInstruction => "Invalid instruction"@,
            SimpleProgramError::AlreadyInUse => "Already in use"@,
            SimpleProgramError::NotRentExempt => "Lamport balance below rent-exempt threshold"@,
            SimpleProgramError::Unauthorized => "Unauthorized"@,
        }
    }

    /// The line the program logs when it fails with this error.
    pub fn print(&self) -> (r: &'static str)
        ensures
            r@ == self.spec_print(),
    {
        match self {
            SimpleProgramError::InvalidInstruction => "Error: Invalid instruction",
            SimpleProgramError::AlreadyInUse => "Error: account or token already in use",
            SimpleProgramError::NotRentExempt => "Error: Lamport balance below rent-exempt threshold",
            SimpleProgramError::Unauthorized => "Error: Account not authorized to do the transaction",
        }
    }

    pub open spec fn spec_print(self) -> Seq<char> {
        match self {
            SimpleProgramError::InvalidInstruction => "Error: Invalid instruction"@,
            SimpleProgramError::AlreadyInUse => "Error: account or token already in use"@,
            SimpleProgramError::NotRentExempt => "Error: Lamport balance below rent-exempt threshold"@,
            SimpleProgramError::Unauthorized => "Error: Account not authorized to do the transaction"@,
        }
    }
}

impl From<SimpleProgramError> for ProgramError {
    fn from(e: SimpleProgramError) -> (r: ProgramError) {
        ProgramError::Custom(e.code())
    }
}

impl vstd::std_specs::convert::FromSpecImpl<SimpleProgramError> for ProgramError {
    open spec fn obeys_from_spec() -> bool {
        true
    }

    open spec fn from_spec(e: SimpleProgramError) -> ProgramError {
        e.spec_into()
    }
}

} // verus!
