//! Errors of the bridge program.

use vstd::prelude::*;
use crate::account::ProgramError;

verus! {

/// Errors that the bridge program reports.
#[derive(Clone, Copy, Debug, PartialEq, Eq, Structural)]
pub enum MoebiusError {
    /// Invalid instruction.
    InvalidInstruction,
    /// The account cannot be initialized because it is already being used.
    AlreadyInUse,
    /// Lamport balance below rent-exempt threshold.
    NotRentExempt,
    /// The sender is not authorized to do the transaction.
    Unauthorized,
    /// The derived program account does not match the expected account.
    DerivedAccountMismatch,
    /// The target program account does not have a loaded executable.
    TargetProgramNotExecutable,
    /// The target account is not owned by the target program account.
    TargetOwnershipMismatch,
}

impl MoebiusError {
    /// The error's code, its position in the declaration.
    pub open spec fn spec_code(self) -> u32 {
        match self {
            MoebiusError::InvalidInstruction => 0,
            MoebiusError::AlreadyInUse => 1,
            MoebiusError::NotRentExempt => 2,
            MoebiusError::Unauthorized => 3,
            MoebiusError::DerivedAccountMismatch => 4,
            MoebiusError::TargetProgramNotExecutable => 5,
            MoebiusError::TargetOwnershipMismatch => 6,
        }
    }

    /// The program error that carries this error's code.
    pub open spec fn spec_into(self) -> ProgramError {
        ProgramError::Custom(self.spec_code())
    }

    pub fn code(&self) -> (r: u32)
        ensures
            r == self.spec_code(),
    {
        match self {
            MoebiusError::InvalidInstruction => 0,
            MoebiusError::AlreadyInUse => 1,
            MoebiusError::NotRentExempt => 2,
            MoebiusError::Unauthorized => 3,
            MoebiusError::DerivedAccountMismatch => 4,
            MoebiusError::TargetProgramNotExecutable => 5,
            MoebiusError::TargetOwnershipMismatch => 6,
        }
    }

    /// A short description of the error.
    pub fn description(&self) -> (r: &'static str)
        ensures
            r@ == self.spec_description(),
    {
        match self {
            MoebiusError::InvalidInstruction => "Invalid instruction",
            MoebiusError::AlreadyInUse => "Already in use",
            MoebiusError::NotRentExempt => "Lamport balance below rent-exempt threshold",
            MoebiusError::Unauthorized => "Unauthorized",
            MoebiusError::DerivedAccountMismatch => "Derived program account mismatch",
            MoebiusError::TargetProgramNotExecutable => "Target program account is not executable",
            MoebiusError::TargetOwnershipMismatch => "Target account not owned by target program",
        }
    }

    pub open spec fn spec_description(self) -> Seq<char> {
        match self {
            MoebiusError::InvalidInstruction => "Invalid instruction"@,
            MoebiusError::AlreadyInUse => "Already in use"@,
            MoebiusError::NotRentExempt => "Lamport balance below rent-exempt threshold"@,
            MoebiusError::Unauthorized => "Unauthorized"@,
            MoebiusError::DerivedAccountMismatch => "Derived program account mismatch"@,
            MoebiusError::TargetProgramNotExecutable => "Target program account is not executable"@,
            MoebiusError::TargetOwnershipMismatch => "Target account not owned by target program"@,
        }
    }

    /// The line the program logs when it fails with this error.
    pub fn print(&self) -> (r: &'static str)
        ensures
            r@ == self.spec_print(),
    {
        match self {
            MoebiusError::InvalidInstruction => "Error: Invalid instruction",
            MoebiusError::AlreadyInUse => "Error: account or token already in use",
            MoebiusError::NotRentExempt => "Error: Lamport balance below rent-exempt threshold",
            MoebiusError::Unauthorized => "Error: Account not authorized to do the transaction",
            MoebiusError::DerivedAccountMismatch => "Error: The derived program account does not match the expected account",
            MoebiusError::TargetProgramNotExecutable => "Error: The target program account is not an executable",
            MoebiusError::TargetOwnershipMismatch => "Error: The target account is not owned by the target program account",
        }
    }

    pub open spec fn spec_print(self) -> Seq<char> {
        match self {
            MoebiusError::InvalidInstruction => "Error: Invalid instruction"@,
            MoebiusError::AlreadyInUse => "Error: account or token already in use"@,
            MoebiusError::NotRentExempt => "Error: Lamport balance below rent-exempt threshold"@,
            MoebiusError::Unauthorized => "Error: Account not authorized to do the transaction"@,
            MoebiusError::DerivedAccountMismatch => "Error: The derived program account does not match the expected account"@,
            MoebiusError::TargetProgramNotExecutable => "Error: The target program account is not an executable"@,
            MoebiusError::TargetOwnershipMismatch => "Error: The target account is not owned by the target program account"@,
        }
    }
}

impl From<MoebiusError> for ProgramError {
    fn from(e: MoebiusError) -> (r: ProgramError) {
        ProgramError::Custom(e.code())
    }
}

impl vstd::std_specs::convert::FromSpecImpl<MoebiusError> for ProgramError {
    open spec fn obeys_from_spec() -> bool {
        true
    }

    open spec fn from_spec(e: MoebiusError) -> ProgramError {
        e.spec_into()
    }
}

} // verus!
