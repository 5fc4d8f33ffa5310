//! Errors of the id, address and amount target program.

use vstd::prelude::*;
use crate::account::ProgramError;

verus! {

/// Errors that the program reports.
#[derive(Clone, Copy, Debug, PartialEq, Eq, Structural)]
pub enum AnotherError {
    /// Invalid instruction.
    InvalidInstruction,
}

impl AnotherError {
    /// The error's code, its position in the declaration.
    pub open spec fn spec_code(self) -> u32 {
        0
    }

    /// The program error that carries this error's code.
    pub open spec fn spec_into(self) -> ProgramError {
        ProgramError::Custom(self.spec_code())
    }

    pub fn code(&self) -> (r: u32)
        ensures
            r == self.spec_code(),
    {
        0
    }

    /// A short description of the error.
    pub fn description(&self) -> (r: &'static str)
        ensures
            r@ == "Invalid instruction"@,
    {
        "Invalid instruction"
    }
}

impl From<AnotherError> for ProgramError {
    fn from(e: AnotherError) -> (r: ProgramError) {
        ProgramError::Custom(e.code())
    }
}

impl vstd::std_specs::convert::FromSpecImpl<AnotherError> for ProgramError {
    open spec fn obeys_from_spec() -> bool {
        true
    }

    open spec fn from_spec(e: AnotherError) -> ProgramError {
        e.spec_into()
    }
}

} // verus!
