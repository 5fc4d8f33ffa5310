//! The values that the query service reports from program accounts.

use vstd::prelude::*;
use crate::account::ProgramError;
use crate::hex::{hex_of, to_hex};
use crate::simple_program::state::SimpleProgram;

verus! {

/// The query service's context; it holds nothing.
#[derive(Clone, Copy, Debug)]
pub struct Database {}

impl Database {
    pub fn new() -> (r: Database) {
        Database {}
    }
}

/// The values of a simple program account.
#[derive(Clone, Copy, Debug, PartialEq)]
pub struct SimpleData {
    pub val_bytes32: [u8; 32],
    pub val_address: [u8; 20],
    pub val_uint256: [u8; 32],
}

impl SimpleData {
    /// Decodes the data of a simple program account; the flag is not checked.
    pub fn from_account_data(data: &[u8]) -> (r: Result<SimpleData, ProgramError>)
        ensures
            data@.len() != SimpleProgram::LEN ==> r == Err::<SimpleData, ProgramError>(
                ProgramError::InvalidAccountData,
            ),
            data@.len() == SimpleProgram::LEN ==> r is Ok && {
                let d = r.unwrap();
                &&& d.val_bytes32@ == data@.subrange(33, 65)
                &&& d.val_address@ == data@.subrange(65, 85)
                &&& d.val_uint256@ == data@.subrange(85, 117)
            },
    {
        let simple = match SimpleProgram::unpack_unchecked(data) {
            Ok(simple) => simple,
            Err(e) => return Err(e),
        };
        Ok(
            SimpleData {
                val_bytes32: simple.val_bytes32,
                val_address: simple.val_address,
                val_uint256: simple.val_uint256,
            },
        )
    }

    /// The 32-byte value in hexadecimal.
    pub fn val_bytes32(&self) -> (r: String)
        ensures
            r@ == hex_of(self.val_bytes32@),
    {
        to_hex(self.val_bytes32.as_slice())
    }

    /// The address in hexadecimal.
    pub fn val_address(&self) -> (r: String)
        ensures
            r@ == hex_of(self.val_address@),
    {
        to_hex(self.val_address.as_slice())
    }

    /// The 256-bit word in hexadecimal.
    pub fn val_uint256(&self) -> (r: String)
        ensures
            r@ == hex_of(self.val_uint256@),
    {
        to_hex(self.val_uint256.as_slice())
    }

    pub fn val_as_hex(&self) -> (r: String)
        ensures
            r@ == "as_hex"@,
    {
        "as_hex".to_owned()
    }
}

} // verus!
