//! A target program that stores a 32-byte value, an address and a 256-bit word, written
//! only by its authority: the bridge's derived caller address.

pub mod error;
pub mod instruction;
pub mod processor;
pub mod state;

use vstd::prelude::*;
use crate::pubkey::Pubkey;

verus! {

/// The program's id: `9rCXCJDsnS53QtdXvYhYCAxb6yBE16KAQx5zHWfHe9QF`.
pub fn id() -> (r: Pubkey)
    ensures
        r@ == program_id_bytes(),
{
    let r = Pubkey::new_from_array(
        [
            131, 119, 251, 63, 149, 69, 163, 115, 202, 57, 88, 0, 98, 11, 180, 215, 64, 243, 172,
            54, 114, 88, 225, 222, 26, 61, 26, 187, 135, 61, 255, 44,
        ],
    );
    assert(r@ =~= program_id_bytes());
    r
}

pub open spec fn program_id_bytes() -> Seq<u8> {
    seq![
        131u8, 119, 251, 63, 149, 69, 163, 115, 202, 57, 88, 0, 98, 11, 180, 215, 64, 243, 172,
        54, 114, 88, 225, 222, 26, 61, 26, 187, 135, 61, 255, 44,
    ]
}

} // verus!
