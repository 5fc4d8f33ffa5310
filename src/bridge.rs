//! The bridge program: holds the relay's authority and forwards authorized writes to
//! target programs under a derived capability address.

pub mod error;
pub mod instruction;
pub mod processor;
pub mod state;

use vstd::prelude::*;
use crate::pubkey::Pubkey;

verus! {

/// The bridge program's id: `6kAHanNCT1LKFoMn3fBdyvJuvHLcWhLpJbTpbHpqRiG4`.
pub fn id() -> (r: Pubkey)
    ensures
        r@ == program_id_bytes(),
{
    let r = Pubkey::new_from_array(
        [
            85, 88, 232, 182, 6, 127, 123, 81, 25, 20, 212, 146, 95, 166, 250, 232, 64, 231, 209,
            148, 204, 153, 8, 143, 102, 188, 166, 245, 198, 249, 153, 77,
        ],
    );
    assert(r@ =~= program_id_bytes());
    r
}

pub open spec fn program_id_bytes() -> Seq<u8> {
    seq![
        85u8, 88, 232, 182, 6, 127, 123, 81, 25, 20, 212, 146, 95, 166, 250, 232, 64, 231, 209,
        148, 204, 153, 8, 143, 102, 188, 166, 245, 198, 249, 153, 77,
    ]
}

} // verus!
