//! A target program that records the reserves of a token pair, one account per pair,
//! written only by the bridge's derived caller address.

pub mod error;
pub mod instruction;
pub mod processor;
pub mod state;

use vstd::prelude::*;
use crate::pubkey::Pubkey;

verus! {

/// The program's id: `G33TSUoKH1xM7bPXTMoQhGQhfwWkWT8dGaW6dunDQoen`.
pub fn id() -> (r: Pubkey)
    ensures
        r@ == program_id_bytes(),
{
    let r = Pubkey::new_from_array(
        [
            223, 101, 62, 10, 197, 63, 149, 67, 15, 92, 49, 131, 89, 20, 65, 162, 109, 90, 107, 6,
            150, 178, 160, 230, 249, 195, 250, 99, 219, 243, 58, 127,
        ],
    );
    assert(r@ =~= program_id_bytes());
    r
}

pub open spec fn program_id_bytes() -> Seq<u8> {
    seq![
        223u8, 101, 62, 10, 197, 63, 149, 67, 15, 92, 49, 131, 89, 20, 65, 162, 109, 90, 107, 6,
        150, 178, 160, 230, 249, 195, 250, 99, 219, 243, 58, 127,
    ]
}

} // verus!
