//! Instructions of the id, address and amount program. `Initialize` stores addresses raw in 20
//! bytes; `UpdateState` left-pads them with zeros to 32 bytes.

use vstd::prelude::*;
use crate::account::ProgramError;
use crate::another_program::error::AnotherError;
use crate::codec::{push_bytes, push_zeros, read_20, read_32, zeros};
use crate::pubkey::Pubkey;

verus! {

/// Instructions supported by the program.
#[derive(Clone, Copy, Debug, PartialEq)]
pub enum AnotherInstruction {
    Initialize { moebius_program_id: Pubkey, id: [u8; 32], token: [u8; 20] },
    UpdateState { id: [u8; 32], token: [u8; 20], amount: [u8; 32] },
}

/// `input` holds a whole instruction: a known tag and every byte that the tag demands.
pub open spec fn spec_is_instruction(input: Seq<u8>) -> bool {
    ||| input.len() >= 85 && input[0] == 0
    ||| input.len() >= 97 && input[0] == 1
}

impl AnotherInstruction {
    /// The encoding: the tag byte, then the fields in order.
    pub open spec fn spec_pack(self) -> Seq<u8> {
        match self {
            AnotherInstruction::Initialize { moebius_program_id, id, token } => seq![0u8]
                + moebius_program_id@ + id@ + token@,
            AnotherInstruction::UpdateState { id, token, amount } => seq![1u8] + id@ + zeros(12) + token@
                + amount@,
        }
    }

    /// `v` is the instruction that `input` encodes; bytes past its end are ignored, and so
    /// are the padding bytes of the address slot.
    pub open spec fn spec_unpacks_to(input: Seq<u8>, v: AnotherInstruction) -> bool {
        match v {
            AnotherInstruction::Initialize { moebius_program_id, id, token } => {
                &&& input.len() >= 85
                &&& input[0] == 0
                &&& moebius_program_id@ == input.subrange(1, 33)
                &&& id@ == input.subrange(33, 65)
                &&& token@ == input.subrange(65, 85)
            },
            AnotherInstruction::UpdateState { id, token, amount } => {
                &&& input.len() >= 97
                &&& input[0] == 1
                &&& id@ == input.subrange(1, 33)
                &&& token@ == input.subrange(45, 65)
                &&& amount@ == input.subrange(65, 97)
            },
        }
    }

    /// Encodes the instruction.
    pub fn pack(&self) -> (r: Vec<u8>)
        ensures
            r@ == self.spec_pack(),
    {
        let mut buf: Vec<u8> = Vec::new();
        match self {
            AnotherInstruction::Initialize { moebius_program_id, id, token } => {
                buf.push(0u8);
                push_bytes(&mut buf, moebius_program_id.bytes.as_slice());
                push_bytes(&mut buf, id.as_slice());
                push_bytes(&mut buf, token.as_slice());
            },
            AnotherInstruction::UpdateState { id, token, amount } => {
                buf.push(1u8);
                push_bytes(&mut buf, id.as_slice());
                push_zeros(&mut buf, 12);
                push_bytes(&mut buf, token.as_slice());
                push_bytes(&mut buf, amount.as_slice());
            },
        }
        buf
    }

    /// Decodes an instruction; truncated input and unknown tags are `InvalidInstruction`.
    pub fn unpack(input: &[u8]) -> (r: Result<AnotherInstruction, ProgramError>)
        ensures
            r is Ok <==> spec_is_instruction(input@),
            r is Ok ==> AnotherInstruction::spec_unpacks_to(input@, r.unwrap()),
            r is Err ==> r == Err::<AnotherInstruction, ProgramError>(AnotherError::InvalidInstruction.spec_into()),
    {
        let invalid = ProgramError::from(AnotherError::InvalidInstruction);
        if input.len() == 0 {
            return Err(invalid);
        }
        let tag = input[0];
        if tag == 0 {
            if input.len() < 85 {
                return Err(invalid);
            }
            Ok(
                AnotherInstruction::Initialize {
                    moebius_program_id: Pubkey::new_from_array(read_32(input, 1)),
                    id: read_32(input, 33),
                    token: read_20(input, 65),
                },
            )
        } else if tag == 1 {
            if input.len() < 97 {
                return Err(invalid);
            }
            Ok(
                AnotherInstruction::UpdateState {
                    id: read_32(input, 1),
                    token: read_20(input, 45),
                    amount: read_32(input, 65),
                },
            )
        } else {
            Err(invalid)
        }
    }
}

/// Decoding an encoded instruction gives back the instruction that was encoded.
pub proof fn lemma_instruction_round_trip(v: AnotherInstruction, w: AnotherInstruction)
    requires
        AnotherInstruction::spec_unpacks_to(v.spec_pack(), w),
    ensures
        w == v,
{
    let p = v.spec_pack();
    match (v, w) {
        (
            AnotherInstruction::Initialize { moebius_program_id: a0, id: a1, token: a2 },
            AnotherInstruction::Initialize { moebius_program_id: b0, id: b1, token: b2 },
        ) => {
            assert(p.subrange(1, 33) =~= a0@);
            assert(p.subrange(33, 65) =~= a1@);
            assert(p.subrange(65, 85) =~= a2@);
            assert(a0.bytes =~= b0.bytes);
            assert(a1 =~= b1);
            assert(a2 =~= b2);
        },
        (
            AnotherInstruction::UpdateState { id: a1, token: a2, amount: a3 },
            AnotherInstruction::UpdateState { id: b1, token: b2, amount: b3 },
        ) => {
            assert(p.subrange(1, 33) =~= a1@);
            assert(p.subrange(45, 65) =~= a2@);
            assert(p.subrange(65, 97) =~= a3@);
            assert(a1 =~= b1);
            assert(a2 =~= b2);
            assert(a3 =~= b3);
        },
        (AnotherInstruction::Initialize { .. }, _) => {
            assert(p[0] == 0);
        },
        (AnotherInstruction::UpdateState { .. }, _) => {
            assert(p[0] == 1);
        },
    }
}

/// Every encoded instruction is accepted by the decoder and reads as itself.
pub proof fn lemma_packed_is_instruction(v: AnotherInstruction)
    ensures
        spec_is_instruction(v.spec_pack()),
        AnotherInstruction::spec_unpacks_to(v.spec_pack(), v),
{
    let p = v.spec_pack();
    match v {
        AnotherInstruction::Initialize { moebius_program_id, id, token } => {
            assert(p.subrange(1, 33) =~= moebius_program_id@);
            assert(p.subrange(33, 65) =~= id@);
            assert(p.subrange(65, 85) =~= token@);
        },
        AnotherInstruction::UpdateState { id, token, amount } => {
            assert(p.subrange(1, 33) =~= id@);
            assert(p.subrange(45, 65) =~= token@);
            assert(p.subrange(65, 97) =~= amount@);
        },
    }
}

} // verus!
