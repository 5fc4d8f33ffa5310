//! Instructions of the simple program and their byte encoding.

use vstd::prelude::*;
use crate::account::{rent_sysvar_bytes, rent_sysvar_id, AccountMeta, Instruction, ProgramError};
use crate::codec::{push_bytes, push_zeros, read_20, read_32, zeros};
use crate::pubkey::Pubkey;
use crate::simple_program::error::SimpleProgramError;

verus! {

/// Instructions supported by the simple program.
#[derive(Clone, Copy, Debug, PartialEq)]
pub enum SimpleProgramInstruction {
    /// Initializes a state account; its authority becomes the address derived from this
    /// program and the account under the bridge program `moebius_program_id`.
    ///
    /// Accounts expected:
    ///   0. `[writable]` The account to initialize.
    ///   1. `[]` Rent sysvar.
    Initialize {
        /// The bridge program's id.
        moebius_program_id: Pubkey,
    },
    /// Overwrites the stored values.
    ///
    /// Accounts expected:
    ///   0. `[signer]` The authority.
    ///   1. `[writable]` The state account.
    UpdateState {
        /// A 32-byte value.
        val_bytes32: [u8; 32],
        /// An address, encoded left-padded with zeros to 32 bytes.
        val_address: [u8; 20],
        /// A 256-bit word.
        val_uint256: [u8; 32],
    },
}

/// `input` holds a whole instruction: a known tag and every byte that the tag demands.
pub open spec fn spec_is_instruction(input: Seq<u8>) -> bool {
    ||| input.len() >= 33 && input[0] == 0
    ||| input.len() >= 97 && input[0] == 1
}

impl SimpleProgramInstruction {
    /// The encoding: the tag byte, then the fields, each in a 32-byte slot.
    pub open spec fn spec_pack(self) -> Seq<u8> {
        match self {
            SimpleProgramInstruction::Initialize { moebius_program_id } => seq![0u8]
                + moebius_program_id@,
            SimpleProgramInstruction::UpdateState { val_bytes32, val_address, val_uint256 } => seq![1u8]
                + val_bytes32@ + zeros(12) + val_address@ + val_uint256@,
        }
    }

    /// `v` is the instruction that `input` encodes; bytes past its end are ignored, and so
    /// are the padding bytes of the address slot.
    pub open spec fn spec_unpacks_to(input: Seq<u8>, v: SimpleProgramInstruction) -> bool {
        match v {
            SimpleProgramInstruction::Initialize { moebius_program_id } => {
                &&& input.len() >= 33
                &&& input[0] == 0
                &&& moebius_program_id@ == input.subrange(1, 33)
            },
            SimpleProgramInstruction::UpdateState { val_bytes32, val_address, val_uint256 } => {
                &&& input.len() >= 97
                &&& input[0] == 1
                &&& val_bytes32@ == input.subrange(1, 33)
                &&& val_address@ == input.subrange(45, 65)
                &&& val_uint256@ == input.subrange(65, 97)
            },
        }
    }

    /// Encodes the instruction.
    pub fn pack(&self) -> (r: Vec<u8>)
        ensures
            r@ == self.spec_pack(),
    {
        let mut buf: Vec<u8> = Vec::new();
        match self {
            SimpleProgramInstruction::Initialize { moebius_program_id } => {
                buf.push(0u8);
                push_bytes(&mut buf, moebius_program_id.bytes.as_slice());
            },
            SimpleProgramInstruction::UpdateState { val_bytes32, val_address, val_uint256 } => {
                buf.push(1u8);
                push_bytes(&mut buf, val_bytes32.as_slice());
                push_zeros(&mut buf, 12);
                push_bytes(&mut buf, val_address.as_slice());
                push_bytes(&mut buf, val_uint256.as_slice());
            },
        }
        buf
    }

    /// Decodes an instruction; truncated input and unknown tags are `InvalidInstruction`.
    pub fn unpack(input: &[u8]) -> (r: Result<SimpleProgramInstruction, ProgramError>)
        ensures
            r is Ok <==> spec_is_instruction(input@),
            r is Ok ==> SimpleProgramInstruction::spec_unpacks_to(input@, r.unwrap()),
            r is Err ==> r == Err::<SimpleProgramInstruction, ProgramError>(
                SimpleProgramError::InvalidInstruction.spec_into(),
            ),
    {
        let invalid = ProgramError::from(SimpleProgramError::InvalidInstruction);
        if input.len() == 0 {
            return Err(invalid);
        }
        let tag = input[0];
        if tag == 0 {
            if input.len() < 33 {
                return Err(invalid);
            }
            let moebius_program_id = Pubkey::new_from_array(read_32(input, 1));
            Ok(SimpleProgramInstruction::Initialize { moebius_program_id })
        } else if tag == 1 {
            if input.len() < 97 {
                return Err(invalid);
            }
            let val_bytes32 = read_32(input, 1);
            let val_address = read_20(input, 45);
            let val_uint256 = read_32(input, 65);
            Ok(SimpleProgramInstruction::UpdateState { val_bytes32, val_address, val_uint256 })
        } else {
            Err(invalid)
        }
    }
}

/// Decoding an encoded instruction gives back the instruction that was encoded.
pub proof fn lemma_instruction_round_trip(v: SimpleProgramInstruction, w: SimpleProgramInstruction)
    requires
        SimpleProgramInstruction::spec_unpacks_to(v.spec_pack(), w),
    ensures
        w == v,
{
    lemma_packed_is_instruction(v);
    match (v, w) {
        (
            SimpleProgramInstruction::Initialize { moebius_program_id: a },
            SimpleProgramInstruction::Initialize { moebius_program_id: b },
        ) => {
            assert(a.bytes =~= b.bytes);
        },
        (
            SimpleProgramInstruction::UpdateState { val_bytes32: a1, val_address: a2, val_uint256: a3 },
            SimpleProgramInstruction::UpdateState { val_bytes32: b1, val_address: b2, val_uint256: b3 },
        ) => {
            assert(a1 =~= b1);
            assert(a2 =~= b2);
            assert(a3 =~= b3);
        },
        _ => {},
    }
}

/// Every encoded instruction is accepted by the decoder and reads as itself.
pub proof fn lemma_packed_is_instruction(v: SimpleProgramInstruction)
    ensures
        spec_is_instruction(v.spec_pack()),
        SimpleProgramInstruction::spec_unpacks_to(v.spec_pack(), v),
{
    let p = v.spec_pack();
    match v {
        SimpleProgramInstruction::Initialize { moebius_program_id } => {
            assert(p.subrange(1, 33) =~= moebius_program_id@);
        },
        SimpleProgramInstruction::UpdateState { val_bytes32, val_address, val_uint256 } => {
            assert(p.subrange(1, 33) =~= val_bytes32@);
            assert(p.subrange(45, 65) =~= val_address@);
            assert(p.subrange(65, 97) =~= val_uint256@);
        },
    }
}

/// Builds an `Initialize` instruction for `simple_program_account_id`.
pub fn initialize(program_id: &Pubkey, simple_program_account_id: &Pubkey, moebius_program_id: &Pubkey) -> (r:
    Result<Instruction, ProgramError>)
    ensures
        r is Ok,
        r.unwrap().program_id == *program_id,
        r.unwrap().data@ == (SimpleProgramInstruction::Initialize {
            moebius_program_id: *moebius_program_id,
        }).spec_pack(),
        r.unwrap().accounts@.len() == 2,
        r.unwrap().accounts@[0] == (AccountMeta {
            pubkey: *simple_program_account_id,
            is_signer: false,
            is_writable: true,
        }),
        r.unwrap().accounts@[1].pubkey@ == rent_sysvar_bytes(),
        !r.unwrap().accounts@[1].is_signer && !r.unwrap().accounts@[1].is_writable,
{
    let data = SimpleProgramInstruction::Initialize { moebius_program_id: *moebius_program_id }.pack();
    let mut accounts: Vec<AccountMeta> = Vec::new();
    accounts.push(AccountMeta::new(*simple_program_account_id, false));
    accounts.push(AccountMeta::new_readonly(rent_sysvar_id(), false));
    Ok(Instruction { program_id: *program_id, accounts, data })
}

/// Builds an `UpdateState` instruction signed by `authority`.
pub fn update_state(
    program_id: &Pubkey,
    simple_program_account_id: &Pubkey,
    authority: &Pubkey,
    val_bytes32: [u8; 32],
    val_address: [u8; 20],
    val_uint256: [u8; 32],
) -> (r: Result<Instruction, ProgramError>)
    ensures
        r is Ok,
        r.unwrap().program_id == *program_id,
        r.unwrap().data@ == (SimpleProgramInstruction::UpdateState {
            val_bytes32,
            val_address,
            val_uint256,
        }).spec_pack(),
        r.unwrap().accounts@ == seq![
            AccountMeta { pubkey: *authority, is_signer: true, is_writable: true },
            AccountMeta { pubkey: *simple_program_account_id, is_signer: false, is_writable: true },
        ],
{
    let data = SimpleProgramInstruction::UpdateState { val_bytes32, val_address, val_uint256 }.pack();
    let mut accounts: Vec<AccountMeta> = Vec::new();
    accounts.push(AccountMeta::new(*authority, true));
    accounts.push(AccountMeta::new(*simple_program_account_id, false));
    assert(accounts@ =~= seq![
        AccountMeta { pubkey: *authority, is_signer: true, is_writable: true },
        AccountMeta { pubkey: *simple_program_account_id, is_signer: false, is_writable: true },
    ]);
    Ok(Instruction { program_id: *program_id, accounts, data })
}

/// An input reads as at most one instruction.
pub proof fn lemma_unpack_unique(input: Seq<u8>, v: SimpleProgramInstruction)
    requires
        SimpleProgramInstruction::spec_unpacks_to(input, v),
    ensures
        forall|w: SimpleProgramInstruction|
            SimpleProgramInstruction::spec_unpacks_to(input, w) ==> w == v,
{
    assert forall|w: SimpleProgramInstruction|
        SimpleProgramInstruction::spec_unpacks_to(input, w) implies w == v by {
        match (v, w) {
            (
                SimpleProgramInstruction::Initialize { moebius_program_id: a },
                SimpleProgramInstruction::Initialize { moebius_program_id: b },
            ) => {
                assert(a.bytes =~= b.bytes);
            },
            (
                SimpleProgramInstruction::UpdateState { val_bytes32: a1, val_address: a2, val_uint256: a3 },
                SimpleProgramInstruction::UpdateState { val_bytes32: b1, val_address: b2, val_uint256: b3 },
            ) => {
                assert(a1 =~= b1);
                assert(a2 =~= b2);
                assert(a3 =~= b3);
            },
            _ => {},
        }
    }
}

} // verus!
