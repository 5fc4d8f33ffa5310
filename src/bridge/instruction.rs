//! Instructions of the bridge program and their byte encoding.

use vstd::prelude::*;
use vstd::bytes::{
    lemma_auto_spec_u64_to_from_le_bytes, spec_u64_from_le_bytes, spec_u64_to_le_bytes,
    u64_from_le_bytes, u64_to_le_bytes,
};
use crate::account::{rent_sysvar_id, rent_sysvar_bytes, AccountMeta, Instruction, ProgramError};
use crate::bridge::error::MoebiusError;
use crate::codec::{push_bytes, read_32, read_range};
use crate::pubkey::Pubkey;

verus! {

/// Instructions supported by the bridge program.
#[derive(Clone, Debug, PartialEq)]
pub enum MoebiusInstruction {
    /// Initializes the bridge state account.
    ///
    /// Accounts expected:
    ///   0. `[writable]` The bridge state account.
    ///   1. `[]` Rent sysvar.
    Initialize {
        /// The authority that can transport arbitrary data over the bridge.
        authority: Pubkey,
    },
    /// Forwards `data` to a target program, signed by the derived caller address.
    ///
    /// Accounts expected:
    ///   0. `[writable]` The bridge state account.
    ///   1. `[signer]` The bridge authority.
    ///   2. `[writable]` The derived caller account.
    ///   3. `[]` The target program.
    ///   4. `[writable]` The target account.
    UpdateData {
        /// Instruction data for the target program.
        data: Vec<u8>,
    },
}

/// The length field of an `UpdateData` encoding, read from bytes 1 to 9.
pub open spec fn length_field(input: Seq<u8>) -> nat {
    spec_u64_from_le_bytes(input.subrange(1, 9)) as nat
}

/// `input` holds a whole instruction: a known tag and every byte that the tag demands.
pub open spec fn spec_is_instruction(input: Seq<u8>) -> bool {
    ||| input.len() >= 33 && input[0] == 0
    ||| input.len() >= 9 && input[0] == 1 && input.len() >= 9 + length_field(input)
}

impl MoebiusInstruction {
    /// The encoding: the tag byte, then the variant's fields; a payload is prefixed by its
    /// length as eight little-endian bytes.
    pub open spec fn spec_pack(self) -> Seq<u8> {
        match self {
            MoebiusInstruction::Initialize { authority } => seq![0u8] + authority@,
            MoebiusInstruction::UpdateData { data } => seq![1u8] + spec_u64_to_le_bytes(
                data@.len() as u64,
            ) + data@,
        }
    }

    /// `v` is the instruction that `input` encodes; bytes past its end are ignored.
    pub open spec fn spec_unpacks_to(input: Seq<u8>, v: MoebiusInstruction) -> bool {
        match v {
            MoebiusInstruction::Initialize { authority } => {
                &&& input.len() >= 33
                &&& input[0] == 0
                &&& authority@ == input.subrange(1, 33)
            },
            MoebiusInstruction::UpdateData { data } => {
                &&& input.len() >= 9
                &&& input[0] == 1
                &&& input.len() >= 9 + length_field(input)
                &&& data@ == input.subrange(9, 9 + length_field(input) as int)
            },
        }
    }

    /// The payload's length fits the eight-byte length field.
    pub open spec fn spec_fits(self) -> bool {
        match self {
            MoebiusInstruction::Initialize { .. } => true,
            MoebiusInstruction::UpdateData { data } => data@.len() <= u64::MAX,
        }
    }

    /// The two instructions carry the same values.
    pub open spec fn spec_same(self, other: MoebiusInstruction) -> bool {
        match (self, other) {
            (
                MoebiusInstruction::Initialize { authority: a },
                MoebiusInstruction::Initialize { authority: b },
            ) => a == b,
            (MoebiusInstruction::UpdateData { data: a }, MoebiusInstruction::UpdateData { data: b }) => a@
                == b@,
            _ => false,
        }
    }

    /// Encodes the instruction.
    pub fn pack(&self) -> (r: Vec<u8>)
        ensures
            r@ == self.spec_pack(),
    {
        let mut buf: Vec<u8> = Vec::new();
        match self {
            MoebiusInstruction::Initialize { authority } => {
                buf.push(0u8);
                push_bytes(&mut buf, authority.bytes.as_slice());
            },
            MoebiusInstruction::UpdateData { data } => {
                buf.push(1u8);
                let len = u64_to_le_bytes(data.len() as u64);
                push_bytes(&mut buf, len.as_slice());
                push_bytes(&mut buf, data.as_slice());
            },
        }
        buf
    }

    /// Decodes an instruction; truncated input and unknown tags are `InvalidInstruction`.
    pub fn unpack(input: &[u8]) -> (r: Result<MoebiusInstruction, ProgramError>)
        ensures
            r is Ok <==> spec_is_instruction(input@),
            r is Ok ==> MoebiusInstruction::spec_unpacks_to(input@, r.unwrap()),
            r is Err ==> r == Err::<MoebiusInstruction, ProgramError>(
                MoebiusError::InvalidInstruction.spec_into(),
            ),
    {
        let invalid = ProgramError::Custom(MoebiusError::InvalidInstruction.code());
        if input.len() == 0 {
            return Err(invalid);
        }
        let tag = input[0];
        if tag == 0 {
            if input.len() < 33 {
                return Err(invalid);
            }
            let authority = Pubkey::new_from_array(read_32(input, 1));
            Ok(MoebiusInstruction::Initialize { authority })
        } else if tag == 1 {
            if input.len() < 9 {
                return Err(invalid);
            }
            let (_, rest) = input.split_at(1);
            let (len_bytes, _) = rest.split_at(8);
            assert(len_bytes@ == input@.subrange(1, 9));
            let data_len = u64_from_le_bytes(len_bytes);
            let available = input.len() - 9;
            if (available as u64) < data_len {
                return Err(invalid);
            }
            let data = read_range(input, 9, 9 + data_len as usize);
            Ok(MoebiusInstruction::UpdateData { data })
        } else {
            Err(invalid)
        }
    }
}

/// Decoding an encoded instruction gives back the instruction that was encoded.
pub proof fn lemma_instruction_round_trip(v: MoebiusInstruction, w: MoebiusInstruction)
    requires
        v.spec_fits(),
        MoebiusInstruction::spec_unpacks_to(v.spec_pack(), w),
    ensures
        v.spec_same(w),
{
    lemma_auto_spec_u64_to_from_le_bytes();
    match v {
        MoebiusInstruction::Initialize { authority } => {
            assert(v.spec_pack().subrange(1, 33) =~= authority@);
            assert(v.spec_pack()[0] == 0);
            if let MoebiusInstruction::Initialize { authority: b } = w {
                assert(b.bytes =~= authority.bytes);
            }
        },
        MoebiusInstruction::UpdateData { data } => {
            let p = v.spec_pack();
            let n = spec_u64_to_le_bytes(data@.len() as u64);
            assert(p[0] == 1);
            assert(p.subrange(1, 9) =~= n);
            assert(p.subrange(9, 9 + data@.len() as int) =~= data@);
        },
    }
}

/// Every encoded instruction is accepted by the decoder.
pub proof fn lemma_packed_is_instruction(v: MoebiusInstruction)
    requires
        v.spec_fits(),
    ensures
        spec_is_instruction(v.spec_pack()),
        MoebiusInstruction::spec_unpacks_to(v.spec_pack(), v),
{
    lemma_auto_spec_u64_to_from_le_bytes();
    match v {
        MoebiusInstruction::Initialize { authority } => {
            assert(v.spec_pack().subrange(1, 33) =~= authority@);
        },
        MoebiusInstruction::UpdateData { data } => {
            let p = v.spec_pack();
            let n = spec_u64_to_le_bytes(data@.len() as u64);
            assert(p[0] == 1);
            assert(p.subrange(1, 9) =~= n);
            assert(p.subrange(9, 9 + data@.len() as int) =~= data@);
        },
    }
}

/// Builds an `Initialize` instruction for the bridge state account `moebius_account_id`.
pub fn initialize(program_id: &Pubkey, moebius_account_id: &Pubkey, authority: &Pubkey) -> (r: Result<
    Instruction,
    ProgramError,
>)
    ensures
        r is Ok,
        r.unwrap().program_id == *program_id,
        r.unwrap().data@ == (MoebiusInstruction::Initialize { authority: *authority }).spec_pack(),
        r.unwrap().accounts@.len() == 2,
        r.unwrap().accounts@[0] == (AccountMeta {
            pubkey: *moebius_account_id,
            is_signer: false,
            is_writable: true,
        }),
        r.unwrap().accounts@[1].pubkey@ == rent_sysvar_bytes(),
        !r.unwrap().accounts@[1].is_signer && !r.unwrap().accounts@[1].is_writable,
{
    let data = MoebiusInstruction::Initialize { authority: *authority }.pack();
    let mut accounts: Vec<AccountMeta> = Vec::new();
    accounts.push(AccountMeta::new(*moebius_account_id, false));
    accounts.push(AccountMeta::new_readonly(rent_sysvar_id(), false));
    Ok(Instruction { program_id: *program_id, accounts, data })
}

/// Builds an `UpdateData` instruction that forwards `data` to `target_program_id` for
/// `target_account_id`, signed by `authority_id`.
pub fn update_data(
    program_id: &Pubkey,
    moebius_account_id: &Pubkey,
    authority_id: &Pubkey,
    caller_account_id: &Pubkey,
    target_program_id: &Pubkey,
    target_account_id: &Pubkey,
    data: Vec<u8>,
) -> (r: Result<Instruction, ProgramError>)
    ensures
        r is Ok,
        r.unwrap().program_id == *program_id,
        r.unwrap().data@ == (MoebiusInstruction::UpdateData { data }).spec_pack(),
        r.unwrap().accounts@ == seq![
            AccountMeta { pubkey: *moebius_account_id, is_signer: false, is_writable: true },
            AccountMeta { pubkey: *authority_id, is_signer: true, is_writable: true },
            AccountMeta { pubkey: *caller_account_id, is_signer: false, is_writable: true },
            AccountMeta { pubkey: *target_program_id, is_signer: false, is_writable: true },
            AccountMeta { pubkey: *target_account_id, is_signer: false, is_writable: true },
        ],
{
    let instruction_data = MoebiusInstruction::UpdateData { data }.pack();
    let mut accounts: Vec<AccountMeta> = Vec::new();
    accounts.push(AccountMeta::new(*moebius_account_id, false));
    accounts.push(AccountMeta::new(*authority_id, true));
    accounts.push(AccountMeta::new(*caller_account_id, false));
    accounts.push(AccountMeta::new(*target_program_id, false));
    accounts.push(AccountMeta::new(*target_account_id, false));
    assert(accounts@ =~= seq![
        AccountMeta { pubkey: *moebius_account_id, is_signer: false, is_writable: true },
        AccountMeta { pubkey: *authority_id, is_signer: true, is_writable: true },
        AccountMeta { pubkey: *caller_account_id, is_signer: false, is_writable: true },
        AccountMeta { pubkey: *target_program_id, is_signer: false, is_writable: true },
        AccountMeta { pubkey: *target_account_id, is_signer: false, is_writable: true },
    ]);
    Ok(Instruction { program_id: *program_id, accounts, data: instruction_data })
}

} // verus!
