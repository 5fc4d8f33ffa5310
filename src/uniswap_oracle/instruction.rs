//! Instructions of the pair oracle program and their byte encoding.

use vstd::prelude::*;
use crate::account::{rent_sysvar_bytes, rent_sysvar_id, system_program_id, AccountMeta, Instruction, ProgramError};
use crate::codec::{push_bytes, push_zeros, read_20, read_32, zeros};
use crate::pubkey::Pubkey;
use crate::uniswap_oracle::error::UniswapOracleError;

verus! {

/// Instructions supported by the oracle program.
#[derive(Clone, Copy, Debug, PartialEq)]
pub enum UniswapOracleInstruction {
    /// Creates the oracle account of a token pair at the address derived from the pair.
    ///
    /// Accounts expected:
    ///   0. `[signer, writable]` The payer that funds the account.
    ///   1. `[writable]` The oracle account.
    ///   2. `[]` The system program.
    ///   3. `[]` Rent sysvar.
    Initialize {
        /// The bridge program's id.
        moebius_program_id: Pubkey,
        /// Address of the first token, stored raw in 20 bytes.
        token0: [u8; 20],
        /// Decimals of the first token.
        decimal0: u8,
        /// Address of the second token, stored raw in 20 bytes.
        token1: [u8; 20],
        /// Decimals of the second token.
        decimal1: u8,
    },
    /// Records new reserves of the pair.
    ///
    /// Accounts expected:
    ///   0. `[signer]` The authority.
    ///   1. `[writable]` The oracle account.
    UpdateState {
        /// Address of the first token, left-padded with zeros to 32 bytes.
        token0: [u8; 20],
        /// Amount of the first token.
        amount0: [u8; 32],
        /// Address of the second token, left-padded with zeros to 32 bytes.
        token1: [u8; 20],
        /// Amount of the second token.
        amount1: [u8; 32],
    },
}

/// `input` holds a whole instruction: a known tag and every byte that the tag demands.
pub open spec fn spec_is_instruction(input: Seq<u8>) -> bool {
    ||| input.len() >= 75 && input[0] == 0
    ||| input.len() >= 129 && input[0] == 1
}

impl UniswapOracleInstruction {
    /// The encoding: the tag byte, then the fields in order.
    pub open spec fn spec_pack(self) -> Seq<u8> {
        match self {
            UniswapOracleInstruction::Initialize {
                moebius_program_id,
                token0,
                decimal0,
                token1,
                decimal1,
            } => seq![0u8] + moebius_program_id@ + token0@ + seq![decimal0] + token1@ + seq![decimal1],
            UniswapOracleInstruction::UpdateState { token0, amount0, token1, amount1 } => seq![1u8]
                + zeros(12) + token0@ + amount0@ + zeros(12) + token1@ + amount1@,
        }
    }

    /// `v` is the instruction that `input` encodes; bytes past its end are ignored, and so
    /// are the padding bytes of address slots.
    pub open spec fn spec_unpacks_to(input: Seq<u8>, v: UniswapOracleInstruction) -> bool {
        match v {
            UniswapOracleInstruction::Initialize {
                moebius_program_id,
                token0,
                decimal0,
                token1,
                decimal1,
            } => {
                &&& input.len() >= 75
                &&& input[0] == 0
                &&& moebius_program_id@ == input.subrange(1, 33)
                &&& token0@ == input.subrange(33, 53)
                &&& decimal0 == input[53]
                &&& token1@ == input.subrange(54, 74)
                &&& decimal1 == input[74]
            },
            UniswapOracleInstruction::UpdateState { token0, amount0, token1, amount1 } => {
                &&& input.len() >= 129
                &&& input[0] == 1
                &&& token0@ == input.subrange(13, 33)
                &&& amount0@ == input.subrange(33, 65)
                &&& token1@ == input.subrange(77, 97)
                &&& amount1@ == input.subrange(97, 129)
            },
        }
    }

    /// Encodes the instruction.
    pub fn pack(&self) -> (r: Vec<u8>)
        ensures
            r@ == self.spec_pack(),
    {
        let mut buf: Vec<u8> = Vec::new();
        match self {
            UniswapOracleInstruction::Initialize {
                moebius_program_id,
                token0,
                decimal0,
                token1,
                decimal1,
            } => {
                buf.push(0u8);
                push_bytes(&mut buf, moebius_program_id.bytes.as_slice());
                push_bytes(&mut buf, token0.as_slice());
                buf.push(*decimal0);
                push_bytes(&mut buf, token1.as_slice());
                buf.push(*decimal1);
            },
            UniswapOracleInstruction::UpdateState { token0, amount0, token1, amount1 } => {
                buf.push(1u8);
                push_zeros(&mut buf, 12);
                push_bytes(&mut buf, token0.as_slice());
                push_bytes(&mut buf, amount0.as_slice());
                push_zeros(&mut buf, 12);
                push_bytes(&mut buf, token1.as_slice());
                push_bytes(&mut buf, amount1.as_slice());
            },
        }
        buf
    }

    /// Decodes an instruction; truncated input and unknown tags are `InvalidInstruction`.
    pub fn unpack(input: &[u8]) -> (r: Result<UniswapOracleInstruction, ProgramError>)
        ensures
            r is Ok <==> spec_is_instruction(input@),
            r is Ok ==> UniswapOracleInstruction::spec_unpacks_to(input@, r.unwrap()),
            r is Err ==> r == Err::<UniswapOracleInstruction, ProgramError>(
                UniswapOracleError::InvalidInstruction.spec_into(),
            ),
    {
        let invalid = ProgramError::from(UniswapOracleError::InvalidInstruction);
        if input.len() == 0 {
            return Err(invalid);
        }
        let tag = input[0];
        if tag == 0 {
            if input.len() < 75 {
                return Err(invalid);
            }
            Ok(
                UniswapOracleInstruction::Initialize {
                    moebius_program_id: Pubkey::new_from_array(read_32(input, 1)),
                    token0: read_20(input, 33),
                    decimal0: input[53],
                    token1: read_20(input, 54),
                    decimal1: input[74],
                },
            )
        } else if tag == 1 {
            if input.len() < 129 {
                return Err(invalid);
            }
            Ok(
                UniswapOracleInstruction::UpdateState {
                    token0: read_20(input, 13),
                    amount0: read_32(input, 33),
                    token1: read_20(input, 77),
                    amount1: read_32(input, 97),
                },
            )
        } else {
            Err(invalid)
        }
    }
}

/// Every encoded instruction is accepted by the decoder and reads as itself.
pub proof fn lemma_packed_is_instruction(v: UniswapOracleInstruction)
    ensures
        spec_is_instruction(v.spec_pack()),
        UniswapOracleInstruction::spec_unpacks_to(v.spec_pack(), v),
{
    let p = v.spec_pack();
    match v {
        UniswapOracleInstruction::Initialize { moebius_program_id, token0, decimal0, token1, decimal1 } => {
            assert(p.subrange(1, 33) =~= moebius_program_id@);
            assert(p.subrange(33, 53) =~= token0@);
            assert(p.subrange(54, 74) =~= token1@);
        },
        UniswapOracleInstruction::UpdateState { token0, amount0, token1, amount1 } => {
            assert(p.subrange(13, 33) =~= token0@);
            assert(p.subrange(33, 65) =~= amount0@);
            assert(p.subrange(77, 97) =~= token1@);
            assert(p.subrange(97, 129) =~= amount1@);
        },
    }
}

/// An input reads as at most one instruction.
pub proof fn lemma_unpack_unique(input: Seq<u8>, v: UniswapOracleInstruction)
    requires
        UniswapOracleInstruction::spec_unpacks_to(input, v),
    ensures
        forall|w: UniswapOracleInstruction|
            UniswapOracleInstruction::spec_unpacks_to(input, w) ==> w == v,
{
    assert forall|w: UniswapOracleInstruction|
        UniswapOracleInstruction::spec_unpacks_to(input, w) implies w == v by {
        match (v, w) {
            (
                UniswapOracleInstruction::Initialize { moebius_program_id: a0, token0: a1, token1: a2, .. },
                UniswapOracleInstruction::Initialize { moebius_program_id: b0, token0: b1, token1: b2, .. },
            ) => {
                assert(a0.bytes =~= b0.bytes);
                assert(a1 =~= b1);
                assert(a2 =~= b2);
            },
            (
                UniswapOracleInstruction::UpdateState { token0: a1, amount0: a2, token1: a3, amount1: a4 },
                UniswapOracleInstruction::UpdateState { token0: b1, amount0: b2, token1: b3, amount1: b4 },
            ) => {
                assert(a1 =~= b1);
                assert(a2 =~= b2);
                assert(a3 =~= b3);
                assert(a4 =~= b4);
            },
            _ => {},
        }
    }
}

/// Decoding an encoded instruction gives back the instruction that was encoded.
pub proof fn lemma_instruction_round_trip(v: UniswapOracleInstruction, w: UniswapOracleInstruction)
    requires
        UniswapOracleInstruction::spec_unpacks_to(v.spec_pack(), w),
    ensures
        w == v,
{
    lemma_packed_is_instruction(v);
    lemma_unpack_unique(v.spec_pack(), v);
}

/// Builds an `Initialize` instruction for the oracle account of `(token0, token1)`, funded
/// by `payer`.
pub fn initialize(
    program_id: &Pubkey,
    uniswap_oracle_account_id: &Pubkey,
    moebius_program_id: &Pubkey,
    payer: &Pubkey,
    token0: [u8; 20],
    decimal0: u8,
    token1: [u8; 20],
    decimal1: u8,
) -> (r: Result<Instruction, ProgramError>)
    ensures
        r is Ok,
        r.unwrap().program_id == *program_id,
        r.unwrap().data@ == (UniswapOracleInstruction::Initialize {
            moebius_program_id: *moebius_program_id,
            token0,
            decimal0,
            token1,
            decimal1,
        }).spec_pack(),
        r.unwrap().accounts@.len() == 4,
        r.unwrap().accounts@[0] == (AccountMeta { pubkey: *payer, is_signer: true, is_writable: true }),
        r.unwrap().accounts@[1] == (AccountMeta {
            pubkey: *uniswap_oracle_account_id,
            is_signer: false,
            is_writable: true,
        }),
        r.unwrap().accounts@[2].pubkey@ == Seq::new(32, |i: int| 0u8),
        r.unwrap().accounts@[3].pubkey@ == rent_sysvar_bytes(),
        !r.unwrap().accounts@[2].is_signer && !r.unwrap().accounts@[2].is_writable,
        !r.unwrap().accounts@[3].is_signer && !r.unwrap().accounts@[3].is_writable,
{
    let data = UniswapOracleInstruction::Initialize {
        moebius_program_id: *moebius_program_id,
        token0,
        decimal0,
        token1,
        decimal1,
    }.pack();
    let mut accounts: Vec<AccountMeta> = Vec::new();
    accounts.push(AccountMeta::new(*payer, true));
    accounts.push(AccountMeta::new(*uniswap_oracle_account_id, false));
    accounts.push(AccountMeta::new_readonly(system_program_id(), false));
    accounts.push(AccountMeta::new_readonly(rent_sysvar_id(), false));
    Ok(Instruction { program_id: *program_id, accounts, data })
}

/// Builds an `UpdateState` instruction signed by `authority`.
pub fn update_state(
    program_id: &Pubkey,
    uniswap_oracle_account_id: &Pubkey,
    authority: &Pubkey,
    token0: [u8; 20],
    amount0: [u8; 32],
    token1: [u8; 20],
    amount1: [u8; 32],
) -> (r: Result<Instruction, ProgramError>)
    ensures
        r is Ok,
        r.unwrap().program_id == *program_id,
        r.unwrap().data@ == (UniswapOracleInstruction::UpdateState {
            token0,
            amount0,
            token1,
            amount1,
        }).spec_pack(),
        r.unwrap().accounts@ == seq![
            AccountMeta { pubkey: *authority, is_signer: true, is_writable: true },
            AccountMeta { pubkey: *uniswap_oracle_account_id, is_signer: false, is_writable: true },
        ],
{
    let data = UniswapOracleInstruction::UpdateState { token0, amount0, token1, amount1 }.pack();
    let mut accounts: Vec<AccountMeta> = Vec::new();
    accounts.push(AccountMeta::new(*authority, true));
    accounts.push(AccountMeta::new(*uniswap_oracle_account_id, false));
    assert(accounts@ =~= seq![
        AccountMeta { pubkey: *authority, is_signer: true, is_writable: true },
        AccountMeta { pubkey: *uniswap_oracle_account_id, is_signer: false, is_writable: true },
    ]);
    Ok(Instruction { program_id: *program_id, accounts, data })
}

} // verus!
