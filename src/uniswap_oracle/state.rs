//! The oracle's persisted state record, one per token pair.

use vstd::prelude::*;
use crate::account::ProgramError;
use crate::codec::{flag_byte, push_bytes, read_20, read_32, write_prefix};
use crate::pubkey::Pubkey;

verus! {

/// The reserves of one token pair.
#[derive(Clone, Copy, Debug, PartialEq)]
pub struct UniswapOracle {
    /// Is `true` if this structure has been initialized.
    pub is_initialized: bool,
    /// Authority that can update the reserves.
    pub authority: Pubkey,
    /// Address of the first token in the pair.
    pub token0: [u8; 20],
    /// Decimals of the first token.
    pub decimal0: u8,
    /// Amount of token0 such that amount0 * price0 = amount1 * price1, big-endian.
    pub amount0: [u8; 32],
    /// Address of the second token in the pair.
    pub token1: [u8; 20],
    /// Decimals of the second token.
    pub decimal1: u8,
    /// Amount of token1 such that amount1 * price1 = amount0 * price0, big-endian.
    pub amount1: [u8; 32],
}

impl UniswapOracle {
    /// Length of the stored record.
    pub const LEN: usize = 139;

    /// The stored record: the flag byte, the authority, then the fields in order, with
    /// addresses stored raw in 20 bytes.
    pub open spec fn spec_pack(self) -> Seq<u8> {
        seq![flag_byte(self.is_initialized)] + self.authority@ + self.token0@ + seq![self.decimal0]
            + self.amount0@ + self.token1@ + seq![self.decimal1] + self.amount1@
    }

    /// `s` is what the record `bytes` reads as.
    pub open spec fn spec_unpacks_to(bytes: Seq<u8>, s: UniswapOracle) -> bool {
        &&& bytes.len() == 139
        &&& s.is_initialized == (bytes[0] == 1)
        &&& s.authority@ == bytes.subrange(1, 33)
        &&& s.token0@ == bytes.subrange(33, 53)
        &&& s.decimal0 == bytes[53]
        &&& s.amount0@ == bytes.subrange(54, 86)
        &&& s.token1@ == bytes.subrange(86, 106)
        &&& s.decimal1 == bytes[106]
        &&& s.amount1@ == bytes.subrange(107, 139)
    }

    pub fn is_initialized(&self) -> (r: bool)
        ensures
            r == self.is_initialized,
    {
        self.is_initialized
    }

    /// Reads a record from the first `LEN` bytes of `src`.
    pub fn unpack_from_slice(src: &[u8]) -> (r: UniswapOracle)
        requires
            src@.len() >= 139,
        ensures
            UniswapOracle::spec_unpacks_to(src@.subrange(0, 139), r),
    {
        let r = UniswapOracle {
            is_initialized: src[0] == 1,
            authority: Pubkey::new_from_array(read_32(src, 1)),
            token0: read_20(src, 33),
            decimal0: src[53],
            amount0: read_32(src, 54),
            token1: read_20(src, 86),
            decimal1: src[106],
            amount1: read_32(src, 107),
        };
        let ghost b = src@.subrange(0, 139);
        assert(b.subrange(1, 33) =~= src@.subrange(1, 33));
        assert(b.subrange(33, 53) =~= src@.subrange(33, 53));
        assert(b.subrange(54, 86) =~= src@.subrange(54, 86));
        assert(b.subrange(86, 106) =~= src@.subrange(86, 106));
        assert(b.subrange(107, 139) =~= src@.subrange(107, 139));
        r
    }

    /// The record as a fresh `LEN`-byte vector.
    pub fn to_vec(&self) -> (r: Vec<u8>)
        ensures
            r@ == self.spec_pack(),
    {
        let mut buf: Vec<u8> = Vec::new();
        buf.push(if self.is_initialized { 1u8 } else { 0u8 });
        push_bytes(&mut buf, self.authority.bytes.as_slice());
        push_bytes(&mut buf, self.token0.as_slice());
        buf.push(self.decimal0);
        push_bytes(&mut buf, self.amount0.as_slice());
        push_bytes(&mut buf, self.token1.as_slice());
        buf.push(self.decimal1);
        push_bytes(&mut buf, self.amount1.as_slice());
        buf
    }

    /// Writes the record into the first `LEN` bytes of `dst`.
    pub fn pack_into_slice(&self, dst: &mut [u8])
        requires
            old(dst)@.len() >= 139,
        ensures
            final(dst)@ == self.spec_pack() + old(dst)@.subrange(139, old(dst)@.len() as int),
    {
        let packed = self.to_vec();
        write_prefix(dst, packed.as_slice());
    }

    /// Reads a record whose length must be exactly `LEN`; the flag is not checked.
    pub fn unpack_unchecked(input: &[u8]) -> (r: Result<UniswapOracle, ProgramError>)
        ensures
            input@.len() != 139 ==> r == Err::<UniswapOracle, ProgramError>(ProgramError::InvalidAccountData),
            input@.len() == 139 ==> r is Ok && UniswapOracle::spec_unpacks_to(input@, r.unwrap()),
    {
        if input.len() != Self::LEN {
            return Err(ProgramError::InvalidAccountData);
        }
        let r = Self::unpack_from_slice(input);
        assert(input@.subrange(0, 139) == input@);
        Ok(r)
    }

    /// Reads an initialized record whose length must be exactly `LEN`.
    pub fn unpack(input: &[u8]) -> (r: Result<UniswapOracle, ProgramError>)
        ensures
            input@.len() != 139 ==> r == Err::<UniswapOracle, ProgramError>(ProgramError::InvalidAccountData),
            input@.len() == 139 && input@[0] != 1 ==> r == Err::<UniswapOracle, ProgramError>(
                ProgramError::UninitializedAccount,
            ),
            input@.len() == 139 && input@[0] == 1 ==> r is Ok && UniswapOracle::spec_unpacks_to(
                input@,
                r.unwrap(),
            ),
    {
        let s = match Self::unpack_unchecked(input) {
            Ok(s) => s,
            Err(e) => return Err(e),
        };
        if !s.is_initialized {
            return Err(ProgramError::UninitializedAccount);
        }
        Ok(s)
    }

    /// Writes `src` into `dst`, whose length must be exactly `LEN`.
    pub fn pack(src: UniswapOracle, dst: &mut [u8]) -> (r: Result<(), ProgramError>)
        ensures
            old(dst)@.len() != 139 ==> r == Err::<(), ProgramError>(ProgramError::InvalidAccountData)
                && final(dst)@ == old(dst)@,
            old(dst)@.len() == 139 ==> r is Ok && final(dst)@ == src.spec_pack(),
    {
        if dst.len() != Self::LEN {
            return Err(ProgramError::InvalidAccountData);
        }
        src.pack_into_slice(dst);
        assert(final(dst)@ =~= src.spec_pack());
        Ok(())
    }
}

/// Every packed record reads back as the record that was packed.
pub proof fn lemma_packed_is_readable(s: UniswapOracle)
    ensures
        UniswapOracle::spec_unpacks_to(s.spec_pack(), s),
{
    let p = s.spec_pack();
    assert(p.subrange(1, 33) =~= s.authority@);
    assert(p.subrange(33, 53) =~= s.token0@);
    assert(p.subrange(54, 86) =~= s.amount0@);
    assert(p.subrange(86, 106) =~= s.token1@);
    assert(p.subrange(107, 139) =~= s.amount1@);
}

/// Reading back a packed record gives the record that was packed.
pub proof fn lemma_pack_round_trip(s: UniswapOracle, t: UniswapOracle)
    requires
        UniswapOracle::spec_unpacks_to(s.spec_pack(), t),
    ensures
        t == s,
{
    lemma_packed_is_readable(s);
    assert(t.authority.bytes =~= s.authority.bytes);
    assert(t.token0 =~= s.token0);
    assert(t.amount0 =~= s.amount0);
    assert(t.token1 =~= s.token1);
    assert(t.amount1 =~= s.amount1);
}

} // verus!
