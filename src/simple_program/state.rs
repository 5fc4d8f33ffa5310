//! The simple program's persisted state record.

use vstd::prelude::*;
use crate::account::ProgramError;
use crate::codec::{flag_byte, push_bytes, read_20, read_32, write_prefix};
use crate::pubkey::Pubkey;

verus! {

/// The simple program's state.
#[derive(Clone, Copy, Debug, PartialEq)]
pub struct SimpleProgram {
    /// Is `true` if this structure has been initialized.
    pub is_initialized: bool,
    /// Authority that can update the data.
    pub authority: Pubkey,
    /// A 32-byte value from the source chain.
    pub val_bytes32: [u8; 32],
    /// An address value from the source chain.
    pub val_address: [u8; 20],
    /// A 256-bit word from the source chain.
    pub val_uint256: [u8; 32],
}

impl SimpleProgram {
    /// Length of the stored record.
    pub const LEN: usize = 117;

    /// The stored record: the flag byte, the authority, then the fields in order.
    pub open spec fn spec_pack(self) -> Seq<u8> {
        seq![flag_byte(self.is_initialized)] + self.authority@ + self.val_bytes32@ + self.val_address@
            + self.val_uint256@
    }

    /// `s` is what the record `bytes` reads as.
    pub open spec fn spec_unpacks_to(bytes: Seq<u8>, s: SimpleProgram) -> bool {
        &&& bytes.len() == 117
        &&& s.is_initialized == (bytes[0] == 1)
        &&& s.authority@ == bytes.subrange(1, 33)
        &&& s.val_bytes32@ == bytes.subrange(33, 65)
        &&& s.val_address@ == bytes.subrange(65, 85)
        &&& s.val_uint256@ == bytes.subrange(85, 117)
    }

    pub fn is_initialized(&self) -> (r: bool)
        ensures
            r == self.is_initialized,
    {
        self.is_initialized
    }

    /// Reads a record from the first `LEN` bytes of `src`.
    pub fn unpack_from_slice(src: &[u8]) -> (r: SimpleProgram)
        requires
            src@.len() >= 117,
        ensures
            SimpleProgram::spec_unpacks_to(src@.subrange(0, 117), r),
    {
        let r = SimpleProgram {
            is_initialized: src[0] == 1,
            authority: Pubkey::new_from_array(read_32(src, 1)),
            val_bytes32: read_32(src, 33),
            val_address: read_20(src, 65),
            val_uint256: read_32(src, 85),
        };
        let ghost b = src@.subrange(0, 117);
        assert(b.subrange(1, 33) =~= src@.subrange(1, 33));
        assert(b.subrange(33, 65) =~= src@.subrange(33, 65));
        assert(b.subrange(65, 85) =~= src@.subrange(65, 85));
        assert(b.subrange(85, 117) =~= src@.subrange(85, 117));
        r
    }

    /// The record as a fresh `LEN`-byte vector.
    pub fn to_vec(&self) -> (r: Vec<u8>)
        ensures
            r@ == self.spec_pack(),
    {
        let mut buf: Vec<u8> = Vec::new();
        buf.push(if self.is_initialized { 1u8 } else { 0u8 });
        push_bytes(&mut buf, self.authority.bytes.as_slice());
        push_bytes(&mut buf, self.val_bytes32.as_slice());
        push_bytes(&mut buf, self.val_address.as_slice());
        push_bytes(&mut buf, self.val_uint256.as_slice());
        buf
    }

    /// Writes the record into the first `LEN` bytes of `dst`.
    pub fn pack_into_slice(&self, dst: &mut [u8])
        requires
            old(dst)@.len() >= 117,
        ensures
            final(dst)@ == self.spec_pack() + old(dst)@.subrange(117, old(dst)@.len() as int),
    {
        let packed = self.to_vec();
        write_prefix(dst, packed.as_slice());
    }

    /// Reads a record whose length must be exactly `LEN`; the flag is not checked.
    pub fn unpack_unchecked(input: &[u8]) -> (r: Result<SimpleProgram, ProgramError>)
        ensures
            input@.len() != 117 ==> r == Err::<SimpleProgram, ProgramError>(ProgramError::InvalidAccountData),
            input@.len() == 117 ==> r is Ok && SimpleProgram::spec_unpacks_to(input@, r.unwrap()),
    {
        if input.len() != Self::LEN {
            return Err(ProgramError::InvalidAccountData);
        }
        let r = Self::unpack_from_slice(input);
        assert(input@.subrange(0, 117) == input@);
        Ok(r)
    }

    /// Reads an initialized record whose length must be exactly `LEN`.
    pub fn unpack(input: &[u8]) -> (r: Result<SimpleProgram, ProgramError>)
        ensures
            input@.len() != 117 ==> r == Err::<SimpleProgram, ProgramError>(ProgramError::InvalidAccountData),
            input@.len() == 117 && input@[0] != 1 ==> r == Err::<SimpleProgram, ProgramError>(
                ProgramError::UninitializedAccount,
            ),
            input@.len() == 117 && input@[0] == 1 ==> r is Ok && SimpleProgram::spec_unpacks_to(
                input@,
                r.unwrap(),
            ),
    {
        let s = match Self::unpack_unchecked(input) {
            Ok(s) => s,
            Err(e) => return Err(e),
        };
        if !s.is_initialized {
            return Err(ProgramError::UninitializedAccount);
        }
        Ok(s)
    }

    /// Writes `src` into `dst`, whose length must be exactly `LEN`.
    pub fn pack(src: SimpleProgram, dst: &mut [u8]) -> (r: Result<(), ProgramError>)
        ensures
            old(dst)@.len() != 117 ==> r == Err::<(), ProgramError>(ProgramError::InvalidAccountData)
                && final(dst)@ == old(dst)@,
            old(dst)@.len() == 117 ==> r is Ok && final(dst)@ == src.spec_pack(),
    {
        if dst.len() != Self::LEN {
            return Err(ProgramError::InvalidAccountData);
        }
        src.pack_into_slice(dst);
        assert(final(dst)@ =~= src.spec_pack());
        Ok(())
    }
}

/// Reading back a packed record gives the record that was packed.
pub proof fn lemma_pack_round_trip(s: SimpleProgram, t: SimpleProgram)
    requires
        SimpleProgram::spec_unpacks_to(s.spec_pack(), t),
    ensures
        t == s,
{
    let p = s.spec_pack();
    assert(p.subrange(1, 33) =~= s.authority@);
    assert(p.subrange(33, 65) =~= s.val_bytes32@);
    assert(p.subrange(65, 85) =~= s.val_address@);
    assert(p.subrange(85, 117) =~= s.val_uint256@);
    assert(t.authority.bytes =~= s.authority.bytes);
    assert(t.val_bytes32 =~= s.val_bytes32);
    assert(t.val_address =~= s.val_address);
    assert(t.val_uint256 =~= s.val_uint256);
}

/// Every packed record reads back as the record that was packed.
pub proof fn lemma_packed_is_readable(s: SimpleProgram)
    ensures
        SimpleProgram::spec_unpacks_to(s.spec_pack(), s),
{
    let p = s.spec_pack();
    assert(p.subrange(1, 33) =~= s.authority@);
    assert(p.subrange(33, 65) =~= s.val_bytes32@);
    assert(p.subrange(65, 85) =~= s.val_address@);
    assert(p.subrange(85, 117) =~= s.val_uint256@);
}

} // verus!
