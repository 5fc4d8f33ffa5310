//! The bridge's persisted state record.

use vstd::prelude::*;
use crate::account::ProgramError;
use crate::codec::{flag_byte, read_32};
use crate::pubkey::Pubkey;

verus! {

/// The bridge's state: whether it is initialized, and the authority that may relay data.
#[derive(Clone, Copy, Debug, PartialEq)]
pub struct Moebius {
    /// Is `true` if this structure has been initialized.
    pub is_initialized: bool,
    /// Authority that can submit data over the bridge.
    pub authority: Pubkey,
}

impl Moebius {
    /// Length of the stored record.
    pub const LEN: usize = 33;

    /// The stored record: the flag byte, then the authority.
    pub open spec fn spec_pack(self) -> Seq<u8> {
        seq![flag_byte(self.is_initialized)] + self.authority@
    }

    /// `s` is what a record of `LEN` bytes, `bytes`, reads as.
    pub open spec fn spec_unpacks_to(bytes: Seq<u8>, s: Moebius) -> bool {
        &&& bytes.len() == 33
        &&& s.is_initialized == (bytes[0] == 1)
        &&& s.authority@ == bytes.subrange(1, 33)
    }

    pub fn is_initialized(&self) -> (r: bool)
        ensures
            r == self.is_initialized,
    {
        self.is_initialized
    }

    /// Reads a record from the first `LEN` bytes of `src`.
    pub fn unpack_from_slice(src: &[u8]) -> (r: Moebius)
        requires
            src@.len() >= 33,
        ensures
            Moebius::spec_unpacks_to(src@.subrange(0, 33), r),
    {
        let is_initialized = src[0] == 1;
        let authority = Pubkey::new_from_array(read_32(src, 1));
        assert(src@.subrange(0, 33).subrange(1, 33) =~= src@.subrange(1, 33));
        Moebius { is_initialized, authority }
    }

    /// Writes the record into the first `LEN` bytes of `dst`.
    pub fn pack_into_slice(&self, dst: &mut [u8])
        requires
            old(dst)@.len() >= 33,
        ensures
            final(dst)@ == self.spec_pack() + old(dst)@.subrange(33, old(dst)@.len() as int),
    {
        dst[0] = if self.is_initialized { 1u8 } else { 0u8 };
        let mut i: usize = 0;
        while i < 32
            invariant
                dst@.len() == old(dst)@.len(),
                dst@.len() >= 33,
                0 <= i <= 32,
                dst@[0] == flag_byte(self.is_initialized),
                forall|j: int| 0 <= j < i ==> dst@[1 + j] == self.authority@[j],
                forall|j: int| 33 <= j < dst@.len() ==> dst@[j] == old(dst)@[j],
            decreases 32 - i,
        {
            dst[1 + i] = self.authority.bytes[i];
            i = i + 1;
        }
        assert(dst@ =~= self.spec_pack() + old(dst)@.subrange(33, old(dst)@.len() as int));
    }

    /// The record as a fresh `LEN`-byte vector.
    pub fn to_vec(&self) -> (r: Vec<u8>)
        ensures
            r@ == self.spec_pack(),
    {
        let mut buf: Vec<u8> = Vec::new();
        buf.push(if self.is_initialized { 1u8 } else { 0u8 });
        crate::codec::push_bytes(&mut buf, self.authority.bytes.as_slice());
        buf
    }

    /// Reads a record whose length must be exactly `LEN`; the flag is not checked.
    pub fn unpack_unchecked(input: &[u8]) -> (r: Result<Moebius, ProgramError>)
        ensures
            input@.len() != 33 ==> r == Err::<Moebius, ProgramError>(ProgramError::InvalidAccountData),
            input@.len() == 33 ==> r is Ok && Moebius::spec_unpacks_to(input@, r.unwrap()),
    {
        if input.len() != Self::LEN {
            return Err(ProgramError::InvalidAccountData);
        }
        let r = Self::unpack_from_slice(input);
        assert(input@.subrange(0, 33) == input@);
        Ok(r)
    }

    /// Reads an initialized record whose length must be exactly `LEN`.
    pub fn unpack(input: &[u8]) -> (r: Result<Moebius, ProgramError>)
        ensures
            input@.len() != 33 ==> r == Err::<Moebius, ProgramError>(ProgramError::InvalidAccountData),
            input@.len() == 33 && input@[0] != 1 ==> r == Err::<Moebius, ProgramError>(
                ProgramError::UninitializedAccount,
            ),
            input@.len() == 33 && input@[0] == 1 ==> r is Ok && Moebius::spec_unpacks_to(input@, r.unwrap()),
    {
        let s = match Self::unpack_unchecked(input) {
            Ok(s) => s,
            Err(e) => return Err(e),
        };
        if !s.is_initialized {
            return Err(ProgramError::UninitializedAccount);
        }
        Ok(s)
    }

    /// Writes `src` into `dst`, whose length must be exactly `LEN`.
    pub fn pack(src: Moebius, dst: &mut [u8]) -> (r: Result<(), ProgramError>)
        ensures
            old(dst)@.len() != 33 ==> r == Err::<(), ProgramError>(ProgramError::InvalidAccountData)
                && final(dst)@ == old(dst)@,
            old(dst)@.len() == 33 ==> r is Ok && final(dst)@ == src.spec_pack(),
    {
        if dst.len() != Self::LEN {
            return Err(ProgramError::InvalidAccountData);
        }
        src.pack_into_slice(dst);
        assert(final(dst)@ =~= src.spec_pack());
        Ok(())
    }
}

/// Reading back a packed record gives the record that was packed.
pub proof fn lemma_pack_round_trip(s: Moebius, t: Moebius)
    requires
        Moebius::spec_unpacks_to(s.spec_pack(), t),
    ensures
        t == s,
{
    assert(s.spec_pack().subrange(1, 33) =~= s.authority@);
    assert(t.authority.bytes =~= s.authority.bytes);
}

/// Every packed record reads back as some record.
pub proof fn lemma_packed_is_readable(s: Moebius)
    ensures
        Moebius::spec_unpacks_to(s.spec_pack(), s),
{
    assert(s.spec_pack().subrange(1, 33) =~= s.authority@);
}

} // verus!
