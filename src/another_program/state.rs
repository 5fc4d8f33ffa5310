//! The program's state record: the common header, then `id` (bytes32),
//! `token` (address, stored raw) and `amount` (uint256).

use vstd::prelude::*;
use crate::account::ProgramError;
use crate::codec::{flag_byte, push_bytes, read_20, read_32, write_prefix};
use crate::pubkey::Pubkey;

verus! {

/// The program's state.
#[derive(Clone, Copy, Debug, PartialEq)]
pub struct AnotherState {
    /// Is `true` if this structure has been initialized.
    pub is_initialized: bool,
    /// Authority that can update the state.
    pub authority: Pubkey,
    pub id: [u8; 32],
    pub token: [u8; 20],
    pub amount: [u8; 32],
}

impl AnotherState {
    /// Length of the stored record.
    pub const LEN: usize = 117;

    /// The stored record: the flag byte, the authority, then the fields in order.
    pub open spec fn spec_pack(self) -> Seq<u8> {
        seq![flag_byte(self.is_initialized)] + self.authority@ + self.id@ + self.token@ + self.amount@
    }

    /// `s` is what the record `bytes` reads as.
    pub open spec fn spec_unpacks_to(bytes: Seq<u8>, s: AnotherState) -> bool {
        &&& bytes.len() == 117
        &&& s.is_initialized == (bytes[0] == 1)
        &&& s.authority@ == bytes.subrange(1, 33)
        &&& s.id@ == bytes.subrange(33, 65)
        &&& s.token@ == bytes.subrange(65, 85)
        &&& s.amount@ == bytes.subrange(85, 117)
    }

    pub fn is_initialized(&self) -> (r: bool)
        ensures
            r == self.is_initialized,
    {
        self.is_initialized
    }

    /// Reads a record from the first `LEN` bytes of `src`.
    pub fn unpack_from_slice(src: &[u8]) -> (r: AnotherState)
        requires
            src@.len() >= 117,
        ensures
            AnotherState::spec_unpacks_to(src@.subrange(0, 117), r),
    {
        let r = AnotherState {
            is_initialized: src[0] == 1,
            authority: Pubkey::new_from_array(read_32(src, 1)),
            id: read_32(src, 33),
            token: read_20(src, 65),
            amount: read_32(src, 85),
        };
        let ghost b = src@.subrange(0, 117);
        assert(b.subrange(1, 33) =~= src@.subrange(1, 33));
        assert(b.subrange(33, 65) =~= src@.subrange(33, 65));
        assert(b.subrange(65, 85) =~= src@.subrange(65, 85));
        assert(b.subrange(85, 117) =~= src@.subrange(85, 117));
        r
    }

    /// The record as a fresh `LEN`-byte vector.
    pub fn to_vec(&self) -> (r: Vec<u8>)
        ensures
            r@ == self.spec_pack(),
    {
        let mut buf: Vec<u8> = Vec::new();
        buf.push(if self.is_initialized { 1u8 } else { 0u8 });
        push_bytes(&mut buf, self.authority.bytes.as_slice());
        push_bytes(&mut buf, self.id.as_slice());
        push_bytes(&mut buf, self.token.as_slice());
        push_bytes(&mut buf, self.amount.as_slice());
        buf
    }

    /// Writes the record into the first `LEN` bytes of `dst`.
    pub fn pack_into_slice(&self, dst: &mut [u8])
        requires
            old(dst)@.len() >= 117,
        ensures
            final(dst)@ == self.spec_pack() + old(dst)@.subrange(117, old(dst)@.len() as int),
    {
        let packed = self.to_vec();
        write_prefix(dst, packed.as_slice());
    }

    /// Reads a record whose length must be exactly `LEN`; the flag is not checked.
    pub fn unpack_unchecked(input: &[u8]) -> (r: Result<AnotherState, ProgramError>)
        ensures
            input@.len() != 117 ==> r == Err::<AnotherState, ProgramError>(ProgramError::InvalidAccountData),
            input@.len() == 117 ==> r is Ok && AnotherState::spec_unpacks_to(input@, r.unwrap()),
    {
        if input.len() != Self::LEN {
            return Err(ProgramError::InvalidAccountData);
        }
        let r = Self::unpack_from_slice(input);
        assert(input@.subrange(0, 117) == input@);
        Ok(r)
    }
}

/// Reading back a packed record gives the record that was packed.
pub proof fn lemma_pack_round_trip(s: AnotherState, t: AnotherState)
    requires
        AnotherState::spec_unpacks_to(s.spec_pack(), t),
    ensures
        t == s,
{
    let p = s.spec_pack();
    assert(p.subrange(1, 33) =~= s.authority@);
    assert(p.subrange(33, 65) =~= s.id@);
    assert(p.subrange(65, 85) =~= s.token@);
    assert(p.subrange(85, 117) =~= s.amount@);
    assert(t.authority.bytes =~= s.authority.bytes);
    assert(t.id =~= s.id);
    assert(t.token =~= s.token);
    assert(t.amount =~= s.amount);
}

/// Every packed record reads back as the record that was packed.
pub proof fn lemma_packed_is_readable(s: AnotherState)
    ensures
        AnotherState::spec_unpacks_to(s.spec_pack(), s),
{
    let p = s.spec_pack();
    assert(p.subrange(1, 33) =~= s.authority@);
    assert(p.subrange(33, 65) =~= s.id@);
    assert(p.subrange(65, 85) =~= s.token@);
    assert(p.subrange(85, 117) =~= s.amount@);
}

} // verus!
