//! The ledger's view of accounts, instructions and program errors, as programs receive them.

use vstd::prelude::*;
use vstd::bytes::{spec_u64_from_le_bytes, u64_from_le_bytes};
use crate::pubkey::Pubkey;

verus! {

/// An account handed to a program for one instruction.
#[derive(Clone, Debug)]
pub struct AccountInfo {
    pub key: Pubkey,
    pub is_signer: bool,
    pub is_writable: bool,
    pub lamports: u64,
    pub data: Vec<u8>,
    pub owner: Pubkey,
    pub executable: bool,
}

/// An account named by an instruction, with the access it asks for.
#[derive(Clone, Copy, Debug)]
pub struct AccountMeta {
    pub pubkey: Pubkey,
    pub is_signer: bool,
    pub is_writable: bool,
}

impl AccountMeta {
    /// A writable account.
    pub fn new(pubkey: Pubkey, is_signer: bool) -> (r: AccountMeta)
        ensures
            r.pubkey == pubkey,
            r.is_signer == is_signer,
            r.is_writable,
    {
        AccountMeta { pubkey, is_signer, is_writable: true }
    }

    /// A read-only account.
    pub fn new_readonly(pubkey: Pubkey, is_signer: bool) -> (r: AccountMeta)
        ensures
            r.pubkey == pubkey,
            r.is_signer == is_signer,
            !r.is_writable,
    {
        AccountMeta { pubkey, is_signer, is_writable: false }
    }
}

/// An instruction addressed to a program: its accounts in order and its opaque payload.
#[derive(Debug)]
pub struct Instruction {
    pub program_id: Pubkey,
    pub accounts: Vec<AccountMeta>,
    pub data: Vec<u8>,
}

/// The errors a program reports to the ledger.
#[derive(Clone, Copy, Debug, PartialEq, Eq, Structural)]
pub enum ProgramError {
    /// A program-specific error code.
    Custom(u32),
    /// An account's data has the wrong length.
    InvalidAccountData,
    /// An account's state is not initialized.
    UninitializedAccount,
    /// An account is not the one the instruction needs in its place.
    InvalidArgument,
    /// Fewer accounts than the instruction needs.
    NotEnoughAccountKeys,
    /// A required signature is missing.
    MissingRequiredSignature,
    /// No program address can be derived from the seeds.
    InvalidSeeds,
}

/// The rent-exemption parameters of the ledger, as held by its rent sysvar account.
#[derive(Clone, Copy, Debug)]
pub struct Rent {
    /// Rental rate in lamports per byte.
    pub lamports_per_byte: u64,
    /// The exemption threshold: the bits of a float, as the sysvar stores them.
    pub exemption_threshold: u64,
}

/// The least balance that keeps an account of `data_len` bytes exempt under a threshold
/// other than `1.0` and `2.0`, which the ledger computes in floating point.
pub uninterp spec fn rent_minimum_of(lamports_per_byte: u64, exemption_threshold: u64, data_len: nat) -> Option<u64>;

/// Longest account data the ledger permits: 10 MiB.
pub const MAX_PERMITTED_DATA_LENGTH: u64 = 10485760;

/// Bytes the ledger charges for on top of an account's data.
pub const ACCOUNT_STORAGE_OVERHEAD: u64 = 128;

/// The bits of the threshold `1.0`, for which the ledger bounds the rate itself.
pub const THRESHOLD_ONE_BITS: u64 = 0x3ff0000000000000;

/// The bits of the threshold `2.0`, for which the ledger bounds the rate itself.
pub const THRESHOLD_TWO_BITS: u64 = 0x4000000000000000;

/// The ledger's minimum-balance computation finishes without overflow: the length is past
/// the limit (no minimum), the threshold is one the ledger bounds the rate for, or the
/// product of the charged bytes and the rate fits in 64 bits.
pub open spec fn rent_computable(lamports_per_byte: u64, exemption_threshold: u64, data_len: nat) -> bool {
    ||| data_len > MAX_PERMITTED_DATA_LENGTH
    ||| exemption_threshold == THRESHOLD_ONE_BITS
    ||| exemption_threshold == THRESHOLD_TWO_BITS
    ||| (ACCOUNT_STORAGE_OVERHEAD + data_len) * lamports_per_byte <= u64::MAX
}

/// The highest rate the ledger accepts with the threshold `1.0`.
pub const MAX_RATE_THRESHOLD_ONE: u64 = 1_759_197_129_867;

/// The highest rate the ledger accepts with the threshold `2.0`.
pub const MAX_RATE_THRESHOLD_TWO: u64 = 879_598_564_933;

/// The ledger's minimum balance for `data_len` bytes: none past the longest permitted
/// data; for the thresholds `1.0` and `2.0`, none above their highest rate and otherwise
/// once or twice the charged bytes times the rate; for any other threshold, as the ledger
/// computes it in floating point.
pub open spec fn rent_minimum(lamports_per_byte: u64, exemption_threshold: u64, data_len: nat) -> Option<u64> {
    if data_len > MAX_PERMITTED_DATA_LENGTH {
        None
    } else if exemption_threshold == THRESHOLD_ONE_BITS {
        if lamports_per_byte > MAX_RATE_THRESHOLD_ONE {
            None
        } else {
            Some(((ACCOUNT_STORAGE_OVERHEAD + data_len) * lamports_per_byte) as u64)
        }
    } else if exemption_threshold == THRESHOLD_TWO_BITS {
        if lamports_per_byte > MAX_RATE_THRESHOLD_TWO {
            None
        } else {
            Some((2 * (ACCOUNT_STORAGE_OVERHEAD + data_len) * lamports_per_byte) as u64)
        }
    } else {
        rent_minimum_of(lamports_per_byte, exemption_threshold, data_len)
    }
}

/// Length of the rent sysvar's record: the rate, the threshold and a retired percentage.
pub const RENT_SYSVAR_LEN: usize = 17;

/// The rent parameters that the rent sysvar account `account` holds: both fields are
/// little-endian, the rate first.
pub open spec fn spec_read_rent(account: AccountInfo) -> Result<Rent, ProgramError> {
    if account.key@ != rent_sysvar_bytes() {
        Err(ProgramError::InvalidArgument)
    } else if account.data@.len() < RENT_SYSVAR_LEN {
        Err(ProgramError::InvalidAccountData)
    } else {
        Ok(
            Rent {
                lamports_per_byte: spec_u64_from_le_bytes(account.data@.subrange(0, 8)),
                exemption_threshold: spec_u64_from_le_bytes(account.data@.subrange(8, 16)),
            },
        )
    }
}

impl Rent {
    /// The minimum for `data_len` bytes; `None` where the ledger's computation would
    /// overflow, and otherwise as the ledger computes it.
    pub open spec fn spec_minimum_balance(&self, data_len: nat) -> Option<u64> {
        if rent_computable(self.lamports_per_byte, self.exemption_threshold, data_len) {
            rent_minimum(self.lamports_per_byte, self.exemption_threshold, data_len)
        } else {
            None
        }
    }

    /// An account is exempt when its balance reaches the minimum for its size.
    pub open spec fn spec_is_exempt(&self, balance: u64, data_len: nat) -> bool {
        match self.spec_minimum_balance(data_len) {
            Some(minimum) => balance >= minimum,
            None => false,
        }
    }

    /// Reads the parameters from the rent sysvar account.
    pub fn from_account(account: &AccountInfo) -> (r: Result<Rent, ProgramError>)
        ensures
            r == spec_read_rent(*account),
    {
        if !(account.key == rent_sysvar_id()) {
            return Err(ProgramError::InvalidArgument);
        }
        if account.data.len() < RENT_SYSVAR_LEN {
            return Err(ProgramError::InvalidAccountData);
        }
        let data = account.data.as_slice();
        let (rate, rest) = data.split_at(8);
        let (threshold, _) = rest.split_at(8);
        assert(rate@ == account.data@.subrange(0, 8));
        assert(threshold@ == account.data@.subrange(8, 16));
        Ok(Rent { lamports_per_byte: u64_from_le_bytes(rate), exemption_threshold: u64_from_le_bytes(threshold) })
    }

    /// Relies on `solana_program::rent::Rent::try_minimum_balance`, which computes the
    /// minimum from the rate, the threshold and the length alone, in integers for the
    /// thresholds `1.0` and `2.0`. It multiplies the charged
    /// bytes by the rate unchecked for thresholds other than `1.0` and `2.0`, hence the
    /// precondition.
    #[verifier::external_body]
    #[allow(deprecated)]
    fn try_minimum_balance(&self, data_len: usize) -> (r: Option<u64>)
        requires
            rent_computable(self.lamports_per_byte, self.exemption_threshold, data_len as nat),
        ensures
            r == rent_minimum(self.lamports_per_byte, self.exemption_threshold, data_len as nat),
            data_len <= MAX_PERMITTED_DATA_LENGTH && self.exemption_threshold != THRESHOLD_ONE_BITS
                && self.exemption_threshold != THRESHOLD_TWO_BITS ==> r == rent_minimum_of(
                self.lamports_per_byte,
                self.exemption_threshold,
                data_len as nat,
            ),
    {
        let mut rent = solana_program::rent::Rent::with_lamports_per_byte(self.lamports_per_byte);
        rent.exemption_threshold = self.exemption_threshold.to_le_bytes();
        rent.try_minimum_balance(data_len)
    }

    /// The least balance that keeps an account of `data_len` bytes exempt from rent.
    pub fn minimum_balance(&self, data_len: usize) -> (r: Option<u64>)
        ensures
            r == self.spec_minimum_balance(data_len as nat),
    {
        if !self.computable(data_len) {
            return None;
        }
        self.try_minimum_balance(data_len)
    }

    /// Whether the ledger's minimum-balance computation finishes for `data_len` bytes.
    fn computable(&self, data_len: usize) -> (r: bool)
        ensures
            r == rent_computable(self.lamports_per_byte, self.exemption_threshold, data_len as nat),
    {
        let len = data_len as u64;
        if len > MAX_PERMITTED_DATA_LENGTH || self.exemption_threshold == THRESHOLD_ONE_BITS
            || self.exemption_threshold == THRESHOLD_TWO_BITS {
            return true;
        }
        (ACCOUNT_STORAGE_OVERHEAD + len).checked_mul(self.lamports_per_byte).is_some()
    }

    /// Whether `balance` keeps an account of `data_len` bytes exempt from rent.
    pub fn is_exempt(&self, balance: u64, data_len: usize) -> (r: bool)
        ensures
            r == self.spec_is_exempt(balance, data_len as nat),
    {
        match self.minimum_balance(data_len) {
            Some(minimum) => balance >= minimum,
            None => false,
        }
    }
}

/// Replaces the data of account `i`, keeping everything else.
pub fn set_account_data(accounts: &mut Vec<AccountInfo>, i: usize, data: Vec<u8>)
    requires
        i < old(accounts)@.len(),
    ensures
        final(accounts)@.len() == old(accounts)@.len(),
        final(accounts)@[i as int].data@ == data@,
        same_but_data(final(accounts)@[i as int], old(accounts)@[i as int]),
        forall|j: int| 0 <= j < old(accounts)@.len() && j != i ==> final(accounts)@[j] == old(accounts)@[j],
{
    let old_account = &accounts[i];
    let account = AccountInfo {
        key: old_account.key,
        is_signer: old_account.is_signer,
        is_writable: old_account.is_writable,
        lamports: old_account.lamports,
        data,
        owner: old_account.owner,
        executable: old_account.executable,
    };
    accounts.set(i, account);
}

/// Two accounts that agree on everything but their data.
pub open spec fn same_but_data(a: AccountInfo, b: AccountInfo) -> bool {
    &&& a.key == b.key
    &&& a.is_signer == b.is_signer
    &&& a.is_writable == b.is_writable
    &&& a.lamports == b.lamports
    &&& a.owner == b.owner
    &&& a.executable == b.executable
}

/// The account list after account `i` has taken `data`, everything else kept.
pub open spec fn written(before: Seq<AccountInfo>, after: Seq<AccountInfo>, i: int, data: Seq<u8>) -> bool {
    &&& after.len() == before.len()
    &&& 0 <= i < before.len()
    &&& after[i].data@ == data
    &&& same_but_data(after[i], before[i])
    &&& forall|j: int| 0 <= j < before.len() && j != i ==> after[j] == before[j]
}

/// Id of the system program: `11111111111111111111111111111111`.
pub fn system_program_id() -> (r: Pubkey)
    ensures
        r@ == Seq::new(32, |i: int| 0u8),
{
    let r = Pubkey::new_from_array([0u8; 32]);
    assert(r@ =~= Seq::new(32, |i: int| 0u8));
    r
}

/// Id of the rent sysvar: `SysvarRent111111111111111111111111111111111`.
pub fn rent_sysvar_id() -> (r: Pubkey)
    ensures
        r@ == rent_sysvar_bytes(),
{
    let r = Pubkey::new_from_array(
        [
            6, 167, 213, 23, 25, 44, 92, 81, 33, 140, 201, 76, 61, 74, 241, 127, 88, 218, 238, 8,
            155, 161, 253, 68, 227, 219, 217, 138, 0, 0, 0, 0,
        ],
    );
    assert(r@ =~= rent_sysvar_bytes());
    r
}

pub open spec fn rent_sysvar_bytes() -> Seq<u8> {
    seq![
        6u8, 167, 213, 23, 25, 44, 92, 81, 33, 140, 201, 76, 61, 74, 241, 127, 88, 218, 238, 8,
        155, 161, 253, 68, 227, 219, 217, 138, 0, 0, 0, 0,
    ]
}

/// An operation of the system program that a program asks the ledger to perform on its
/// behalf.
#[derive(Clone, Copy, Debug, PartialEq)]
pub enum SystemCall {
    /// Moves `lamports` from `from` to `to`.
    Transfer { from: Pubkey, to: Pubkey, lamports: u64 },
    /// Gives `account` a data region of `space` bytes.
    Allocate { account: Pubkey, space: u64 },
    /// Makes `owner` the owner of `account`.
    Assign { account: Pubkey, owner: Pubkey },
}

/// A system call together with the seeds that make a derived address its signer.
#[derive(Debug)]
pub struct SystemInvocation {
    pub call: SystemCall,
    pub signer_seeds: Vec<Vec<u8>>,
}

} // verus!
