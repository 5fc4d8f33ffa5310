//! The simple program's instruction processor.

use vstd::prelude::*;
use crate::account::{set_account_data, spec_read_rent, written, AccountInfo, ProgramError, Rent};
use crate::codec::{flag_byte, zeros};
use crate::pubkey::{derive_pair_address, pair_address, Pubkey};
use crate::bridge::processor::{update_data_effect, SignedInvocation};
use crate::simple_program::error::SimpleProgramError;
use crate::simple_program::instruction::{spec_is_instruction, SimpleProgramInstruction};
use crate::simple_program::state::SimpleProgram;

verus! {

/// What `Initialize` writes into `account`, or the error it fails with (any nonzero first
/// byte marks the account as in use): an initialized
/// record whose authority is the address derived from `(program_id, account)` under the
/// bridge program, with every value zeroed.
pub open spec fn initialize_result(
    program_id: Pubkey,
    account: AccountInfo,
    rent_account: AccountInfo,
    moebius_program_id: Pubkey,
) -> Result<Seq<u8>, ProgramError> {
    let data = account.data@;
    match spec_read_rent(rent_account) {
        Err(e) => Err(e),
        Ok(rent) => if data.len() != SimpleProgram::LEN {
            Err(ProgramError::InvalidAccountData)
        } else if data[0] != 0 {
            Err(SimpleProgramError::AlreadyInUse.spec_into())
        } else if !rent.spec_is_exempt(account.lamports, data.len()) {
            Err(SimpleProgramError::NotRentExempt.spec_into())
        } else {
            match pair_address(program_id@, account.key@, moebius_program_id@) {
                Some((authority, _)) => Ok(seq![1u8] + authority@ + zeros(84)),
                None => Err(ProgramError::InvalidSeeds),
            }
        },
    }
}

/// The effect of `Initialize` on the accounts: on success `accounts[0]` holds the new
/// record; on failure nothing changes.
pub open spec fn initialize_effect(
    program_id: Pubkey,
    before: Seq<AccountInfo>,
    after: Seq<AccountInfo>,
    moebius_program_id: Pubkey,
    r: Result<(), ProgramError>,
) -> bool {
    if before.len() < 2 {
        r == Err::<(), ProgramError>(ProgramError::NotEnoughAccountKeys) && after == before
    } else {
        match initialize_result(program_id, before[0], before[1], moebius_program_id) {
            Ok(data) => r is Ok && written(before, after, 0, data),
            Err(e) => r == Err::<(), ProgramError>(e) && after == before,
        }
    }
}

/// What `UpdateState` writes into `accounts[1]`, or the error it fails with: the record
/// keeps its flag and authority and takes the new values, if `accounts[0]` is the stored
/// authority and has signed.
pub open spec fn update_state_result(
    accounts: Seq<AccountInfo>,
    val_bytes32: [u8; 32],
    val_address: [u8; 20],
    val_uint256: [u8; 32],
) -> Result<Seq<u8>, ProgramError> {
    if accounts.len() < 2 {
        Err(ProgramError::NotEnoughAccountKeys)
    } else {
        let authority = accounts[0];
        let data = accounts[1].data@;
        if data.len() != SimpleProgram::LEN {
            Err(ProgramError::InvalidAccountData)
        } else if authority.key@ != data.subrange(1, 33) {
            Err(SimpleProgramError::Unauthorized.spec_into())
        } else if !authority.is_signer {
            Err(ProgramError::MissingRequiredSignature)
        } else {
            Ok(seq![flag_byte(data[0] == 1)] + data.subrange(1, 33) + val_bytes32@ + val_address@
                + val_uint256@)
        }
    }
}

/// The effect of `UpdateState`: on success the state account holds the new record; on
/// failure nothing changes.
pub open spec fn update_state_effect(
    before: Seq<AccountInfo>,
    after: Seq<AccountInfo>,
    val_bytes32: [u8; 32],
    val_address: [u8; 20],
    val_uint256: [u8; 32],
    r: Result<(), ProgramError>,
) -> bool {
    match update_state_result(before, val_bytes32, val_address, val_uint256) {
        Ok(data) => r is Ok && written(before, after, 1, data),
        Err(e) => r == Err::<(), ProgramError>(e) && after == before,
    }
}

/// Program state handler.
pub struct Processor {}

impl Processor {
    /// Processes an encoded instruction of the simple program.
    pub fn process(program_id: &Pubkey, accounts: &mut Vec<AccountInfo>, input: &[u8]) -> (r:
        Result<(), ProgramError>)
        ensures
            !spec_is_instruction(input@) ==> r == Err::<(), ProgramError>(
                SimpleProgramError::InvalidInstruction.spec_into(),
            ) && final(accounts)@ == old(accounts)@,
            forall|v: SimpleProgramInstruction|
                #![trigger SimpleProgramInstruction::spec_unpacks_to(input@, v)]
                SimpleProgramInstruction::spec_unpacks_to(input@, v) ==> match v {
                    SimpleProgramInstruction::Initialize { moebius_program_id } => initialize_effect(
                        *program_id,
                        old(accounts)@,
                        final(accounts)@,
                        moebius_program_id,
                        r,
                    ),
                    SimpleProgramInstruction::UpdateState { val_bytes32, val_address, val_uint256 } =>
                        update_state_effect(
                        old(accounts)@,
                        final(accounts)@,
                        val_bytes32,
                        val_address,
                        val_uint256,
                        r,
                    ),
                },
    {
        let instruction = match SimpleProgramInstruction::unpack(input) {
            Ok(instruction) => instruction,
            Err(e) => return Err(e),
        };
        proof {
            crate::simple_program::instruction::lemma_unpack_unique(input@, instruction);
        }
        match instruction {
            SimpleProgramInstruction::Initialize { moebius_program_id } => {
                Self::process_initialize(program_id, accounts, moebius_program_id)
            },
            SimpleProgramInstruction::UpdateState { val_bytes32, val_address, val_uint256 } => {
                Self::process_update_state(accounts, val_bytes32, val_address, val_uint256)
            },
        }
    }

    /// Initializes the state account `accounts[0]`, reading the rent parameters from the
    /// rent sysvar account `accounts[1]`.
    pub fn process_initialize(program_id: &Pubkey, accounts: &mut Vec<AccountInfo>, moebius_program_id: Pubkey) -> (r:
        Result<(), ProgramError>)
        ensures
            initialize_effect(*program_id, old(accounts)@, final(accounts)@, moebius_program_id, r),
    {
        if accounts.len() < 2 {
            return Err(ProgramError::NotEnoughAccountKeys);
        }
        let rent = match Rent::from_account(&accounts[1]) {
            Ok(rent) => rent,
            Err(e) => return Err(e),
        };
        let account = &accounts[0];

        // The account must hold a record of the right size that is not in use already.
        if account.data.len() != SimpleProgram::LEN {
            return Err(ProgramError::InvalidAccountData);
        }
        if account.data[0] != 0u8 {
            return Err(ProgramError::from(SimpleProgramError::AlreadyInUse));
        }
        if !rent.is_exempt(account.lamports, account.data.len()) {
            return Err(ProgramError::from(SimpleProgramError::NotRentExempt));
        }

        // The authority is the address the bridge signs for when it writes this account.
        let authority = match derive_pair_address(
            program_id.bytes.as_slice(),
            account.key.bytes.as_slice(),
            &moebius_program_id,
        ) {
            Some((authority, _)) => authority,
            None => return Err(ProgramError::InvalidSeeds),
        };

        let state = SimpleProgram {
            is_initialized: true,
            authority,
            val_bytes32: [0u8; 32],
            val_address: [0u8; 20],
            val_uint256: [0u8; 32],
        };
        let data = state.to_vec();
        assert(state.val_bytes32@ =~= zeros(32));
        assert(state.val_address@ =~= zeros(20));
        assert(state.val_uint256@ =~= zeros(32));
        assert(data@ =~= seq![1u8] + authority@ + zeros(84));
        set_account_data(accounts, 0, data);
        Ok(())
    }

    /// Overwrites the values of the state account `accounts[1]`, signed by its authority
    /// `accounts[0]`.
    pub fn process_update_state(
        accounts: &mut Vec<AccountInfo>,
        val_bytes32: [u8; 32],
        val_address: [u8; 20],
        val_uint256: [u8; 32],
    ) -> (r: Result<(), ProgramError>)
        ensures
            update_state_effect(old(accounts)@, final(accounts)@, val_bytes32, val_address, val_uint256, r),
    {
        if accounts.len() < 2 {
            return Err(ProgramError::NotEnoughAccountKeys);
        }
        let authority_info = &accounts[0];
        let account = &accounts[1];
        let mut state = match SimpleProgram::unpack_unchecked(account.data.as_slice()) {
            Ok(state) => state,
            Err(e) => return Err(e),
        };
        if !(authority_info.key == state.authority) {
            return Err(ProgramError::from(SimpleProgramError::Unauthorized));
        }
        if !authority_info.is_signer {
            return Err(ProgramError::MissingRequiredSignature);
        }
        state.val_bytes32 = val_bytes32;
        state.val_address = val_address;
        state.val_uint256 = val_uint256;
        let data = state.to_vec();
        set_account_data(accounts, 1, data);
        Ok(())
    }
}

/// An `UpdateState` presented by any account other than the stored authority is refused
/// with `Unauthorized` and leaves every account unchanged.
pub proof fn lemma_unauthorized_update_refused(
    before: Seq<AccountInfo>,
    after: Seq<AccountInfo>,
    val_bytes32: [u8; 32],
    val_address: [u8; 20],
    val_uint256: [u8; 32],
    r: Result<(), ProgramError>,
)
    requires
        update_state_effect(before, after, val_bytes32, val_address, val_uint256, r),
        before.len() >= 2,
        before[1].data@.len() == SimpleProgram::LEN,
        before[0].key@ != before[1].data@.subrange(1, 33),
    ensures
        r == Err::<(), ProgramError>(SimpleProgramError::Unauthorized.spec_into()),
        after == before,
{
}

/// Initialization happens once: after an `Initialize` succeeds, a second `Initialize` on
/// the same accounts fails with `AlreadyInUse` and changes nothing.
pub proof fn lemma_second_initialize_refused(
    program_id: Pubkey,
    s0: Seq<AccountInfo>,
    s1: Seq<AccountInfo>,
    s2: Seq<AccountInfo>,
    moebius_a: Pubkey,
    r1: Result<(), ProgramError>,
    moebius_b: Pubkey,
    r2: Result<(), ProgramError>,
)
    requires
        initialize_effect(program_id, s0, s1, moebius_a, r1),
        r1 is Ok,
        initialize_effect(program_id, s1, s2, moebius_b, r2),
    ensures
        r2 == Err::<(), ProgramError>(SimpleProgramError::AlreadyInUse.spec_into()),
        s2 == s1,
{
    let data = initialize_result(program_id, s0[0], s0[1], moebius_a).unwrap();
    assert(data[0] == 1);
    assert(data.len() == 117);
}

/// A relayed write reaches its target: when the bridge accepts an `UpdateData` whose
/// payload is an `UpdateState` of this program, and the ledger runs the call it yields on the
/// target account, with the caller it names as signer, and the target's stored authority is
/// that caller, the update succeeds and the target holds the new values under its old flag
/// and authority.
pub proof fn lemma_relayed_update_reaches_target(
    bridge_id: Pubkey,
    bridge_accounts: Seq<AccountInfo>,
    call: SignedInvocation,
    val_bytes32: [u8; 32],
    val_address: [u8; 20],
    val_uint256: [u8; 32],
    before: Seq<AccountInfo>,
    after: Seq<AccountInfo>,
    r: Result<(), ProgramError>,
)
    requires
        update_data_effect(
            bridge_id,
            bridge_accounts,
            (SimpleProgramInstruction::UpdateState { val_bytes32, val_address, val_uint256 }).spec_pack(),
            Ok(call),
        ),
        before.len() == 2,
        before[0].key == call.instruction.accounts@[0].pubkey,
        before[0].is_signer,
        before[1] == bridge_accounts[4],
        bridge_accounts[4].data@.len() == SimpleProgram::LEN,
        bridge_accounts[4].data@.subrange(1, 33) == bridge_accounts[2].key@,
        update_state_effect(before, after, val_bytes32, val_address, val_uint256, r),
    ensures
        r is Ok,
        after[1].data@ == seq![flag_byte(before[1].data@[0] == 1)] + before[1].data@.subrange(1, 33)
            + val_bytes32@ + val_address@ + val_uint256@,
{
}

} // verus!
