//! The bridge program's instruction processor.

use vstd::prelude::*;
use crate::account::{
    set_account_data, spec_read_rent, written, AccountInfo, AccountMeta, Instruction, ProgramError, Rent,
};
use crate::bridge::error::MoebiusError;
use crate::bridge::instruction::{spec_is_instruction, MoebiusInstruction};
use crate::bridge::state::Moebius;
use crate::pubkey::{derive_pair_address, pair_address, seeds_view, Pubkey};

verus! {

/// A call into another program that the ledger makes on the bridge's behalf, with the seeds
/// that make the derived caller address a signer of that call.
#[derive(Debug)]
pub struct SignedInvocation {
    pub instruction: Instruction,
    pub signer_seeds: Vec<Vec<u8>>,
}

/// What `Initialize` writes into the state account, or the error it fails with; the rent
/// parameters come from the rent sysvar account.
pub open spec fn initialize_result(account: AccountInfo, rent_account: AccountInfo, authority: Pubkey) -> Result<
    Seq<u8>,
    ProgramError,
> {
    let data = account.data@;
    match spec_read_rent(rent_account) {
        Err(e) => Err(e),
        Ok(rent) => if data.len() > 0 && data[0] != 0 {
            Err(MoebiusError::AlreadyInUse.spec_into())
        } else if !rent.spec_is_exempt(account.lamports, data.len()) {
            Err(MoebiusError::NotRentExempt.spec_into())
        } else if data.len() != Moebius::LEN {
            Err(ProgramError::InvalidAccountData)
        } else {
            Ok(Moebius { is_initialized: true, authority }.spec_pack())
        },
    }
}

/// The effect of `Initialize` on the accounts: on success the state account holds the new
/// record; on failure nothing changes.
pub open spec fn initialize_effect(
    before: Seq<AccountInfo>,
    after: Seq<AccountInfo>,
    authority: Pubkey,
    r: Result<(), ProgramError>,
) -> bool {
    if before.len() < 2 {
        r == Err::<(), ProgramError>(ProgramError::NotEnoughAccountKeys) && after == before
    } else {
        match initialize_result(before[0], before[1], authority) {
            Ok(data) => r is Ok && written(before, after, 0, data),
            Err(e) => r == Err::<(), ProgramError>(e) && after == before,
        }
    }
}

/// The authority recorded in a bridge state record.
pub open spec fn stored_authority(data: Seq<u8>) -> Seq<u8> {
    data.subrange(1, 33)
}

/// The checks of `UpdateData`, in order; on success, the derived caller address and its
/// bump seed.
pub open spec fn update_data_result(program_id: Pubkey, accounts: Seq<AccountInfo>) -> Result<
    ([u8; 32], u8),
    ProgramError,
> {
    if accounts.len() < 5 {
        Err(ProgramError::NotEnoughAccountKeys)
    } else {
        let state = accounts[0];
        let authority = accounts[1];
        let caller = accounts[2];
        let target_program = accounts[3];
        let target_account = accounts[4];
        if state.data@.len() != Moebius::LEN {
            Err(ProgramError::InvalidAccountData)
        } else if authority.key@ != stored_authority(state.data@) {
            Err(MoebiusError::Unauthorized.spec_into())
        } else if !authority.is_signer {
            Err(ProgramError::MissingRequiredSignature)
        } else if !target_program.executable {
            Err(MoebiusError::TargetProgramNotExecutable.spec_into())
        } else if target_program.key@ != target_account.owner@ {
            Err(MoebiusError::TargetOwnershipMismatch.spec_into())
        } else {
            match pair_address(target_program.key@, target_account.key@, program_id@) {
                Some((address, bump)) => if address@ == caller.key@ {
                    Ok((address, bump))
                } else {
                    Err(MoebiusError::DerivedAccountMismatch.spec_into())
                },
                None => Err(MoebiusError::DerivedAccountMismatch.spec_into()),
            }
        }
    }
}

/// The outcome of `UpdateData`: when every check passes, a call into the target program
/// that names the derived caller as signer and the target account as writable, carries
/// `data` unchanged, and is signed by the seeds of the derivation.
pub open spec fn update_data_effect(
    program_id: Pubkey,
    accounts: Seq<AccountInfo>,
    data: Seq<u8>,
    r: Result<SignedInvocation, ProgramError>,
) -> bool {
    match update_data_result(program_id, accounts) {
        Ok((_, bump)) => {
            &&& r is Ok
            &&& r.unwrap().instruction.program_id == accounts[3].key
            &&& r.unwrap().instruction.accounts@ == seq![
                AccountMeta { pubkey: accounts[2].key, is_signer: true, is_writable: true },
                AccountMeta { pubkey: accounts[4].key, is_signer: false, is_writable: true },
            ]
            &&& r.unwrap().instruction.data@ == data
            &&& seeds_view(r.unwrap().signer_seeds@) == seq![accounts[3].key@, accounts[4].key@, seq![bump]]
        },
        Err(e) => r == Err::<SignedInvocation, ProgramError>(e),
    }
}

/// Program state handler.
pub struct Processor {}

impl Processor {
    /// Processes an encoded bridge instruction. An `UpdateData` yields the call that the
    /// ledger is to make into the target program.
    pub fn process(program_id: &Pubkey, accounts: &mut Vec<AccountInfo>, input: &[u8]) -> (r:
        Result<Option<SignedInvocation>, ProgramError>)
        ensures
            !spec_is_instruction(input@) ==> r == Err::<Option<SignedInvocation>, ProgramError>(
                MoebiusError::InvalidInstruction.spec_into(),
            ) && final(accounts)@ == old(accounts)@,
            forall|v: MoebiusInstruction|
                #![trigger MoebiusInstruction::spec_unpacks_to(input@, v)]
                MoebiusInstruction::spec_unpacks_to(input@, v) ==> match v {
                    MoebiusInstruction::Initialize { authority } => {
                        &&& r is Ok ==> r.unwrap() is None
                        &&& initialize_effect(
                            old(accounts)@,
                            final(accounts)@,
                            authority,
                            match r {
                                Ok(_) => Ok(()),
                                Err(e) => Err(e),
                            },
                        )
                    },
                    MoebiusInstruction::UpdateData { data } => {
                        &&& final(accounts)@ == old(accounts)@
                        &&& match r {
                            Ok(Some(call)) => update_data_effect(*program_id, old(accounts)@, data@, Ok(call)),
                            Ok(None) => false,
                            Err(e) => update_data_effect(*program_id, old(accounts)@, data@, Err(e)),
                        }
                    },
                },
    {
        let instruction = match MoebiusInstruction::unpack(input) {
            Ok(instruction) => instruction,
            Err(e) => return Err(e),
        };
        match instruction {
            MoebiusInstruction::Initialize { authority } => {
                match Self::process_initialize(accounts, authority) {
                    Ok(()) => Ok(None),
                    Err(e) => Err(e),
                }
            },
            MoebiusInstruction::UpdateData { data } => {
                match Self::process_update_data(program_id, accounts, data) {
                    Ok(call) => Ok(Some(call)),
                    Err(e) => Err(e),
                }
            },
        }
    }

    /// Initializes the bridge state account `accounts[0]` with `authority`, reading the
    /// rent parameters from the rent sysvar account `accounts[1]`.
    pub fn process_initialize(accounts: &mut Vec<AccountInfo>, authority: Pubkey) -> (r: Result<(), ProgramError>)
        ensures
            initialize_effect(old(accounts)@, final(accounts)@, authority, r),
    {
        if accounts.len() < 2 {
            return Err(ProgramError::NotEnoughAccountKeys);
        }
        let rent = match Rent::from_account(&accounts[1]) {
            Ok(rent) => rent,
            Err(e) => return Err(e),
        };
        let account = &accounts[0];
        if account.data.len() > 0 && account.data[0] != 0u8 {
            return Err(ProgramError::from(MoebiusError::AlreadyInUse));
        }
        if !rent.is_exempt(account.lamports, account.data.len()) {
            return Err(ProgramError::from(MoebiusError::NotRentExempt));
        }
        if account.data.len() != Moebius::LEN {
            return Err(ProgramError::InvalidAccountData);
        }
        let state = Moebius { is_initialized: true, authority };
        let data = state.to_vec();
        set_account_data(accounts, 0, data);
        Ok(())
    }

    /// Checks an `UpdateData` against the bridge state and the accounts the ledger supplied,
    /// and builds the signed call that forwards `data` to the target program.
    pub fn process_update_data(program_id: &Pubkey, accounts: &Vec<AccountInfo>, data: Vec<u8>) -> (r:
        Result<SignedInvocation, ProgramError>)
        ensures
            update_data_effect(*program_id, accounts@, data@, r),
    {
        if accounts.len() < 5 {
            return Err(ProgramError::NotEnoughAccountKeys);
        }
        let moebius_account_info = &accounts[0];
        let authority_info = &accounts[1];
        let caller_account_info = &accounts[2];
        let target_program_account_info = &accounts[3];
        let target_account_account_info = &accounts[4];

        // The bridge authority must be the account that signed this transaction.
        let state = match Moebius::unpack_unchecked(moebius_account_info.data.as_slice()) {
            Ok(state) => state,
            Err(e) => return Err(e),
        };
        if !(authority_info.key == state.authority) {
            return Err(ProgramError::from(MoebiusError::Unauthorized));
        }
        if !authority_info.is_signer {
            return Err(ProgramError::MissingRequiredSignature);
        }

        // The target program must be executable and must own the target account.
        if !target_program_account_info.executable {
            return Err(ProgramError::from(MoebiusError::TargetProgramNotExecutable));
        }
        if !(target_program_account_info.key == target_account_account_info.owner) {
            return Err(ProgramError::from(MoebiusError::TargetOwnershipMismatch));
        }

        // The caller must be the address derived from the target pair under this program.
        let derived = derive_pair_address(
            target_program_account_info.key.bytes.as_slice(),
            target_account_account_info.key.bytes.as_slice(),
            program_id,
        );
        let bump_seed = match derived {
            Some((caller_address, bump_seed)) => {
                if !(caller_address == caller_account_info.key) {
                    return Err(ProgramError::from(MoebiusError::DerivedAccountMismatch));
                }
                bump_seed
            },
            None => return Err(ProgramError::from(MoebiusError::DerivedAccountMismatch)),
        };

        let mut signer_seeds: Vec<Vec<u8>> = Vec::new();
        signer_seeds.push(target_program_account_info.key.to_vec());
        signer_seeds.push(target_account_account_info.key.to_vec());
        let mut bump: Vec<u8> = Vec::new();
        bump.push(bump_seed);
        assert(bump@ =~= seq![bump_seed]);
        signer_seeds.push(bump);
        assert(seeds_view(signer_seeds@) =~= seq![
            target_program_account_info.key@,
            target_account_account_info.key@,
            seq![bump_seed],
        ]);

        let mut metas: Vec<AccountMeta> = Vec::new();
        metas.push(AccountMeta::new(caller_account_info.key, true));
        metas.push(AccountMeta::new(target_account_account_info.key, false));
        assert(metas@ =~= seq![
            AccountMeta { pubkey: caller_account_info.key, is_signer: true, is_writable: true },
            AccountMeta { pubkey: target_account_account_info.key, is_signer: false, is_writable: true },
        ]);
        let instruction = Instruction { program_id: target_program_account_info.key, accounts: metas, data };
        Ok(SignedInvocation { instruction, signer_seeds })
    }
}

/// Initialization happens once: after an `Initialize` succeeds, a second `Initialize` on
/// the same accounts fails with `AlreadyInUse` and changes nothing, whatever its authority.
pub proof fn lemma_second_initialize_refused(
    s0: Seq<AccountInfo>,
    s1: Seq<AccountInfo>,
    s2: Seq<AccountInfo>,
    authority_a: Pubkey,
    r1: Result<(), ProgramError>,
    authority_b: Pubkey,
    r2: Result<(), ProgramError>,
)
    requires
        initialize_effect(s0, s1, authority_a, r1),
        r1 is Ok,
        initialize_effect(s1, s2, authority_b, r2),
    ensures
        r2 == Err::<(), ProgramError>(MoebiusError::AlreadyInUse.spec_into()),
        s2 == s1,
{
    let packed = Moebius { is_initialized: true, authority: authority_a }.spec_pack();
    assert(packed[0] == 1);
}

/// An `UpdateData` presented by any account other than the stored authority is refused
/// with `Unauthorized`; the processor writes no account on this path.
pub proof fn lemma_unauthorized_update_refused(
    program_id: Pubkey,
    accounts: Seq<AccountInfo>,
    data: Seq<u8>,
    r: Result<SignedInvocation, ProgramError>,
)
    requires
        update_data_effect(program_id, accounts, data, r),
        accounts.len() >= 5,
        accounts[0].data@.len() == Moebius::LEN,
        accounts[1].key@ != stored_authority(accounts[0].data@),
    ensures
        r == Err::<SignedInvocation, ProgramError>(MoebiusError::Unauthorized.spec_into()),
{
}

/// However valid the rest, an `UpdateData` whose caller account is not the address derived
/// from the target pair under the bridge program fails with `DerivedAccountMismatch`.
pub proof fn lemma_caller_must_be_derived(
    program_id: Pubkey,
    accounts: Seq<AccountInfo>,
    data: Seq<u8>,
    r: Result<SignedInvocation, ProgramError>,
)
    requires
        update_data_effect(program_id, accounts, data, r),
        accounts.len() >= 5,
        accounts[0].data@.len() == Moebius::LEN,
        accounts[1].key@ == stored_authority(accounts[0].data@),
        accounts[1].is_signer,
        accounts[3].executable,
        accounts[3].key@ == accounts[4].owner@,
        !(pair_address(accounts[3].key@, accounts[4].key@, program_id@) matches Some((address, _))
            && address@ == accounts[2].key@),
    ensures
        r == Err::<SignedInvocation, ProgramError>(MoebiusError::DerivedAccountMismatch.spec_into()),
{
}

} // verus!
