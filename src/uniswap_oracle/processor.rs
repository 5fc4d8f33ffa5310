//! The pair oracle program's instruction processor.

use vstd::prelude::*;
use crate::account::{
    set_account_data, spec_read_rent, written, AccountInfo, ProgramError, Rent, SystemCall,
    SystemInvocation,
};
use crate::codec::{flag_byte, zeros};
use crate::pubkey::{bytes_equal, derive_pair_address, pair_address, seeds_view, signer_seeds, Pubkey};
use crate::uniswap_oracle::error::UniswapOracleError;
use crate::uniswap_oracle::instruction::{spec_is_instruction, UniswapOracleInstruction};
use crate::uniswap_oracle::state::UniswapOracle;

verus! {

/// The lamports the payer must add so that the oracle account holds the rent-exempt
/// minimum (at least one lamport), or `None` where the minimum cannot be computed.
pub open spec fn required_lamports(rent: Rent, lamports: u64) -> Option<u64> {
    match rent.spec_minimum_balance(UniswapOracle::LEN as nat) {
        Some(minimum) => {
            let target = if minimum > 1 { minimum } else { 1u64 };
            Some(if target > lamports { (target - lamports) as u64 } else { 0u64 })
        },
        None => None,
    }
}

/// The checks of `Initialize`, in order; on success, the record to store, the bump seed of
/// the oracle account's address, and the lamports to transfer into it.
pub open spec fn initialize_result(
    program_id: Pubkey,
    accounts: Seq<AccountInfo>,
    moebius_program_id: Pubkey,
    token0: [u8; 20],
    decimal0: u8,
    token1: [u8; 20],
    decimal1: u8,
) -> Result<(Seq<u8>, u8, u64), ProgramError> {
    if accounts.len() < 4 {
        Err(ProgramError::NotEnoughAccountKeys)
    } else {
        let account = accounts[1];
        match pair_address(token0@, token1@, program_id@) {
            None => Err(UniswapOracleError::DerivedAccountMismatch.spec_into()),
            Some((address, bump)) => if address@ != account.key@ {
                Err(UniswapOracleError::DerivedAccountMismatch.spec_into())
            } else if account.data@.len() > 0 && account.data@[0] != 0 {
                Err(UniswapOracleError::AlreadyInUse.spec_into())
            } else if spec_read_rent(accounts[3]) is Err {
                Err(spec_read_rent(accounts[3])->Err_0)
            } else {
                match required_lamports(spec_read_rent(accounts[3])->Ok_0, account.lamports) {
                    None => Err(UniswapOracleError::NotRentExempt.spec_into()),
                    Some(required) => match pair_address(program_id@, account.key@, moebius_program_id@) {
                        None => Err(ProgramError::InvalidSeeds),
                        Some((authority, _)) => Ok(
                            (
                                seq![1u8] + authority@ + token0@ + seq![decimal0] + zeros(32) + token1@
                                    + seq![decimal1] + zeros(32),
                                bump,
                                required,
                            ),
                        ),
                    },
                }
            },
        }
    }
}

/// The effect of `Initialize`: on success the oracle account holds an initialized record
/// with the derived authority, the pair, its decimals and zero amounts, and the ledger is
/// asked to fund the account (when short of the minimum), allocate its record and assign it
/// to this program, the last two signed by the account's own derivation seeds. On failure
/// nothing changes.
pub open spec fn initialize_effect(
    program_id: Pubkey,
    before: Seq<AccountInfo>,
    after: Seq<AccountInfo>,
    moebius_program_id: Pubkey,
    token0: [u8; 20],
    decimal0: u8,
    token1: [u8; 20],
    decimal1: u8,
    r: Result<Vec<SystemInvocation>, ProgramError>,
) -> bool {
    match initialize_result(program_id, before, moebius_program_id, token0, decimal0, token1, decimal1) {
        Ok((data, bump, required)) => {
            let calls = r.unwrap()@;
            let k: int = if required > 0 { 1 } else { 0 };
            &&& r is Ok
            &&& written(before, after, 1, data)
            &&& calls.len() == k + 2
            &&& required > 0 ==> calls[0].call == SystemCall::Transfer {
                from: before[0].key,
                to: before[1].key,
                lamports: required,
            } && calls[0].signer_seeds@.len() == 0
            &&& calls[k].call == SystemCall::Allocate { account: before[1].key, space: UniswapOracle::LEN as u64 }
            &&& seeds_view(calls[k].signer_seeds@) == seq![token0@, token1@, seq![bump]]
            &&& calls[k + 1].call == SystemCall::Assign { account: before[1].key, owner: program_id }
            &&& seeds_view(calls[k + 1].signer_seeds@) == seq![token0@, token1@, seq![bump]]
        },
        Err(e) => r == Err::<Vec<SystemInvocation>, ProgramError>(e) && after == before,
    }
}

/// What `UpdateState` writes into `accounts[1]`, or the error it fails with: the record
/// keeps everything but the two amounts, if `accounts[0]` is the stored authority, the
/// update names the account's own pair, and the authority has signed.
pub open spec fn update_state_result(
    accounts: Seq<AccountInfo>,
    token0: [u8; 20],
    amount0: [u8; 32],
    token1: [u8; 20],
    amount1: [u8; 32],
) -> Result<Seq<u8>, ProgramError> {
    if accounts.len() < 2 {
        Err(ProgramError::NotEnoughAccountKeys)
    } else {
        let authority = accounts[0];
        let data = accounts[1].data@;
        if data.len() != UniswapOracle::LEN {
            Err(ProgramError::InvalidAccountData)
        } else if authority.key@ != data.subrange(1, 33) {
            Err(UniswapOracleError::Unauthorized.spec_into())
        } else if data.subrange(33, 53) != token0@ || data.subrange(86, 106) != token1@ {
            Err(UniswapOracleError::InvalidAccount.spec_into())
        } else if !authority.is_signer {
            Err(ProgramError::MissingRequiredSignature)
        } else {
            Ok(seq![flag_byte(data[0] == 1)] + data.subrange(1, 54) + amount0@ + data.subrange(86, 107)
                + amount1@)
        }
    }
}

/// The effect of `UpdateState`: on success the oracle account holds the new record; on
/// failure nothing changes.
pub open spec fn update_state_effect(
    before: Seq<AccountInfo>,
    after: Seq<AccountInfo>,
    token0: [u8; 20],
    amount0: [u8; 32],
    token1: [u8; 20],
    amount1: [u8; 32],
    r: Result<(), ProgramError>,
) -> bool {
    match update_state_result(before, token0, amount0, token1, amount1) {
        Ok(data) => r is Ok && written(before, after, 1, data),
        Err(e) => r == Err::<(), ProgramError>(e) && after == before,
    }
}

/// Program state handler.
pub struct Processor {}

impl Processor {
    /// Processes an encoded instruction of the oracle program. An `Initialize` yields the
    /// system calls that the ledger is to make.
    pub fn process(program_id: &Pubkey, accounts: &mut Vec<AccountInfo>, input: &[u8]) -> (r:
        Result<Vec<SystemInvocation>, ProgramError>)
        ensures
            !spec_is_instruction(input@) ==> r == Err::<Vec<SystemInvocation>, ProgramError>(
                UniswapOracleError::InvalidInstruction.spec_into(),
            ) && final(accounts)@ == old(accounts)@,
            forall|v: UniswapOracleInstruction|
                #![trigger UniswapOracleInstruction::spec_unpacks_to(input@, v)]
                UniswapOracleInstruction::spec_unpacks_to(input@, v) ==> match v {
                    UniswapOracleInstruction::Initialize {
                        moebius_program_id,
                        token0,
                        decimal0,
                        token1,
                        decimal1,
                    } => initialize_effect(
                        *program_id,
                        old(accounts)@,
                        final(accounts)@,
                        moebius_program_id,
                        token0,
                        decimal0,
                        token1,
                        decimal1,
                        r,
                    ),
                    UniswapOracleInstruction::UpdateState { token0, amount0, token1, amount1 } => {
                        &&& r is Ok ==> r.unwrap()@.len() == 0
                        &&& update_state_effect(
                            old(accounts)@,
                            final(accounts)@,
                            token0,
                            amount0,
                            token1,
                            amount1,
                            match r {
                                Ok(_) => Ok(()),
                                Err(e) => Err(e),
                            },
                        )
                    },
                },
    {
        let instruction = match UniswapOracleInstruction::unpack(input) {
            Ok(instruction) => instruction,
            Err(e) => return Err(e),
        };
        proof {
            crate::uniswap_oracle::instruction::lemma_unpack_unique(input@, instruction);
        }
        match instruction {
            UniswapOracleInstruction::Initialize { moebius_program_id, token0, decimal0, token1, decimal1 } => {
                Self::process_initialize(
                    program_id,
                    accounts,
                    moebius_program_id,
                    token0,
                    decimal0,
                    token1,
                    decimal1,
                )
            },
            UniswapOracleInstruction::UpdateState { token0, amount0, token1, amount1 } => {
                match Self::process_update_state(accounts, token0, amount0, token1, amount1) {
                    Ok(()) => Ok(Vec::new()),
                    Err(e) => Err(e),
                }
            },
        }
    }

    /// Creates the oracle account `accounts[1]` of the pair at the address derived from the
    /// pair, funded by `accounts[0]`, reading the rent parameters from the rent sysvar
    /// account `accounts[3]`. Returns the system calls that fund, allocate and assign the
    /// account; the ledger makes them, in order, before it stores the record written into
    /// `accounts[1]`, which has no data region until the allocation.
    pub fn process_initialize(
        program_id: &Pubkey,
        accounts: &mut Vec<AccountInfo>,
        moebius_program_id: Pubkey,
        token0: [u8; 20],
        decimal0: u8,
        token1: [u8; 20],
        decimal1: u8,
    ) -> (r: Result<Vec<SystemInvocation>, ProgramError>)
        ensures
            initialize_effect(
                *program_id,
                old(accounts)@,
                final(accounts)@,
                moebius_program_id,
                token0,
                decimal0,
                token1,
                decimal1,
                r,
            ),
    {
        if accounts.len() < 4 {
            return Err(ProgramError::NotEnoughAccountKeys);
        }
        let payer_key = accounts[0].key;
        let account = &accounts[1];

        // The oracle account must sit at the address derived from the pair.
        let bump_seed = match derive_pair_address(token0.as_slice(), token1.as_slice(), program_id) {
            Some((address, bump_seed)) => {
                if !(address == account.key) {
                    return Err(ProgramError::from(UniswapOracleError::DerivedAccountMismatch));
                }
                bump_seed
            },
            None => return Err(ProgramError::from(UniswapOracleError::DerivedAccountMismatch)),
        };

        // The account must not be in use already: a nonzero first byte marks it.
        if account.data.len() > 0 && account.data[0] != 0u8 {
            return Err(ProgramError::from(UniswapOracleError::AlreadyInUse));
        }

        // Fund the account up to the rent-exempt minimum.
        let rent = match Rent::from_account(&accounts[3]) {
            Ok(rent) => rent,
            Err(e) => return Err(e),
        };
        let account = &accounts[1];
        let minimum = match rent.minimum_balance(UniswapOracle::LEN) {
            Some(minimum) => if minimum > 1 {
                minimum
            } else {
                1u64
            },
            None => return Err(ProgramError::from(UniswapOracleError::NotRentExempt)),
        };
        let required_lamports = if minimum > account.lamports {
            minimum - account.lamports
        } else {
            0u64
        };

        // The authority is the address the bridge signs for when it writes this account.
        let authority = match derive_pair_address(
            program_id.bytes.as_slice(),
            account.key.bytes.as_slice(),
            &moebius_program_id,
        ) {
            Some((authority, _)) => authority,
            None => return Err(ProgramError::InvalidSeeds),
        };

        let account_key = account.key;
        let mut calls: Vec<SystemInvocation> = Vec::new();
        if required_lamports > 0 {
            calls.push(
                SystemInvocation {
                    call: SystemCall::Transfer { from: payer_key, to: account_key, lamports: required_lamports },
                    signer_seeds: Vec::new(),
                },
            );
        }
        calls.push(
            SystemInvocation {
                call: SystemCall::Allocate { account: account_key, space: UniswapOracle::LEN as u64 },
                signer_seeds: signer_seeds(token0.as_slice(), token1.as_slice(), bump_seed),
            },
        );
        calls.push(
            SystemInvocation {
                call: SystemCall::Assign { account: account_key, owner: *program_id },
                signer_seeds: signer_seeds(token0.as_slice(), token1.as_slice(), bump_seed),
            },
        );

        let state = UniswapOracle {
            is_initialized: true,
            authority,
            token0,
            decimal0,
            amount0: [0u8; 32],
            token1,
            decimal1,
            amount1: [0u8; 32],
        };
        let data = state.to_vec();
        assert(state.amount0@ =~= zeros(32));
        assert(state.amount1@ =~= zeros(32));
        set_account_data(accounts, 1, data);
        Ok(calls)
    }

    /// Records new amounts in the oracle account `accounts[1]`, signed by its authority
    /// `accounts[0]`; the pair named must be the account's own.
    pub fn process_update_state(
        accounts: &mut Vec<AccountInfo>,
        token0: [u8; 20],
        amount0: [u8; 32],
        token1: [u8; 20],
        amount1: [u8; 32],
    ) -> (r: Result<(), ProgramError>)
        ensures
            update_state_effect(old(accounts)@, final(accounts)@, token0, amount0, token1, amount1, r),
    {
        if accounts.len() < 2 {
            return Err(ProgramError::NotEnoughAccountKeys);
        }
        let authority_info = &accounts[0];
        let account = &accounts[1];
        let mut state = match UniswapOracle::unpack_unchecked(account.data.as_slice()) {
            Ok(state) => state,
            Err(e) => return Err(e),
        };

        // Only the authority may update.
        if !(authority_info.key == state.authority) {
            return Err(ProgramError::from(UniswapOracleError::Unauthorized));
        }

        // The update must name this account's pair.
        if !bytes_equal(state.token0.as_slice(), token0.as_slice()) || !bytes_equal(
            state.token1.as_slice(),
            token1.as_slice(),
        ) {
            return Err(ProgramError::from(UniswapOracleError::InvalidAccount));
        }

        // The authority must have signed.
        if !authority_info.is_signer {
            return Err(ProgramError::MissingRequiredSignature);
        }

        state.amount0 = amount0;
        state.amount1 = amount1;
        let data = state.to_vec();
        let ghost old_data = old(accounts)@[1].data@;
        assert(data@ =~= seq![flag_byte(old_data[0] == 1)] + old_data.subrange(1, 54) + amount0@
            + old_data.subrange(86, 107) + amount1@);
        set_account_data(accounts, 1, data);
        Ok(())
    }
}

/// An `UpdateState` presented by any account other than the stored authority is refused
/// with `Unauthorized` and leaves every account unchanged, whatever pair it names.
pub proof fn lemma_unauthorized_update_refused(
    before: Seq<AccountInfo>,
    after: Seq<AccountInfo>,
    token0: [u8; 20],
    amount0: [u8; 32],
    token1: [u8; 20],
    amount1: [u8; 32],
    r: Result<(), ProgramError>,
)
    requires
        update_state_effect(before, after, token0, amount0, token1, amount1, r),
        before.len() >= 2,
        before[1].data@.len() == UniswapOracle::LEN,
        before[0].key@ != before[1].data@.subrange(1, 33),
    ensures
        r == Err::<(), ProgramError>(UniswapOracleError::Unauthorized.spec_into()),
        after == before,
{
}

/// Initialization happens once: after an `Initialize` succeeds, a second `Initialize` on
/// the same accounts fails with `AlreadyInUse` and changes nothing.
pub proof fn lemma_second_initialize_refused(
    program_id: Pubkey,
    s0: Seq<AccountInfo>,
    s1: Seq<AccountInfo>,
    s2: Seq<AccountInfo>,
    moebius_program_id: Pubkey,
    token0: [u8; 20],
    decimal0: u8,
    token1: [u8; 20],
    decimal1: u8,
    r1: Result<Vec<SystemInvocation>, ProgramError>,
    r2: Result<Vec<SystemInvocation>, ProgramError>,
)
    requires
        initialize_effect(program_id, s0, s1, moebius_program_id, token0, decimal0, token1, decimal1, r1),
        r1 is Ok,
        initialize_effect(program_id, s1, s2, moebius_program_id, token0, decimal0, token1, decimal1, r2),
    ensures
        r2 == Err::<Vec<SystemInvocation>, ProgramError>(UniswapOracleError::AlreadyInUse.spec_into()),
        s2 == s1,
{
    let (data, _, _) = initialize_result(program_id, s0, moebius_program_id, token0, decimal0, token1, decimal1).unwrap();
    assert(data[0] == 1);
    assert(data.len() == 139);
}

} // verus!
