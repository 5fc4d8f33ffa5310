use moebius::account::{AccountInfo, Instruction, ProgramError, Rent};
use moebius::bridge::error::MoebiusError;
use moebius::bridge::instruction::{initialize, update_data, MoebiusInstruction};
use moebius::bridge::processor::Processor;
use moebius::bridge::state::Moebius;
use moebius::pubkey::{derive_pair_address, find_program_address, Pubkey};
use moebius::simple_program;
use moebius::simple_program::instruction::SimpleProgramInstruction;
use moebius::simple_program::state::SimpleProgram;
use moebius::uniswap_oracle::instruction::UniswapOracleInstruction;

/// The rent sysvar account, holding the ledger's default parameters.
#[allow(deprecated)]
fn rent_sysvar() -> AccountInfo {
    let rent = solana_program::rent::Rent::default();
    let mut data = rent.lamports_per_byte.to_le_bytes().to_vec();
    data.extend_from_slice(&rent.exemption_threshold);
    data.push(rent.burn_percent);
    AccountInfo {
        key: moebius::account::rent_sysvar_id(),
        is_signer: false,
        is_writable: false,
        lamports: 1,
        data,
        owner: key(0),
        executable: false,
    }
}

fn default_rent() -> Rent {
    Rent::from_account(&rent_sysvar()).unwrap()
}

fn key(b: u8) -> Pubkey {
    Pubkey::new_from_array([b; 32])
}

fn blank_account(lamports: u64, len: usize, owner: Pubkey) -> AccountInfo {
    AccountInfo {
        key: key(0),
        is_signer: false,
        is_writable: true,
        lamports,
        data: vec![0u8; len],
        owner,
        executable: false,
    }
}

/// Gives each account the key and signer flag that the instruction names for it.
fn bind(instruction: &Instruction, accounts: Vec<AccountInfo>) -> Vec<AccountInfo> {
    instruction
        .accounts
        .iter()
        .zip(accounts)
        .map(|(meta, mut account)| {
            account.key = meta.pubkey;
            account.is_signer = meta.is_signer;
            account
        })
        .collect()
}

#[test]
fn instruction_test_initialize_packing() {
    let check = MoebiusInstruction::Initialize {
        authority: Pubkey::new_from_array([2u8; 32]),
    };
    let packed = check.pack();
    let mut expect = vec![0u8];
    expect.extend_from_slice(&[2u8; 32]);
    assert_eq!(packed, expect);
    let unpacked = MoebiusInstruction::unpack(&expect).unwrap();
    assert_eq!(unpacked, check);

    let check = SimpleProgramInstruction::Initialize {
        moebius_program_id: Pubkey::new_from_array([2u8; 32]),
    };
    let packed = check.pack();
    let mut expect = vec![0u8];
    expect.extend_from_slice(&[2u8; 32]);
    assert_eq!(packed, expect);
    let unpacked = SimpleProgramInstruction::unpack(&expect).unwrap();
    assert_eq!(unpacked, check);

    let check = UniswapOracleInstruction::Initialize {
        moebius_program_id: Pubkey::new_from_array([2u8; 32]),
        token0: [3u8; 20],
        decimal0: 9,
        token1: [4u8; 20],
        decimal1: 18,
    };
    let packed = check.pack();
    let mut expect = vec![0u8];
    expect.extend_from_slice(&[2u8; 32]);
    expect.extend_from_slice(&[3u8; 20]);
    expect.push(9);
    expect.extend_from_slice(&[4u8; 20]);
    expect.push(18);
    assert_eq!(packed, expect);
    let unpacked = UniswapOracleInstruction::unpack(&expect).unwrap();
    assert_eq!(unpacked, check);
}

#[test]
fn test_update_data_packing() {
    let check = MoebiusInstruction::UpdateData {
        data: [5u8; 23].to_vec(),
    };
    let packed = check.pack();
    let mut expect = vec![1u8];
    expect.extend_from_slice(&(23u64.to_le_bytes()));
    expect.extend_from_slice(&[5u8; 23]);
    assert_eq!(packed, expect);
    let unpacked = MoebiusInstruction::unpack(&expect).unwrap();
    assert_eq!(unpacked, check);
}

#[test]
fn unpack_rejects_truncated_and_unknown_input() {
    let invalid = Err(ProgramError::from(MoebiusError::InvalidInstruction));
    assert_eq!(MoebiusInstruction::unpack(&[]), invalid);
    assert_eq!(MoebiusInstruction::unpack(&[0u8; 32]), invalid);
    assert_eq!(MoebiusInstruction::unpack(&[1u8, 0, 0]), invalid);
    assert_eq!(MoebiusInstruction::unpack(&[2u8; 40]), invalid);
    // The length field asks for four bytes where only three follow.
    let mut short = vec![1u8];
    short.extend_from_slice(&4u64.to_le_bytes());
    short.extend_from_slice(&[7u8; 3]);
    assert_eq!(MoebiusInstruction::unpack(&short), invalid);
    short.push(7);
    assert_eq!(
        MoebiusInstruction::unpack(&short),
        Ok(MoebiusInstruction::UpdateData { data: vec![7u8; 4] })
    );
    // An empty payload is a whole instruction.
    let mut empty = vec![1u8];
    empty.extend_from_slice(&0u64.to_le_bytes());
    assert_eq!(
        MoebiusInstruction::unpack(&empty),
        Ok(MoebiusInstruction::UpdateData { data: vec![] })
    );
}

#[test]
fn instruction_round_trip_on_values() {
    for v in [
        MoebiusInstruction::Initialize { authority: key(9) },
        MoebiusInstruction::UpdateData { data: vec![] },
        MoebiusInstruction::UpdateData { data: (0u8..200).collect() },
    ] {
        assert_eq!(MoebiusInstruction::unpack(&v.pack()), Ok(v));
    }
}

#[test]
fn state_round_trip_on_values() {
    for s in [
        Moebius { is_initialized: true, authority: key(7) },
        Moebius { is_initialized: false, authority: key(0) },
    ] {
        let mut buf = vec![0xffu8; Moebius::LEN];
        Moebius::pack(s, &mut buf).unwrap();
        assert_eq!(Moebius::unpack_unchecked(&buf), Ok(s));
    }
    let mut wrong = vec![0u8; 34];
    assert_eq!(
        Moebius::pack(Moebius { is_initialized: true, authority: key(1) }, &mut wrong),
        Err(ProgramError::InvalidAccountData)
    );
    assert_eq!(Moebius::unpack(&[0u8; 33]), Err(ProgramError::UninitializedAccount));
}

#[test]
fn error_codes_follow_declaration_order() {
    let errors = [
        MoebiusError::InvalidInstruction,
        MoebiusError::AlreadyInUse,
        MoebiusError::NotRentExempt,
        MoebiusError::Unauthorized,
        MoebiusError::DerivedAccountMismatch,
        MoebiusError::TargetProgramNotExecutable,
        MoebiusError::TargetOwnershipMismatch,
    ];
    for (i, e) in errors.iter().enumerate() {
        assert_eq!(ProgramError::from(*e), ProgramError::Custom(i as u32));
    }
    assert_eq!(MoebiusError::Unauthorized.description(), "Unauthorized");
}

#[test]
fn processor_test_print_error() {
    assert_eq!(
        MoebiusError::Unauthorized.print(),
        "Error: Account not authorized to do the transaction"
    );
    assert_eq!(
        moebius::simple_program::error::SimpleProgramError::Unauthorized.print(),
        "Error: Account not authorized to do the transaction"
    );
    assert_eq!(
        moebius::uniswap_oracle::error::UniswapOracleError::InvalidAccount.print(),
        "Error: Invalid account cannot be updated"
    );
}

#[test]
#[should_panic(expected = "Custom(3)")]
fn processor_test_error_unwrap() {
    Err::<(), ProgramError>(MoebiusError::Unauthorized.into()).unwrap();
}

#[test]
fn rent_minimum_for_default_parameters() {
    let rent = default_rent();
    // (128 bytes of overhead + 33) at 6960 lamports per byte.
    assert_eq!(rent.minimum_balance(Moebius::LEN), Some(1_120_560));
    assert!(rent.is_exempt(1_120_560, Moebius::LEN));
    assert!(!rent.is_exempt(1_120_559, Moebius::LEN));
}

#[test]
fn rent_minimum_without_overflow() {
    // An unbounded rate with a threshold the ledger does not bound has no minimum.
    let rent = Rent { lamports_per_byte: u64::MAX, exemption_threshold: 0 };
    assert_eq!(rent.minimum_balance(0), None);
    assert!(!rent.is_exempt(u64::MAX, 0));
    // For the threshold 1.0 the ledger refuses too large a rate itself.
    let rent = Rent { lamports_per_byte: u64::MAX, exemption_threshold: 1.0f64.to_bits() };
    assert_eq!(rent.minimum_balance(33), None);
    // Any other threshold scales the charge: half of (128 + 33) * 6960.
    let rent = Rent { lamports_per_byte: 6960, exemption_threshold: 0.5f64.to_bits() };
    assert_eq!(rent.minimum_balance(33), Some(560_280));
    // Past the longest permitted data there is no minimum.
    let rent = default_rent();
    assert_eq!(rent.minimum_balance(10 * 1024 * 1024 + 1), None);
}

#[test]
fn processor_test_initialize() {
    let program_id = key(11);
    let authority = key(12);
    let moebius_account_id = key(13);
    let rent = default_rent();
    let ix = initialize(&program_id, &moebius_account_id, &authority).unwrap();

    // when the bridge account is not rent exempt.
    let mut accounts = bind(&ix, vec![blank_account(42, Moebius::LEN, program_id), rent_sysvar()]);
    assert_eq!(
        Err(MoebiusError::NotRentExempt.into()),
        Processor::process(&ix.program_id, &mut accounts, &ix.data).map(|_| ())
    );
    assert_eq!(accounts[0].data, vec![0u8; Moebius::LEN]);

    accounts[0].lamports = rent.minimum_balance(Moebius::LEN).unwrap();

    // create new bridge account.
    Processor::process(&ix.program_id, &mut accounts, &ix.data).unwrap();

    // create twice.
    let before = accounts[0].data.clone();
    assert_eq!(
        Err(MoebiusError::AlreadyInUse.into()),
        Processor::process(&ix.program_id, &mut accounts, &ix.data).map(|_| ())
    );
    assert_eq!(accounts[0].data, before);

    let moebius = Moebius::unpack(&accounts[0].data).unwrap();
    assert_eq!(moebius.is_initialized, true);
    assert_eq!(moebius.authority, authority);
}

#[test]
fn initialize_needs_two_accounts() {
    let mut accounts = vec![blank_account(10_000_000, Moebius::LEN, key(1))];
    assert_eq!(
        Processor::process_initialize(&mut accounts, key(2)),
        Err(ProgramError::NotEnoughAccountKeys)
    );
}

#[test]
fn initialize_reads_rent_from_the_sysvar_account() {
    let ix = initialize(&key(1), &key(2), &key(3)).unwrap();
    let mut not_sysvar = rent_sysvar();
    not_sysvar.key = key(5);
    let mut accounts = vec![blank_account(10_000_000, Moebius::LEN, key(1)), not_sysvar];
    assert_eq!(
        Processor::process(&ix.program_id, &mut accounts, &ix.data).map(|_| ()),
        Err(ProgramError::InvalidArgument)
    );
    let mut short = rent_sysvar();
    short.data.truncate(16);
    let mut accounts = vec![blank_account(10_000_000, Moebius::LEN, key(1)), short];
    assert_eq!(
        Processor::process(&ix.program_id, &mut accounts, &ix.data).map(|_| ()),
        Err(ProgramError::InvalidAccountData)
    );
    assert_eq!(accounts[0].data, vec![0u8; Moebius::LEN]);
}

#[test]
fn derivation_is_deterministic() {
    let seeds = vec![vec![1u8; 32], vec![2u8; 32]];
    let first = find_program_address(&seeds, &key(3));
    let second = find_program_address(&seeds, &key(3));
    assert!(first.is_some());
    assert_eq!(first, second);
    let expected = solana_program::pubkey::Pubkey::find_program_address(
        &[&[1u8; 32], &[2u8; 32]],
        &solana_program::pubkey::Pubkey::new_from_array([3u8; 32]),
    );
    let (address, bump) = first.unwrap();
    assert_eq!(address.to_bytes(), expected.0.to_bytes());
    assert_eq!(bump, expected.1);
    assert_eq!(derive_pair_address(&[1u8; 32], &[2u8; 32], &key(3)), first);
    assert_ne!(find_program_address(&seeds, &key(4)), first);
}

struct Bridge {
    program_id: Pubkey,
    authority: Pubkey,
    state: AccountInfo,
    target_program: Pubkey,
    target: AccountInfo,
    caller: Pubkey,
}

/// A bridge initialized with authority `A`, and a simple program account initialized to
/// accept writes from the bridge's derived caller address.
fn setup() -> Bridge {
    let rent = default_rent();
    let program_id = key(21);
    let authority = key(22);
    let state_key = key(23);
    let target_program = simple_program::id();
    let target_key = key(24);

    let ix = initialize(&program_id, &state_key, &authority).unwrap();
    let mut accounts = bind(
        &ix,
        vec![blank_account(rent.minimum_balance(Moebius::LEN).unwrap(), Moebius::LEN, program_id), rent_sysvar()],
    );
    Processor::process(&ix.program_id, &mut accounts, &ix.data).unwrap();
    let state = accounts.remove(0);

    let ix = simple_program::instruction::initialize(&target_program, &target_key, &program_id).unwrap();
    let mut accounts = bind(
        &ix,
        vec![blank_account(rent.minimum_balance(SimpleProgram::LEN).unwrap(), SimpleProgram::LEN, target_program), rent_sysvar()],
    );
    simple_program::processor::Processor::process(&ix.program_id, &mut accounts, &ix.data).unwrap();
    let target = accounts.remove(0);

    let (caller, _) = derive_pair_address(&target_program.to_bytes(), &target_key.to_bytes(), &program_id).unwrap();
    assert_eq!(SimpleProgram::unpack(&target.data).unwrap().authority, caller);
    Bridge { program_id, authority, state, target_program, target, caller }
}

/// Runs `UpdateData` signed by `signer`, then, as the ledger does, the call it yields,
/// with the derived caller as signer once the seeds reproduce its address.
fn relay(b: &mut Bridge, signer: Pubkey, caller: Pubkey, data: Vec<u8>) -> Result<(), ProgramError> {
    let ix = update_data(&b.program_id, &b.state.key, &signer, &caller, &b.target_program, &b.target.key, data).unwrap();
    let mut program = blank_account(1, 0, key(0));
    program.executable = true;
    let accounts = vec![
        AccountInfo { data: b.state.data.clone(), ..blank_account(b.state.lamports, 0, b.program_id) },
        blank_account(0, 0, key(0)),
        blank_account(0, 0, key(0)),
        program,
        AccountInfo { data: b.target.data.clone(), ..blank_account(b.target.lamports, 0, b.target_program) },
    ];
    let mut accounts = bind(&ix, accounts);
    let call = Processor::process(&ix.program_id, &mut accounts, &ix.data)?.unwrap();

    let seeds: Vec<&[u8]> = call.signer_seeds.iter().map(|s| s.as_slice()).collect();
    let signer_address = solana_program::pubkey::Pubkey::create_program_address(
        &seeds,
        &solana_program::pubkey::Pubkey::new_from_array(b.program_id.to_bytes()),
    )
    .unwrap();
    let target_accounts = vec![
        AccountInfo {
            is_signer: signer_address.to_bytes() == call.instruction.accounts[0].pubkey.to_bytes(),
            ..blank_account(0, 0, key(0))
        },
        AccountInfo { data: b.target.data.clone(), ..blank_account(b.target.lamports, 0, b.target_program) },
    ];
    let mut target_accounts = bind(&call.instruction, target_accounts);
    target_accounts[0].is_signer = signer_address.to_bytes() == call.instruction.accounts[0].pubkey.to_bytes();
    simple_program::processor::Processor::process(
        &call.instruction.program_id,
        &mut target_accounts,
        &call.instruction.data,
    )?;
    b.target.data = target_accounts.remove(1).data;
    Ok(())
}

#[test]
fn update_data_signed_by_authority_writes_target() {
    let mut b = setup();
    let zero = SimpleProgramInstruction::UpdateState { val_bytes32: [0u8; 32], val_address: [0u8; 20], val_uint256: [0u8; 32] };
    let (authority, caller) = (b.authority, b.caller);
    relay(&mut b, authority, caller, zero.pack()).unwrap();
    let state = SimpleProgram::unpack(&b.target.data).unwrap();
    assert_eq!(state.val_bytes32, [0u8; 32]);
    assert_eq!(state.val_address, [0u8; 20]);
    assert_eq!(state.val_uint256, [0u8; 32]);

    let values = SimpleProgramInstruction::UpdateState { val_bytes32: [1u8; 32], val_address: [2u8; 20], val_uint256: [3u8; 32] };
    relay(&mut b, authority, caller, values.pack()).unwrap();
    let state = SimpleProgram::unpack(&b.target.data).unwrap();
    assert_eq!(state.val_bytes32, [1u8; 32]);
    assert_eq!(state.val_address, [2u8; 20]);
    assert_eq!(state.val_uint256, [3u8; 32]);
    assert_eq!(state.authority, caller);
}

#[test]
fn update_data_signed_by_other_is_unauthorized() {
    let mut b = setup();
    let before = b.target.data.clone();
    let values = SimpleProgramInstruction::UpdateState { val_bytes32: [1u8; 32], val_address: [2u8; 20], val_uint256: [3u8; 32] };
    let caller = b.caller;
    assert_eq!(
        relay(&mut b, key(99), caller, values.pack()),
        Err(MoebiusError::Unauthorized.into())
    );
    assert_eq!(b.target.data, before);
}

#[test]
fn update_data_with_other_caller_is_derived_account_mismatch() {
    let mut b = setup();
    let before = b.target.data.clone();
    let authority = b.authority;
    assert_eq!(
        relay(&mut b, authority, key(98), vec![1u8; 97]),
        Err(MoebiusError::DerivedAccountMismatch.into())
    );
    assert_eq!(b.target.data, before);
}

#[test]
fn update_data_checks_signature_program_and_owner() {
    let b = setup();
    let ix = update_data(&b.program_id, &b.state.key, &b.authority, &b.caller, &b.target_program, &b.target.key, vec![]).unwrap();
    let mut program = blank_account(1, 0, key(0));
    program.executable = true;
    let fresh = |program: AccountInfo, owner: Pubkey| {
        bind(
            &ix,
            vec![
                AccountInfo { data: b.state.data.clone(), ..blank_account(1, 0, b.program_id) },
                blank_account(0, 0, key(0)),
                blank_account(0, 0, key(0)),
                program,
                blank_account(1, 0, owner),
            ],
        )
    };

    let mut accounts = fresh(AccountInfo { executable: true, ..blank_account(1, 0, key(0)) }, b.target_program);
    accounts[1].is_signer = false;
    assert_eq!(
        Processor::process_update_data(&b.program_id, &accounts, vec![]).map(|_| ()),
        Err(ProgramError::MissingRequiredSignature)
    );

    let accounts = fresh(blank_account(1, 0, key(0)), b.target_program);
    assert_eq!(
        Processor::process_update_data(&b.program_id, &accounts, vec![]).map(|_| ()),
        Err(MoebiusError::TargetProgramNotExecutable.into())
    );

    let accounts = fresh(AccountInfo { executable: true, ..blank_account(1, 0, key(0)) }, key(77));
    assert_eq!(
        Processor::process_update_data(&b.program_id, &accounts, vec![]).map(|_| ()),
        Err(MoebiusError::TargetOwnershipMismatch.into())
    );

    let accounts = fresh(AccountInfo { executable: true, ..blank_account(1, 0, key(0)) }, b.target_program);
    let call = Processor::process_update_data(&b.program_id, &accounts, vec![4, 5]).unwrap();
    assert_eq!(call.instruction.program_id, b.target_program);
    assert_eq!(call.instruction.data, vec![4, 5]);
    assert_eq!(call.instruction.accounts[0].pubkey, b.caller);
    assert!(call.instruction.accounts[0].is_signer);
    assert_eq!(call.instruction.accounts[1].pubkey, b.target.key);
    assert_eq!(call.signer_seeds[0], b.target_program.to_bytes().to_vec());
    assert_eq!(call.signer_seeds[1], b.target.key.to_bytes().to_vec());
    assert_eq!(call.signer_seeds.len(), 3);

    assert_eq!(
        Processor::process_update_data(&b.program_id, &accounts[..4].to_vec(), vec![]).map(|_| ()),
        Err(ProgramError::NotEnoughAccountKeys)
    );
}
