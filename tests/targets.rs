use moebius::account::{AccountInfo, Instruction, ProgramError, Rent, SystemCall};
use moebius::another_program::error::AnotherError;
use moebius::another_program::instruction::AnotherInstruction;
use moebius::another_program::state::AnotherState;
use moebius::pubkey::{derive_pair_address, Pubkey};
use moebius::simple_program::error::SimpleProgramError;
use moebius::simple_program::instruction::{initialize, update_state, SimpleProgramInstruction};
use moebius::simple_program::processor::Processor;
use moebius::simple_program::state::SimpleProgram;
use moebius::uniswap_oracle;
use moebius::uniswap_oracle::error::UniswapOracleError;
use moebius::uniswap_oracle::instruction::UniswapOracleInstruction;
use moebius::uniswap_oracle::state::UniswapOracle;

/// The rent sysvar account, holding the ledger's default parameters.
#[allow(deprecated)]
fn rent_sysvar() -> AccountInfo {
    let rent = solana_program::rent::Rent::default();
    let mut data = rent.lamports_per_byte.to_le_bytes().to_vec();
    data.extend_from_slice(&rent.exemption_threshold);
    data.push(rent.burn_percent);
    AccountInfo {
        key: moebius::account::rent_sysvar_id(),
        is_signer: false,
        is_writable: false,
        lamports: 1,
        data,
        owner: key(0),
        executable: false,
    }
}

fn default_rent() -> Rent {
    Rent::from_account(&rent_sysvar()).unwrap()
}

fn key(b: u8) -> Pubkey {
    Pubkey::new_from_array([b; 32])
}

fn pattern<const N: usize>(start: u8) -> [u8; N] {
    let mut out = [0u8; N];
    for (i, b) in out.iter_mut().enumerate() {
        *b = start.wrapping_add((i as u8).wrapping_mul(7));
    }
    out
}

fn blank_account(lamports: u64, len: usize, owner: Pubkey) -> AccountInfo {
    AccountInfo {
        key: key(0),
        is_signer: false,
        is_writable: true,
        lamports,
        data: vec![0u8; len],
        owner,
        executable: false,
    }
}

fn bind(instruction: &Instruction, accounts: Vec<AccountInfo>) -> Vec<AccountInfo> {
    instruction
        .accounts
        .iter()
        .zip(accounts)
        .map(|(meta, mut account)| {
            account.key = meta.pubkey;
            account.is_signer = meta.is_signer;
            account
        })
        .collect()
}

#[test]
fn instruction_test_update_state_packing() {
    let val_bytes32: [u8; 32] = pattern(1);
    let val_address: [u8; 20] = pattern(2);
    let val_uint256: [u8; 32] = pattern(3);
    let check = SimpleProgramInstruction::UpdateState { val_bytes32, val_address, val_uint256 };
    let packed = check.pack();
    let mut expect = vec![1u8];
    expect.extend_from_slice(&val_bytes32);
    expect.extend_from_slice(&[0u8; 12]);
    expect.extend_from_slice(&val_address);
    expect.extend_from_slice(&val_uint256);
    assert_eq!(packed, expect);
    let unpacked = SimpleProgramInstruction::unpack(&expect).unwrap();
    assert_eq!(unpacked, check);

    let token0: [u8; 20] = pattern(4);
    let amount0: [u8; 32] = pattern(5);
    let token1: [u8; 20] = pattern(6);
    let amount1: [u8; 32] = pattern(7);
    let check = UniswapOracleInstruction::UpdateState { token0, amount0, token1, amount1 };
    let packed = check.pack();
    let mut expect = vec![1u8];
    expect.extend_from_slice(&[0u8; 12]);
    expect.extend_from_slice(&token0);
    expect.extend_from_slice(&amount0);
    expect.extend_from_slice(&[0u8; 12]);
    expect.extend_from_slice(&token1);
    expect.extend_from_slice(&amount1);
    assert_eq!(packed, expect);
    let unpacked = UniswapOracleInstruction::unpack(&expect).unwrap();
    assert_eq!(unpacked, check);
}

#[test]
fn padding_of_address_slots_is_ignored_on_decode() {
    let mut bytes = SimpleProgramInstruction::UpdateState { val_bytes32: [1; 32], val_address: [2; 20], val_uint256: [3; 32] }.pack();
    bytes[5] = 0xaa;
    assert_eq!(
        SimpleProgramInstruction::unpack(&bytes),
        Ok(SimpleProgramInstruction::UpdateState { val_bytes32: {
            let mut v = [1u8; 32];
            v[4] = 0xaa;
            v
        }, val_address: [2; 20], val_uint256: [3; 32] })
    );
    bytes[40] = 0xbb;
    assert_eq!(
        SimpleProgramInstruction::unpack(&bytes).map(|i| match i {
            SimpleProgramInstruction::UpdateState { val_address, .. } => val_address,
            _ => [0u8; 20],
        }),
        Ok([2u8; 20])
    );
    assert_eq!(
        SimpleProgramInstruction::unpack(&bytes[..96]),
        Err(SimpleProgramError::InvalidInstruction.into())
    );
    assert_eq!(SimpleProgramInstruction::unpack(&[7u8; 100]), Err(SimpleProgramError::InvalidInstruction.into()));
    assert_eq!(
        UniswapOracleInstruction::unpack(&[0u8; 74]),
        Err(UniswapOracleError::InvalidInstruction.into())
    );
    assert_eq!(UniswapOracleInstruction::unpack(&[1u8; 128]), Err(ProgramError::Custom(3)));
}

#[test]
fn another_program_layout() {
    let init = AnotherInstruction::Initialize { moebius_program_id: key(1), id: [2; 32], token: [3; 20] };
    let packed = init.pack();
    let mut expect = vec![0u8];
    expect.extend_from_slice(&[1u8; 32]);
    expect.extend_from_slice(&[2u8; 32]);
    expect.extend_from_slice(&[3u8; 20]);
    assert_eq!(packed, expect);
    assert_eq!(AnotherInstruction::unpack(&packed), Ok(init));

    let update = AnotherInstruction::UpdateState { id: [4; 32], token: [5; 20], amount: [6; 32] };
    let packed = update.pack();
    let mut expect = vec![1u8];
    expect.extend_from_slice(&[4u8; 32]);
    expect.extend_from_slice(&[0u8; 12]);
    expect.extend_from_slice(&[5u8; 20]);
    expect.extend_from_slice(&[6u8; 32]);
    assert_eq!(packed, expect);
    assert_eq!(AnotherInstruction::unpack(&packed), Ok(update));
    assert_eq!(AnotherInstruction::unpack(&packed[..50]), Err(AnotherError::InvalidInstruction.into()));

    let state = AnotherState { is_initialized: true, authority: key(8), id: [9; 32], token: [10; 20], amount: [11; 32] };
    let bytes = state.to_vec();
    assert_eq!(bytes.len(), AnotherState::LEN);
    assert_eq!(AnotherState::unpack_unchecked(&bytes), Ok(state));
}

#[test]
fn state_records_round_trip() {
    let s = SimpleProgram { is_initialized: true, authority: key(3), val_bytes32: pattern(1), val_address: pattern(2), val_uint256: pattern(3) };
    let mut buf = vec![0u8; SimpleProgram::LEN];
    SimpleProgram::pack(s, &mut buf).unwrap();
    assert_eq!(buf[0], 1);
    assert_eq!(&buf[65..85], &s.val_address[..]);
    assert_eq!(SimpleProgram::unpack(&buf), Ok(s));

    let o = UniswapOracle {
        is_initialized: true,
        authority: key(4),
        token0: pattern(5),
        decimal0: 9,
        amount0: pattern(6),
        token1: pattern(7),
        decimal1: 18,
        amount1: pattern(8),
    };
    let mut buf = vec![0u8; UniswapOracle::LEN + 3];
    o.pack_into_slice(&mut buf);
    assert_eq!(&buf[33..53], &o.token0[..]);
    assert_eq!(buf[53], 9);
    assert_eq!(buf[106], 18);
    assert_eq!(UniswapOracle::unpack_from_slice(&buf), o);
    assert_eq!(UniswapOracle::unpack_unchecked(&buf), Err(ProgramError::InvalidAccountData));
}

#[test]
fn target_programs_initialize() {
    let rent = default_rent();
    let program_id = key(31);
    let simple_program_account_id = key(32);
    let moebius_program_id = key(33);
    let ix = initialize(&program_id, &simple_program_account_id, &moebius_program_id).unwrap();
    let mut accounts = bind(&ix, vec![blank_account(42, SimpleProgram::LEN, program_id), rent_sysvar()]);

    // when the account is not rent exempt.
    assert_eq!(
        Err(SimpleProgramError::NotRentExempt.into()),
        Processor::process(&ix.program_id, &mut accounts, &ix.data)
    );

    accounts[0].lamports = rent.minimum_balance(SimpleProgram::LEN).unwrap();
    Processor::process(&ix.program_id, &mut accounts, &ix.data).unwrap();

    // create twice.
    assert_eq!(
        Err(SimpleProgramError::AlreadyInUse.into()),
        Processor::process(&ix.program_id, &mut accounts, &ix.data)
    );

    let simple_program = SimpleProgram::unpack(&accounts[0].data).unwrap();
    let (expected_authority, _) = derive_pair_address(
        &program_id.to_bytes(),
        &simple_program_account_id.to_bytes(),
        &moebius_program_id,
    )
    .unwrap();
    assert_eq!(simple_program.is_initialized, true);
    assert_eq!(simple_program.authority, expected_authority);

    // the oracle program.
    let program_id = key(41);
    let token0: [u8; 20] = pattern(9);
    let token1: [u8; 20] = pattern(10);
    let decimal0 = 9u8;
    let decimal1 = 18u8;
    let (oracle_id, _) = derive_pair_address(&token0, &token1, &program_id).unwrap();
    let payer_id = key(42);
    let ix = uniswap_oracle::instruction::initialize(
        &program_id, &oracle_id, &moebius_program_id, &payer_id, token0, decimal0, token1, decimal1,
    )
    .unwrap();
    let mut accounts = bind(
        &ix,
        vec![
            blank_account(rent.minimum_balance(UniswapOracle::LEN).unwrap(), 0, key(0)),
            blank_account(0, UniswapOracle::LEN, program_id),
            blank_account(0, 0, key(0)),
            rent_sysvar(),
        ],
    );
    let calls = uniswap_oracle::processor::Processor::process(&ix.program_id, &mut accounts, &ix.data).unwrap();
    assert_eq!(calls.len(), 3);
    assert_eq!(
        calls[0].call,
        SystemCall::Transfer { from: payer_id, to: oracle_id, lamports: rent.minimum_balance(UniswapOracle::LEN).unwrap() }
    );
    assert_eq!(calls[1].call, SystemCall::Allocate { account: oracle_id, space: UniswapOracle::LEN as u64 });
    assert_eq!(calls[2].call, SystemCall::Assign { account: oracle_id, owner: program_id });
    assert_eq!(calls[2].signer_seeds[0], token0.to_vec());

    // create twice.
    assert_eq!(
        Err(UniswapOracleError::AlreadyInUse.into()),
        uniswap_oracle::processor::Processor::process(&ix.program_id, &mut accounts, &ix.data).map(|_| ())
    );

    let uniswap_oracle = UniswapOracle::unpack(&accounts[1].data).unwrap();
    let (expected_authority, _) =
        derive_pair_address(&program_id.to_bytes(), &oracle_id.to_bytes(), &moebius_program_id).unwrap();
    assert_eq!(uniswap_oracle.is_initialized, true);
    assert_eq!(uniswap_oracle.authority, expected_authority);
    assert_eq!(uniswap_oracle.token0, token0);
    assert_eq!(uniswap_oracle.decimal0, decimal0);
    assert_eq!(uniswap_oracle.amount0, [0u8; 32]);
    assert_eq!(uniswap_oracle.token1, token1);
    assert_eq!(uniswap_oracle.decimal1, decimal1);
    assert_eq!(uniswap_oracle.amount1, [0u8; 32]);
}

#[test]
fn any_nonzero_first_byte_marks_an_account_in_use() {
    let rent = default_rent();
    let program_id = key(81);
    let ix = initialize(&program_id, &key(82), &key(83)).unwrap();
    let mut account = blank_account(rent.minimum_balance(SimpleProgram::LEN).unwrap(), SimpleProgram::LEN, program_id);
    account.data[0] = 2;
    let mut accounts = bind(&ix, vec![account, rent_sysvar()]);
    let before = accounts[0].data.clone();
    assert_eq!(
        Processor::process(&ix.program_id, &mut accounts, &ix.data),
        Err(SimpleProgramError::AlreadyInUse.into())
    );
    assert_eq!(accounts[0].data, before);

    let token0 = [1u8; 20];
    let token1 = [2u8; 20];
    let (oracle_id, _) = derive_pair_address(&token0, &token1, &program_id).unwrap();
    let ix = uniswap_oracle::instruction::initialize(&program_id, &oracle_id, &key(84), &key(85), token0, 6, token1, 6).unwrap();
    let mut oracle = blank_account(0, 1, program_id);
    oracle.data[0] = 7;
    let mut accounts = bind(&ix, vec![blank_account(0, 0, key(0)), oracle, blank_account(0, 0, key(0)), rent_sysvar()]);
    assert_eq!(
        uniswap_oracle::processor::Processor::process(&ix.program_id, &mut accounts, &ix.data).map(|_| ()),
        Err(UniswapOracleError::AlreadyInUse.into())
    );
    assert_eq!(accounts[1].data, vec![7u8]);
}

#[test]
fn oracle_account_must_be_derived_from_pair() {
    let rent = default_rent();
    let program_id = key(51);
    let ix = uniswap_oracle::instruction::initialize(&program_id, &key(52), &key(53), &key(54), [1; 20], 9, [2; 20], 9).unwrap();
    let mut accounts = bind(
        &ix,
        vec![blank_account(0, 0, key(0)), blank_account(0, UniswapOracle::LEN, program_id), blank_account(0, 0, key(0)), rent_sysvar()],
    );
    assert_eq!(
        uniswap_oracle::processor::Processor::process(&ix.program_id, &mut accounts, &ix.data).map(|_| ()),
        Err(UniswapOracleError::DerivedAccountMismatch.into())
    );
    assert_eq!(accounts[1].data, vec![0u8; UniswapOracle::LEN]);
}

#[test]
fn processor_test_update_state() {
    let rent = default_rent();
    let program_id = key(61);
    let simple_program_account_id = key(62);
    let moebius_program_id = key(63);
    let (authority_key, _) = derive_pair_address(
        &program_id.to_bytes(),
        &simple_program_account_id.to_bytes(),
        &moebius_program_id,
    )
    .unwrap();
    let ix = initialize(&program_id, &simple_program_account_id, &moebius_program_id).unwrap();
    let mut accounts = bind(
        &ix,
        vec![blank_account(rent.minimum_balance(SimpleProgram::LEN).unwrap(), SimpleProgram::LEN, program_id), rent_sysvar()],
    );
    Processor::process(&ix.program_id, &mut accounts, &ix.data).unwrap();
    let account = accounts.remove(0);

    let new_val_bytes32: [u8; 32] = pattern(11);
    let new_val_address: [u8; 20] = pattern(12);
    let new_val_uint256: [u8; 32] = pattern(13);
    let not_authority = key(64);
    let ix = update_state(&program_id, &simple_program_account_id, &not_authority, new_val_bytes32, new_val_address, new_val_uint256).unwrap();
    let mut accounts = bind(&ix, vec![blank_account(0, 0, key(0)), account.clone()]);
    assert_eq!(
        Err(SimpleProgramError::Unauthorized.into()),
        Processor::process(&ix.program_id, &mut accounts, &ix.data)
    );
    assert_eq!(accounts[1].data, account.data);

    let ix = update_state(&program_id, &simple_program_account_id, &authority_key, new_val_bytes32, new_val_address, new_val_uint256).unwrap();
    let mut accounts = bind(&ix, vec![blank_account(0, 0, key(0)), account.clone()]);
    assert!(Processor::process(&ix.program_id, &mut accounts, &ix.data).is_ok());
    let new_state = SimpleProgram::unpack(&accounts[1].data).unwrap();
    assert_eq!(new_state.val_bytes32, new_val_bytes32);
    assert_eq!(new_state.val_address, new_val_address);
    assert_eq!(new_state.val_uint256, new_val_uint256);

    // unsigned by the authority.
    let mut accounts = bind(&ix, vec![blank_account(0, 0, key(0)), account.clone()]);
    accounts[0].is_signer = false;
    assert_eq!(Processor::process(&ix.program_id, &mut accounts, &ix.data), Err(ProgramError::MissingRequiredSignature));

    // the oracle program.
    let program_id = key(71);
    let token0: [u8; 20] = pattern(14);
    let token1: [u8; 20] = pattern(15);
    let (oracle_id, _) = derive_pair_address(&token0, &token1, &program_id).unwrap();
    let (authority_key, _) = derive_pair_address(&program_id.to_bytes(), &oracle_id.to_bytes(), &moebius_program_id).unwrap();
    let ix = uniswap_oracle::instruction::initialize(&program_id, &oracle_id, &moebius_program_id, &key(72), token0, 18, token1, 18).unwrap();
    let mut accounts = bind(
        &ix,
        vec![blank_account(0, 0, key(0)), blank_account(0, UniswapOracle::LEN, program_id), blank_account(0, 0, key(0)), rent_sysvar()],
    );
    uniswap_oracle::processor::Processor::process(&ix.program_id, &mut accounts, &ix.data).unwrap();
    let account = accounts.remove(1);

    let new_amount0: [u8; 32] = pattern(16);
    let new_amount1: [u8; 32] = pattern(17);
    let ix = uniswap_oracle::instruction::update_state(&program_id, &oracle_id, &key(73), token0, new_amount0, token1, new_amount1).unwrap();
    let mut accounts = bind(&ix, vec![blank_account(0, 0, key(0)), account.clone()]);
    assert_eq!(
        Err(UniswapOracleError::Unauthorized.into()),
        uniswap_oracle::processor::Processor::process(&ix.program_id, &mut accounts, &ix.data).map(|_| ())
    );

    // a wrong authority is refused as such, whatever pair it names.
    let ix = uniswap_oracle::instruction::update_state(&program_id, &oracle_id, &key(73), token1, new_amount0, token0, new_amount1).unwrap();
    let mut accounts = bind(&ix, vec![blank_account(0, 0, key(0)), account.clone()]);
    assert_eq!(
        Err(UniswapOracleError::Unauthorized.into()),
        uniswap_oracle::processor::Processor::process(&ix.program_id, &mut accounts, &ix.data).map(|_| ())
    );
    assert_eq!(accounts[1].data, account.data);

    let ix = uniswap_oracle::instruction::update_state(&program_id, &oracle_id, &authority_key, token1, new_amount0, token0, new_amount1).unwrap();
    let mut accounts = bind(&ix, vec![blank_account(0, 0, key(0)), account.clone()]);
    assert_eq!(
        Err(UniswapOracleError::InvalidAccount.into()),
        uniswap_oracle::processor::Processor::process(&ix.program_id, &mut accounts, &ix.data).map(|_| ())
    );

    // the pair is checked before the signature.
    let mut accounts = bind(&ix, vec![blank_account(0, 0, key(0)), account.clone()]);
    accounts[0].is_signer = false;
    assert_eq!(
        Err(UniswapOracleError::InvalidAccount.into()),
        uniswap_oracle::processor::Processor::process(&ix.program_id, &mut accounts, &ix.data).map(|_| ())
    );
    assert_eq!(accounts[1].data, account.data);

    let ix = uniswap_oracle::instruction::update_state(&program_id, &oracle_id, &authority_key, token0, new_amount0, token1, new_amount1).unwrap();
    let mut accounts = bind(&ix, vec![blank_account(0, 0, key(0)), account.clone()]);
    assert!(uniswap_oracle::processor::Processor::process(&ix.program_id, &mut accounts, &ix.data).is_ok());
    let new_state = UniswapOracle::unpack(&accounts[1].data).unwrap();
    assert_eq!(new_state.token0, token0);
    assert_eq!(new_state.amount0, new_amount0);
    assert_eq!(new_state.token1, token1);
    assert_eq!(new_state.amount1, new_amount1);
    assert_eq!(new_state.decimal0, 18);
}
