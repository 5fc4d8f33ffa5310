//! The relay: source-chain events in, bridge `UpdateData` instructions out, one event at a
//! time and stopping at the first failed broadcast.

use vstd::prelude::*;
use crate::account::{AccountInfo, AccountMeta, Instruction, ProgramError};
use crate::bridge::error::MoebiusError;
use crate::bridge::processor::update_data_result;
use crate::bridge::instruction::update_data;
use crate::pubkey::{derive_pair_address, pair_address, Pubkey};

verus! {

/// The source-chain event `MoebiusData(bytes32 programId, bytes32 accountId, bytes data)`.
#[derive(Clone, Debug, PartialEq)]
pub struct MoebiusDataFilter {
    pub program_id: [u8; 32],
    pub account_id: [u8; 32],
    pub packed_data: Vec<u8>,
}

impl MoebiusDataFilter {
    /// The event's ABI signature.
    pub fn abi_signature() -> (r: &'static str)
        ensures
            r@ == "MoebiusData(bytes32,bytes32,bytes)"@,
    {
        "MoebiusData(bytes32,bytes32,bytes)"
    }

    /// The event's topic: the Keccak-256 hash of its ABI signature.
    pub fn signature() -> (r: [u8; 32])
        ensures
            r@ == seq![
                223u8, 154, 9, 116, 160, 119, 53, 228, 130, 126, 152, 4, 29, 185, 188, 201, 234,
                183, 51, 63, 11, 175, 6, 70, 19, 215, 79, 136, 211, 255, 72, 16,
            ],
    {
        let r: [u8; 32] = [
            223, 154, 9, 116, 160, 119, 53, 228, 130, 126, 152, 4, 29, 185, 188, 201, 234, 183, 51,
            63, 11, 175, 6, 70, 19, 215, 79, 136, 211, 255, 72, 16,
        ];
        assert(r@ =~= seq![
            223u8, 154, 9, 116, 160, 119, 53, 228, 130, 126, 152, 4, 29, 185, 188, 201, 234,
            183, 51, 63, 11, 175, 6, 70, 19, 215, 79, 136, 211, 255, 72, 16,
        ]);
        r
    }
}

/// Builds the transaction's instructions that relay `data` to `target_account` through
/// `target_program`: one `UpdateData` to the bridge program `moebius_program_id`, naming
/// the caller address derived from the target pair under the bridge program: the
/// instruction that `update_data` builds for these accounts.
pub fn instruction_update_data(
    moebius_program_id: &Pubkey,
    moebius_account: &Pubkey,
    authority: &Pubkey,
    target_program: &Pubkey,
    target_account: &Pubkey,
    data: Vec<u8>,
) -> (r: Result<Vec<Instruction>, ProgramError>)
    ensures
        pair_address(target_program@, target_account@, moebius_program_id@) is None ==> r
            == Err::<Vec<Instruction>, ProgramError>(ProgramError::InvalidSeeds),
        pair_address(target_program@, target_account@, moebius_program_id@) matches Some((caller, _))
            ==> {
            &&& r is Ok
            &&& r.unwrap()@.len() == 1
            &&& r.unwrap()@[0].program_id == *moebius_program_id
            &&& r.unwrap()@[0].data@ == (crate::bridge::instruction::MoebiusInstruction::UpdateData {
                data,
            }).spec_pack()
            &&& r.unwrap()@[0].accounts@ == seq![
                AccountMeta { pubkey: *moebius_account, is_signer: false, is_writable: true },
                AccountMeta { pubkey: *authority, is_signer: true, is_writable: true },
                AccountMeta { pubkey: Pubkey { bytes: caller }, is_signer: false, is_writable: true },
                AccountMeta { pubkey: *target_program, is_signer: false, is_writable: true },
                AccountMeta { pubkey: *target_account, is_signer: false, is_writable: true },
            ]
        },
{
    let caller_account = match derive_pair_address(
        target_program.bytes.as_slice(),
        target_account.bytes.as_slice(),
        moebius_program_id,
    ) {
        Some((caller_account, _)) => caller_account,
        None => return Err(ProgramError::InvalidSeeds),
    };
    let instruction = match update_data(
        moebius_program_id,
        moebius_account,
        authority,
        &caller_account,
        target_program,
        target_account,
        data,
    ) {
        Ok(instruction) => instruction,
        Err(e) => return Err(e),
    };
    let mut instructions: Vec<Instruction> = Vec::new();
    instructions.push(instruction);
    Ok(instructions)
}

/// The relay and the bridge agree on the caller: when the caller account handed to the
/// bridge is the address derived from the target pair under the bridge's id, as
/// `instruction_update_data` names it, the bridge's own derivation does not refuse it.
pub proof fn lemma_relayed_caller_is_accepted(
    program_id: Pubkey,
    accounts: Seq<AccountInfo>,
    caller: [u8; 32],
    bump: u8,
)
    requires
        accounts.len() >= 5,
        pair_address(accounts[3].key@, accounts[4].key@, program_id@) == Some((caller, bump)),
        accounts[2].key.bytes == caller,
    ensures
        update_data_result(program_id, accounts) != Err::<([u8; 32], u8), ProgramError>(
            MoebiusError::DerivedAccountMismatch.spec_into(),
        ),
{
}

/// Where the relay stands.
#[derive(Clone, Copy, Debug, PartialEq, Eq, Structural)]
pub enum RelayState {
    /// Waiting for the next event.
    Watching,
    /// A broadcast is in flight; no other event is taken until it completes.
    Broadcasting,
    /// The relay has stopped.
    Stopped,
}

/// What the relay learns next.
#[derive(Debug)]
pub enum RelayInput {
    /// A log entry of the subscribed event type; `None` where it did not decode.
    Log(Option<MoebiusDataFilter>),
    /// The broadcast in flight completed, successfully or not.
    Broadcasted(bool),
    /// The event stream ended.
    StreamEnded,
}

/// What the relay does next.
#[derive(Debug)]
pub enum RelayAction {
    /// Broadcast this event and report back.
    Broadcast(MoebiusDataFilter),
    /// Wait for the next input.
    Wait,
    /// Stop: `true` where the stream ended, `false` where a broadcast failed.
    Finish(bool),
}

/// Inputs that can arrive in a state: events only while watching, a broadcast's completion
/// only while broadcasting; nothing once stopped.
pub open spec fn input_fits(state: RelayState, input: RelayInput) -> bool {
    match input {
        RelayInput::Log(_) => state == RelayState::Watching,
        RelayInput::StreamEnded => state == RelayState::Watching,
        RelayInput::Broadcasted(_) => state == RelayState::Broadcasting,
    }
}

/// The relay's decision on one input: undecodable log entries are skipped, each event is
/// broadcast before the next is read, and the first failed broadcast stops the relay.
pub fn relay_step(state: RelayState, input: RelayInput) -> (r: (RelayState, RelayAction))
    requires
        input_fits(state, input),
    ensures
        match input {
            RelayInput::Log(None) => r.0 == RelayState::Watching && r.1 is Wait,
            RelayInput::Log(Some(event)) => r.0 == RelayState::Broadcasting && r.1 == RelayAction::Broadcast(event),
            RelayInput::Broadcasted(true) => r.0 == RelayState::Watching && r.1 is Wait,
            RelayInput::Broadcasted(false) => r.0 == RelayState::Stopped && r.1 == RelayAction::Finish(false),
            RelayInput::StreamEnded => r.0 == RelayState::Stopped && r.1 == RelayAction::Finish(true),
        },
{
    match input {
        RelayInput::Log(None) => (RelayState::Watching, RelayAction::Wait),
        RelayInput::Log(Some(event)) => (RelayState::Broadcasting, RelayAction::Broadcast(event)),
        RelayInput::Broadcasted(ok) => {
            if ok {
                (RelayState::Watching, RelayAction::Wait)
            } else {
                (RelayState::Stopped, RelayAction::Finish(false))
            }
        },
        RelayInput::StreamEnded => (RelayState::Stopped, RelayAction::Finish(true)),
    }
}

/// A fee payer's balance falls short of what the transaction needs.
#[derive(Clone, Copy, Debug, PartialEq, Eq, Structural)]
pub struct InsufficientBalance {
    pub required: u64,
    pub available: u64,
}

/// Checks that the fee payer's `balance` covers `required_balance`.
pub fn check_fee_payer_balance(balance: u64, required_balance: u64) -> (r: Result<(), InsufficientBalance>)
    ensures
        balance >= required_balance <==> r is Ok,
        balance < required_balance ==> r == Err::<(), InsufficientBalance>(
            InsufficientBalance { required: required_balance, available: balance },
        ),
{
    if balance < required_balance {
        Err(InsufficientBalance { required: required_balance, available: balance })
    } else {
        Ok(())
    }
}

} // verus!
