//! Fee metering: a flat operation-name to lamport-amount table administered
//! by one privileged identity. Every core operation charges its fee last;
//! the decision logic lives here, while the lamport movement itself is the
//! hosting ledger's work.

use vstd::prelude::*;

use crate::errors::ErrorCode;
use crate::state::Address;

verus! {

/// The fee every operation starts out with when the schedule is created.
pub const INITIAL_FEE_LAMPORTS: u64 = 666;

/// The fee schedule: one lamport amount per operation.
#[derive(Debug)]
pub struct FeeController {
    pub initialize_dao: u64,
    pub initialize_stream: u64,
    pub reactivate_stream: u64,
    pub propose_dao_command: u64,
    pub approve_dao_command: u64,
    pub execute_update_dao_multisig: u64,
    pub execute_deactivate_stream: u64,
    pub execute_withdraw_from_stream: u64,
    pub initialize_stake: u64,
    pub stake_nft: u64,
    pub unstake_nft: u64,
    pub initialize_connection: u64,
    pub connect_to_stream: u64,
    pub claim_from_stream: u64,
    pub disconnect_from_stream: u64,
}

/// The fee schedule with every entry set to the initial amount.
pub open spec fn initial_fee_controller() -> FeeController {
    FeeController {
        initialize_dao: INITIAL_FEE_LAMPORTS,
        initialize_stream: INITIAL_FEE_LAMPORTS,
        reactivate_stream: INITIAL_FEE_LAMPORTS,
        propose_dao_command: INITIAL_FEE_LAMPORTS,
        approve_dao_command: INITIAL_FEE_LAMPORTS,
        execute_update_dao_multisig: INITIAL_FEE_LAMPORTS,
        execute_deactivate_stream: INITIAL_FEE_LAMPORTS,
        execute_withdraw_from_stream: INITIAL_FEE_LAMPORTS,
        initialize_stake: INITIAL_FEE_LAMPORTS,
        stake_nft: INITIAL_FEE_LAMPORTS,
        unstake_nft: INITIAL_FEE_LAMPORTS,
        initialize_connection: INITIAL_FEE_LAMPORTS,
        connect_to_stream: INITIAL_FEE_LAMPORTS,
        claim_from_stream: INITIAL_FEE_LAMPORTS,
        disconnect_from_stream: INITIAL_FEE_LAMPORTS,
    }
}

/// The schedule after setting the entry named by `name` to `fee`, or `None`
/// when `name` is no operation of the schedule. The first matching entry
/// wins, exactly as the setter tries them.
pub open spec fn updated_fee_controller(fc: FeeController, name: Seq<char>, fee: u64) -> Option<
    FeeController,
> {
    if name == "initialize_dao"@ {
        Some(FeeController { initialize_dao: fee, ..fc })
    } else if name == "initialize_stream"@ {
        Some(FeeController { initialize_stream: fee, ..fc })
    } else if name == "reactivate_stream"@ {
        Some(FeeController { reactivate_stream: fee, ..fc })
    } else if name == "propose_dao_command"@ {
        Some(FeeController { propose_dao_command: fee, ..fc })
    } else if name == "approve_dao_command"@ {
        Some(FeeController { approve_dao_command: fee, ..fc })
    } else if name == "execute_update_dao_multisig"@ {
        Some(FeeController { execute_update_dao_multisig: fee, ..fc })
    } else if name == "execute_deactivate_stream"@ {
        Some(FeeController { execute_deactivate_stream: fee, ..fc })
    } else if name == "execute_withdraw_from_stream"@ {
        Some(FeeController { execute_withdraw_from_stream: fee, ..fc })
    } else if name == "initialize_stake"@ {
        Some(FeeController { initialize_stake: fee, ..fc })
    } else if name == "stake_nft"@ {
        Some(FeeController { stake_nft: fee, ..fc })
    } else if name == "unstake_nft"@ {
        Some(FeeController { unstake_nft: fee, ..fc })
    } else if name == "initialize_connection"@ {
        Some(FeeController { initialize_connection: fee, ..fc })
    } else if name == "connect_to_stream"@ {
        Some(FeeController { connect_to_stream: fee, ..fc })
    } else if name == "claim_from_stream"@ {
        Some(FeeController { claim_from_stream: fee, ..fc })
    } else if name == "disconnect_from_stream"@ {
        Some(FeeController { disconnect_from_stream: fee, ..fc })
    } else {
        None
    }
}

/// Creates the fee schedule. Only the fee administrator may do so; every
/// entry starts at the initial amount.
pub fn initialize_fee_controller(signer: Address, fee_mod_address: Address) -> (r: Result<
    FeeController,
    ErrorCode,
>)
    ensures
        r is Ok <==> signer == fee_mod_address,
        signer != fee_mod_address <==> r == Err::<FeeController, ErrorCode>(
            ErrorCode::InvalidFeeModAddress,
        ),
        r is Ok ==> r->Ok_0 == initial_fee_controller(),
{
    if signer != fee_mod_address {
        return Err(ErrorCode::InvalidFeeModAddress);
    }
    Ok(
        FeeController {
            initialize_dao: INITIAL_FEE_LAMPORTS,
            initialize_stream: INITIAL_FEE_LAMPORTS,
            reactivate_stream: INITIAL_FEE_LAMPORTS,
            propose_dao_command: INITIAL_FEE_LAMPORTS,
            approve_dao_command: INITIAL_FEE_LAMPORTS,
            execute_update_dao_multisig: INITIAL_FEE_LAMPORTS,
            execute_deactivate_stream: INITIAL_FEE_LAMPORTS,
            execute_withdraw_from_stream: INITIAL_FEE_LAMPORTS,
            initialize_stake: INITIAL_FEE_LAMPORTS,
            stake_nft: INITIAL_FEE_LAMPORTS,
            unstake_nft: INITIAL_FEE_LAMPORTS,
            initialize_connection: INITIAL_FEE_LAMPORTS,
            connect_to_stream: INITIAL_FEE_LAMPORTS,
            claim_from_stream: INITIAL_FEE_LAMPORTS,
            disconnect_from_stream: INITIAL_FEE_LAMPORTS,
        },
    )
}

/// Sets one entry of the fee schedule. Only the fee administrator may
/// change fees; an unknown operation name is rejected and leaves the
/// schedule untouched.
pub fn update_fee_controller(
    fee_controller: &mut FeeController,
    signer: Address,
    fee_mod_address: Address,
    instruction_name: &String,
    new_fee_amount_lamports: u64,
) -> (r: Result<(), ErrorCode>)
    ensures
        signer != fee_mod_address <==> r == Err::<(), ErrorCode>(ErrorCode::InvalidFeeModAddress),
        signer == fee_mod_address ==> match updated_fee_controller(
            *old(fee_controller),
            instruction_name@,
            new_fee_amount_lamports,
        ) {
            Some(updated) => r is Ok && *final(fee_controller) == updated,
            None => r == Err::<(), ErrorCode>(ErrorCode::InvalidInstructionName),
        },
        r is Err ==> *final(fee_controller) == *old(fee_controller),
{
    if signer != fee_mod_address {
        return Err(ErrorCode::InvalidFeeModAddress);
    }
    if *instruction_name == String::from_str("initialize_dao") {
        fee_controller.initialize_dao = new_fee_amount_lamports;
    } else if *instruction_name == String::from_str("initialize_stream") {
        fee_controller.initialize_stream = new_fee_amount_lamports;
    } else if *instruction_name == String::from_str("reactivate_stream") {
        fee_controller.reactivate_stream = new_fee_amount_lamports;
    } else if *instruction_name == String::from_str("propose_dao_command") {
        fee_controller.propose_dao_command = new_fee_amount_lamports;
    } else if *instruction_name == String::from_str("approve_dao_command") {
        fee_controller.approve_dao_command = new_fee_amount_lamports;
    } else if *instruction_name == String::from_str("execute_update_dao_multisig") {
        fee_controller.execute_update_dao_multisig = new_fee_amount_lamports;
    } else if *instruction_name == String::from_str("execute_deactivate_stream") {
        fee_controller.execute_deactivate_stream = new_fee_amount_lamports;
    } else if *instruction_name == String::from_str("execute_withdraw_from_stream") {
        fee_controller.execute_withdraw_from_stream = new_fee_amount_lamports;
    } else if *instruction_name == String::from_str("initialize_stake") {
        fee_controller.initialize_stake = new_fee_amount_lamports;
    } else if *instruction_name == String::from_str("stake_nft") {
        fee_controller.stake_nft = new_fee_amount_lamports;
    } else if *instruction_name == String::from_str("unstake_nft") {
        fee_controller.unstake_nft = new_fee_amount_lamports;
    } else if *instruction_name == String::from_str("initialize_connection") {
        fee_controller.initialize_connection = new_fee_amount_lamports;
    } else if *instruction_name == String::from_str("connect_to_stream") {
        fee_controller.connect_to_stream = new_fee_amount_lamports;
    } else if *instruction_name == String::from_str("claim_from_stream") {
        fee_controller.claim_from_stream = new_fee_amount_lamports;
    } else if *instruction_name == String::from_str("disconnect_from_stream") {
        fee_controller.disconnect_from_stream = new_fee_amount_lamports;
    } else {
        return Err(ErrorCode::InvalidInstructionName);
    }
    Ok(())
}

/// Decides the fee transfer every operation performs last: the caller's
/// balance must cover the fee and the designated receiver must be the
/// expected fee receiver. Returns the lamport amount the ledger must move.
pub fn transfer_fee(
    signer_balance_lamports: u64,
    fee_rx_address: Address,
    expected_fee_rx_address: Address,
    fee_lamports: u64,
) -> (r: Result<u64, ErrorCode>)
    ensures
        signer_balance_lamports < fee_lamports <==> r == Err::<u64, ErrorCode>(
            ErrorCode::InsufficientFeeFunds,
        ),
        (signer_balance_lamports >= fee_lamports && fee_rx_address != expected_fee_rx_address)
            <==> r == Err::<u64, ErrorCode>(ErrorCode::InvalidFeeRxAddress),
        r is Ok <==> (signer_balance_lamports >= fee_lamports && fee_rx_address
            == expected_fee_rx_address),
        r is Ok ==> r->Ok_0 == fee_lamports,
{
    if signer_balance_lamports < fee_lamports {
        return Err(ErrorCode::InsufficientFeeFunds);
    }
    if fee_rx_address != expected_fee_rx_address {
        return Err(ErrorCode::InvalidFeeRxAddress);
    }
    Ok(fee_lamports)
}

} // verus!
