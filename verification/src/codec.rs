//! Decoding of raw instruction payloads.
//!
//! The wire format belongs to the lending program, and so does the decoder:
//! `spl_token_lending::instruction::LendingInstruction::unpack`. This module
//! calls it and turns what it hands back into a [`DecodedInstruction`], field
//! by field. What the decoder makes of a given payload is not restated here;
//! it goes by the name [`unpacked`].

use vstd::prelude::*;
use solana_sdk::program_error::ProgramError;
use solana_sdk::pubkey::Pubkey;
use spl_token_lending::instruction::LendingInstruction;
use spl_token_lending::state::ReserveConfig;
use spl_token_lending::state::ReserveFees;
use crate::instruction::DecodedInstruction;
use crate::instruction::DecodedReserveConfig;
use crate::instruction::DecodedReserveFees;
use crate::instruction::InstructionKind;
use crate::instruction::KIND_COUNT;

verus! {

/// The decoder's instruction type, with its variants and fields as the
/// lending program declares them. Nothing is assumed of it.
#[verifier::external_type_specification]
pub struct ExLendingInstruction(LendingInstruction);

/// The decoder's reserve configuration, with its fields as declared.
#[verifier::external_type_specification]
pub struct ExReserveConfig(ReserveConfig);

/// The decoder's reserve fees, with their fields as declared.
#[verifier::external_type_specification]
pub struct ExReserveFees(ReserveFees);

/// An account address. Its bytes are private to it and are read through
/// `Pubkey::to_bytes`.
#[verifier::external_type_specification]
#[verifier::external_body]
pub struct ExPubkey(Pubkey);

/// The decoder's error. It is told apart from success and not looked into.
#[verifier::external_type_specification]
#[verifier::external_body]
pub struct ExProgramError(ProgramError);

/// The 32 bytes that the address `key` is made of.
pub uninterp spec fn address_bytes(key: Pubkey) -> [u8; 32];

/// What the lending program's decoder makes of the payload `data`: the
/// instruction it decodes to, or `None` where the decoder rejects it.
pub uninterp spec fn unpacked(data: Seq<u8>) -> Option<DecodedInstruction>;

/// Whether `data` has the shape of an instruction: it starts with the tag of
/// an operation and goes on for at least as many bytes as the operation's
/// fields take up. What follows the fields does not count.
pub open spec fn is_well_formed(data: Seq<u8>) -> bool {
    &&& data.len() > 0
    &&& InstructionKind::of_wire_tag(data[0]) matches Some(kind)
    &&& data.len() >= 1 + kind.payload_length()
}

/// The reserve configuration that `config` holds.
pub open spec fn config_model(config: ReserveConfig) -> DecodedReserveConfig {
    DecodedReserveConfig {
        optimal_utilization_rate: config.optimal_utilization_rate,
        loan_to_value_ratio: config.loan_to_value_ratio,
        liquidation_bonus: config.liquidation_bonus,
        liquidation_threshold: config.liquidation_threshold,
        min_borrow_rate: config.min_borrow_rate,
        optimal_borrow_rate: config.optimal_borrow_rate,
        max_borrow_rate: config.max_borrow_rate,
        fees: DecodedReserveFees {
            borrow_fee_wad: config.fees.borrow_fee_wad,
            flash_loan_fee_wad: config.fees.flash_loan_fee_wad,
            host_fee_percentage: config.fees.host_fee_percentage,
        },
    }
}

/// The decoded instruction that `instruction` holds: the same variant with
/// the same fields, each address as its bytes.
pub open spec fn instruction_model(instruction: LendingInstruction) -> DecodedInstruction {
    match instruction {
        LendingInstruction::InitLendingMarket { owner, quote_currency } => {
            DecodedInstruction::InitLendingMarket { owner: address_bytes(owner), quote_currency }
        },
        LendingInstruction::SetLendingMarketOwner { new_owner } => {
            DecodedInstruction::SetLendingMarketOwner { new_owner: address_bytes(new_owner) }
        },
        LendingInstruction::InitReserve { liquidity_amount, config } => {
            DecodedInstruction::InitReserve { liquidity_amount, config: config_model(config) }
        },
        LendingInstruction::RefreshReserve => DecodedInstruction::RefreshReserve,
        LendingInstruction::DepositReserveLiquidity { liquidity_amount } => {
            DecodedInstruction::DepositReserveLiquidity { liquidity_amount }
        },
        LendingInstruction::RedeemReserveCollateral { collateral_amount } => {
            DecodedInstruction::RedeemReserveCollateral { collateral_amount }
        },
        LendingInstruction::InitObligation => DecodedInstruction::InitObligation,
        LendingInstruction::RefreshObligation => DecodedInstruction::RefreshObligation,
        LendingInstruction::DepositObligationCollateral { collateral_amount } => {
            DecodedInstruction::DepositObligationCollateral { collateral_amount }
        },
        LendingInstruction::WithdrawObligationCollateral { collateral_amount } => {
            DecodedInstruction::WithdrawObligationCollateral { collateral_amount }
        },
        LendingInstruction::BorrowObligationLiquidity { liquidity_amount } => {
            DecodedInstruction::BorrowObligationLiquidity { liquidity_amount }
        },
        LendingInstruction::RepayObligationLiquidity { liquidity_amount } => {
            DecodedInstruction::RepayObligationLiquidity { liquidity_amount }
        },
        LendingInstruction::LiquidateObligation { liquidity_amount } => {
            DecodedInstruction::LiquidateObligation { liquidity_amount }
        },
        LendingInstruction::FlashLoan { amount } => {
            DecodedInstruction::FlashLoan { amount }
        },
    }
}

/// `LendingInstruction::unpack` reads a tag byte and then, one after the
/// other, the fields that the tag calls for; it fails on an empty payload, on
/// a byte that is no tag, and as soon as a field has fewer bytes left than it
/// takes up. It returns on every input; where it fails on a tag or a field, it
/// first writes a line to the program log, which is the standard output
/// unless the process has installed another. Assumed of it:
/// - its outcome depends on the bytes alone, and goes by the name `unpacked`;
/// - it succeeds on the payloads that `is_well_formed`, and on no others;
/// - the variant it hands back is the one that the first byte announces.
pub assume_specification[ LendingInstruction::unpack ](input: &[u8]) -> (result: Result<
    LendingInstruction,
    ProgramError,
>)
    ensures
        result matches Ok(instruction) ==> unpacked(input@) == Some(instruction_model(instruction)),
        result is Err ==> unpacked(input@) is None,
        result is Ok <==> is_well_formed(input@),
        result matches Ok(instruction) ==> InstructionKind::of_wire_tag(input@[0]) == Some(
            instruction_model(instruction).spec_kind(),
        ),
;

/// `Pubkey::to_bytes` hands out the bytes of the address, which go by the
/// name `address_bytes`.
pub assume_specification[ Pubkey::to_bytes ](key: Pubkey) -> (bytes: [u8; 32])
    ensures
        bytes == address_bytes(key),
;

/// Copies a reserve configuration out of the decoder's type.
pub fn decoded_config_from(config: &ReserveConfig) -> (decoded: DecodedReserveConfig)
    ensures
        decoded == config_model(*config),
{
    DecodedReserveConfig {
        optimal_utilization_rate: config.optimal_utilization_rate,
        loan_to_value_ratio: config.loan_to_value_ratio,
        liquidation_bonus: config.liquidation_bonus,
        liquidation_threshold: config.liquidation_threshold,
        min_borrow_rate: config.min_borrow_rate,
        optimal_borrow_rate: config.optimal_borrow_rate,
        max_borrow_rate: config.max_borrow_rate,
        fees: DecodedReserveFees {
            borrow_fee_wad: config.fees.borrow_fee_wad,
            flash_loan_fee_wad: config.fees.flash_loan_fee_wad,
            host_fee_percentage: config.fees.host_fee_percentage,
        },
    }
}

/// Copies an instruction out of the decoder's type. The match has one arm
/// for each variant and no other: a variant added to the lending program stops
/// this from compiling.
pub fn decoded_from(instruction: &LendingInstruction) -> (decoded: DecodedInstruction)
    ensures
        decoded == instruction_model(*instruction),
{
    match instruction {
        LendingInstruction::InitLendingMarket { owner, quote_currency } => {
            DecodedInstruction::InitLendingMarket {
                owner: owner.to_bytes(),
                quote_currency: *quote_currency,
            }
        },
        LendingInstruction::SetLendingMarketOwner { new_owner } => {
            DecodedInstruction::SetLendingMarketOwner { new_owner: new_owner.to_bytes() }
        },
        LendingInstruction::InitReserve { liquidity_amount, config } => {
            DecodedInstruction::InitReserve {
                liquidity_amount: *liquidity_amount,
                config: decoded_config_from(config),
            }
        },
        LendingInstruction::RefreshReserve => DecodedInstruction::RefreshReserve,
        LendingInstruction::DepositReserveLiquidity { liquidity_amount } => {
            DecodedInstruction::DepositReserveLiquidity { liquidity_amount: *liquidity_amount }
        },
        LendingInstruction::RedeemReserveCollateral { collateral_amount } => {
            DecodedInstruction::RedeemReserveCollateral { collateral_amount: *collateral_amount }
        },
        LendingInstruction::InitObligation => DecodedInstruction::InitObligation,
        LendingInstruction::RefreshObligation => DecodedInstruction::RefreshObligation,
        LendingInstruction::DepositObligationCollateral { collateral_amount } => {
            DecodedInstruction::DepositObligationCollateral {
                collateral_amount: *collateral_amount,
            }
        },
        LendingInstruction::WithdrawObligationCollateral { collateral_amount } => {
            DecodedInstruction::WithdrawObligationCollateral {
                collateral_amount: *collateral_amount,
            }
        },
        LendingInstruction::BorrowObligationLiquidity { liquidity_amount } => {
            DecodedInstruction::BorrowObligationLiquidity { liquidity_amount: *liquidity_amount }
        },
        LendingInstruction::RepayObligationLiquidity { liquidity_amount } => {
            DecodedInstruction::RepayObligationLiquidity { liquidity_amount: *liquidity_amount }
        },
        LendingInstruction::LiquidateObligation { liquidity_amount } => {
            DecodedInstruction::LiquidateObligation { liquidity_amount: *liquidity_amount }
        },
        LendingInstruction::FlashLoan { amount } => {
            DecodedInstruction::FlashLoan { amount: *amount }
        },
    }
}

/// Why a payload was not decoded. There is one reason: the payload is not an
/// instruction of the lending program, be it that its tag is unknown or that
/// its fields are cut short.
#[derive(Clone, Copy, Debug, PartialEq, Eq, Structural)]
pub enum DecodeError {
    UnrecognizedOrMalformedInstruction,
}

/// Decodes an instruction payload.
///
/// A payload decodes if and only if it is well formed, and then to the
/// instruction that the lending program's decoder makes of it, which is of
/// the kind that the first byte announces. An empty payload, one that starts
/// with a byte that is no tag, and one whose fields are cut short are
/// rejected.
pub fn decode(data: &[u8]) -> (result: Result<DecodedInstruction, DecodeError>)
    ensures
        match result {
            Ok(instruction) => unpacked(data@) == Some(instruction),
            Err(_) => unpacked(data@) is None,
        },
        result is Ok <==> is_well_formed(data@),
        result matches Ok(instruction) ==> InstructionKind::of_wire_tag(data@[0]) == Some(
            instruction.spec_kind(),
        ),
        data@.len() == 0 || data@[0] >= KIND_COUNT ==> result is Err,
{
    match LendingInstruction::unpack(data) {
        Ok(instruction) => Ok(decoded_from(&instruction)),
        Err(_) => Err(DecodeError::UnrecognizedOrMalformedInstruction),
    }
}

} // verus!
