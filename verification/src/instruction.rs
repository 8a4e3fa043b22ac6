//! The decoded form of a lending-program instruction.
//!
//! A decoded instruction is a closed tagged union: one variant per operation
//! of the lending program, each holding its payload as plain values. Account
//! addresses and the quote currency are kept as the 32 bytes they were sent as.

use vstd::prelude::*;

verus! {

/// The operations of the lending program, without their payloads.
#[derive(Clone, Copy, Debug, PartialEq, Eq, Structural)]
pub enum InstructionKind {
    InitLendingMarket,
    SetLendingMarketOwner,
    InitReserve,
    RefreshReserve,
    DepositReserveLiquidity,
    RedeemReserveCollateral,
    InitObligation,
    RefreshObligation,
    DepositObligationCollateral,
    WithdrawObligationCollateral,
    BorrowObligationLiquidity,
    RepayObligationLiquidity,
    LiquidateObligation,
    FlashLoan,
}

/// Fee parameters nested in a reserve's configuration.
#[derive(Clone, Copy, Debug, PartialEq, Eq)]
pub struct DecodedReserveFees {
    pub borrow_fee_wad: u64,
    pub flash_loan_fee_wad: u64,
    pub host_fee_percentage: u8,
}

/// Configuration of a reserve, as carried by `InitReserve`.
#[derive(Clone, Copy, Debug, PartialEq, Eq)]
pub struct DecodedReserveConfig {
    pub optimal_utilization_rate: u8,
    pub loan_to_value_ratio: u8,
    pub liquidation_bonus: u8,
    pub liquidation_threshold: u8,
    pub min_borrow_rate: u8,
    pub optimal_borrow_rate: u8,
    pub max_borrow_rate: u8,
    pub fees: DecodedReserveFees,
}

/// One decoded instruction of the lending program.
#[derive(Clone, Copy, Debug, PartialEq, Eq)]
pub enum DecodedInstruction {
    InitLendingMarket { owner: [u8; 32], quote_currency: [u8; 32] },
    SetLendingMarketOwner { new_owner: [u8; 32] },
    InitReserve { liquidity_amount: u64, config: DecodedReserveConfig },
    RefreshReserve,
    DepositReserveLiquidity { liquidity_amount: u64 },
    RedeemReserveCollateral { collateral_amount: u64 },
    InitObligation,
    RefreshObligation,
    DepositObligationCollateral { collateral_amount: u64 },
    WithdrawObligationCollateral { collateral_amount: u64 },
    BorrowObligationLiquidity { liquidity_amount: u64 },
    RepayObligationLiquidity { liquidity_amount: u64 },
    LiquidateObligation { liquidity_amount: u64 },
    FlashLoan { amount: u64 },
}

/// The value of one field, before it is written as text.
#[derive(Clone, Copy, Debug, PartialEq, Eq)]
pub enum FieldValue {
    /// An amount, a fee or a percentage.
    Number(u64),
    /// An account address or a quote currency: 32 bytes.
    Address([u8; 32]),
}

/// Number of operations the lending program knows; wire tags are `0..KIND_COUNT`.
pub const KIND_COUNT: u8 = 14;

impl InstructionKind {
    /// The leading byte that announces this operation on the wire.
    pub open spec fn spec_wire_tag(self) -> u8 {
        match self {
            InstructionKind::InitLendingMarket => 0,
            InstructionKind::SetLendingMarketOwner => 1,
            InstructionKind::InitReserve => 2,
            InstructionKind::RefreshReserve => 3,
            InstructionKind::DepositReserveLiquidity => 4,
            InstructionKind::RedeemReserveCollateral => 5,
            InstructionKind::InitObligation => 6,
            InstructionKind::RefreshObligation => 7,
            InstructionKind::DepositObligationCollateral => 8,
            InstructionKind::WithdrawObligationCollateral => 9,
            InstructionKind::BorrowObligationLiquidity => 10,
            InstructionKind::RepayObligationLiquidity => 11,
            InstructionKind::LiquidateObligation => 12,
            InstructionKind::FlashLoan => 13,
        }
    }

    /// The leading byte that announces this operation on the wire.
    #[verifier::when_used_as_spec(spec_wire_tag)]
    pub fn wire_tag(self) -> (tag: u8)
        ensures
            tag == self.spec_wire_tag(),
            tag < KIND_COUNT,
    {
        match self {
            InstructionKind::InitLendingMarket => 0,
            InstructionKind::SetLendingMarketOwner => 1,
            InstructionKind::InitReserve => 2,
            InstructionKind::RefreshReserve => 3,
            InstructionKind::DepositReserveLiquidity => 4,
            InstructionKind::RedeemReserveCollateral => 5,
            InstructionKind::InitObligation => 6,
            InstructionKind::RefreshObligation => 7,
            InstructionKind::DepositObligationCollateral => 8,
            InstructionKind::WithdrawObligationCollateral => 9,
            InstructionKind::BorrowObligationLiquidity => 10,
            InstructionKind::RepayObligationLiquidity => 11,
            InstructionKind::LiquidateObligation => 12,
            InstructionKind::FlashLoan => 13,
        }
    }

    /// The number of bytes that this operation's fields take up on the wire,
    /// after the tag: 32 for an address or a quote currency, 8 for an amount
    /// or a fee, 1 for a percentage.
    pub open spec fn payload_length(self) -> nat {
        match self {
            InstructionKind::InitLendingMarket => 64,
            InstructionKind::SetLendingMarketOwner => 32,
            InstructionKind::InitReserve => 32,
            InstructionKind::RefreshReserve => 0,
            InstructionKind::DepositReserveLiquidity => 8,
            InstructionKind::RedeemReserveCollateral => 8,
            InstructionKind::InitObligation => 0,
            InstructionKind::RefreshObligation => 0,
            InstructionKind::DepositObligationCollateral => 8,
            InstructionKind::WithdrawObligationCollateral => 8,
            InstructionKind::BorrowObligationLiquidity => 8,
            InstructionKind::RepayObligationLiquidity => 8,
            InstructionKind::LiquidateObligation => 8,
            InstructionKind::FlashLoan => 8,
        }
    }

    /// The operation announced by the leading byte `tag`, if there is one.
    pub open spec fn of_wire_tag(tag: u8) -> Option<InstructionKind> {
        match tag {
            0 => Some(InstructionKind::InitLendingMarket),
            1 => Some(InstructionKind::SetLendingMarketOwner),
            2 => Some(InstructionKind::InitReserve),
            3 => Some(InstructionKind::RefreshReserve),
            4 => Some(InstructionKind::DepositReserveLiquidity),
            5 => Some(InstructionKind::RedeemReserveCollateral),
            6 => Some(InstructionKind::InitObligation),
            7 => Some(InstructionKind::RefreshObligation),
            8 => Some(InstructionKind::DepositObligationCollateral),
            9 => Some(InstructionKind::WithdrawObligationCollateral),
            10 => Some(InstructionKind::BorrowObligationLiquidity),
            11 => Some(InstructionKind::RepayObligationLiquidity),
            12 => Some(InstructionKind::LiquidateObligation),
            13 => Some(InstructionKind::FlashLoan),
            _ => None,
        }
    }
}

/// Tags and kinds stand one to one: the tag of a kind announces that kind and
/// no other, and the bytes that announce a kind are those below `KIND_COUNT`.
pub proof fn lemma_tags_and_kinds_correspond(kind: InstructionKind, tag: u8)
    ensures
        InstructionKind::of_wire_tag(kind.spec_wire_tag()) == Some(kind),
        InstructionKind::of_wire_tag(tag) == Some(kind) <==> kind.spec_wire_tag() == tag,
        InstructionKind::of_wire_tag(tag) is Some <==> tag < KIND_COUNT,
{
}

impl DecodedInstruction {
    /// Which operation this instruction is.
    pub open spec fn spec_kind(&self) -> InstructionKind {
        match *self {
            DecodedInstruction::InitLendingMarket { .. } => InstructionKind::InitLendingMarket,
            DecodedInstruction::SetLendingMarketOwner { .. } => {
                InstructionKind::SetLendingMarketOwner
            },
            DecodedInstruction::InitReserve { .. } => InstructionKind::InitReserve,
            DecodedInstruction::RefreshReserve => InstructionKind::RefreshReserve,
            DecodedInstruction::DepositReserveLiquidity { .. } => {
                InstructionKind::DepositReserveLiquidity
            },
            DecodedInstruction::RedeemReserveCollateral { .. } => {
                InstructionKind::RedeemReserveCollateral
            },
            DecodedInstruction::InitObligation => InstructionKind::InitObligation,
            DecodedInstruction::RefreshObligation => InstructionKind::RefreshObligation,
            DecodedInstruction::DepositObligationCollateral { .. } => {
                InstructionKind::DepositObligationCollateral
            },
            DecodedInstruction::WithdrawObligationCollateral { .. } => {
                InstructionKind::WithdrawObligationCollateral
            },
            DecodedInstruction::BorrowObligationLiquidity { .. } => {
                InstructionKind::BorrowObligationLiquidity
            },
            DecodedInstruction::RepayObligationLiquidity { .. } => {
                InstructionKind::RepayObligationLiquidity
            },
            DecodedInstruction::LiquidateObligation { .. } => InstructionKind::LiquidateObligation,
            DecodedInstruction::FlashLoan { .. } => InstructionKind::FlashLoan,
        }
    }

    /// The values of this instruction's fields, in the order of its kind's
    /// field paths. A reserve's `liquidation_bonus` is not among them: the field
    /// table has no entry for it.
    pub open spec fn spec_field_values(&self) -> Seq<FieldValue> {
        match *self {
            DecodedInstruction::InitLendingMarket { owner, quote_currency } => seq![
                FieldValue::Address(owner),
                FieldValue::Address(quote_currency),
            ],
            DecodedInstruction::SetLendingMarketOwner { new_owner } => {
                seq![FieldValue::Address(new_owner)]
            },
            DecodedInstruction::InitReserve { liquidity_amount, config } => seq![
                FieldValue::Number(liquidity_amount),
                FieldValue::Number(config.fees.flash_loan_fee_wad),
                FieldValue::Number(config.fees.borrow_fee_wad),
                FieldValue::Number(config.fees.host_fee_percentage as u64),
                FieldValue::Number(config.liquidation_threshold as u64),
                FieldValue::Number(config.loan_to_value_ratio as u64),
                FieldValue::Number(config.max_borrow_rate as u64),
                FieldValue::Number(config.min_borrow_rate as u64),
                FieldValue::Number(config.optimal_borrow_rate as u64),
                FieldValue::Number(config.optimal_utilization_rate as u64),
            ],
            DecodedInstruction::RefreshReserve => seq![],
            DecodedInstruction::DepositReserveLiquidity { liquidity_amount } => {
                seq![FieldValue::Number(liquidity_amount)]
            },
            DecodedInstruction::RedeemReserveCollateral { collateral_amount } => {
                seq![FieldValue::Number(collateral_amount)]
            },
            DecodedInstruction::InitObligation => seq![],
            DecodedInstruction::RefreshObligation => seq![],
            DecodedInstruction::DepositObligationCollateral { collateral_amount } => {
                seq![FieldValue::Number(collateral_amount)]
            },
            DecodedInstruction::WithdrawObligationCollateral { collateral_amount } => {
                seq![FieldValue::Number(collateral_amount)]
            },
            DecodedInstruction::BorrowObligationLiquidity { liquidity_amount } => {
                seq![FieldValue::Number(liquidity_amount)]
            },
            DecodedInstruction::RepayObligationLiquidity { liquidity_amount } => {
                seq![FieldValue::Number(liquidity_amount)]
            },
            DecodedInstruction::LiquidateObligation { liquidity_amount } => {
                seq![FieldValue::Number(liquidity_amount)]
            },
            DecodedInstruction::FlashLoan { amount } => {
                seq![FieldValue::Number(amount)]
            },
        }
    }

    /// The values of this instruction's fields, in the order of its kind's
    /// field paths.
    pub fn field_values(&self) -> (values: Vec<FieldValue>)
        ensures
            values@ == self.spec_field_values(),
    {
        match *self {
            DecodedInstruction::InitLendingMarket { owner, quote_currency } => vec![
                FieldValue::Address(owner),
                FieldValue::Address(quote_currency),
            ],
            DecodedInstruction::SetLendingMarketOwner { new_owner } => {
                vec![FieldValue::Address(new_owner)]
            },
            DecodedInstruction::InitReserve { liquidity_amount, config } => vec![
                FieldValue::Number(liquidity_amount),
                FieldValue::Number(config.fees.flash_loan_fee_wad),
                FieldValue::Number(config.fees.borrow_fee_wad),
                FieldValue::Number(config.fees.host_fee_percentage as u64),
                FieldValue::Number(config.liquidation_threshold as u64),
                FieldValue::Number(config.loan_to_value_ratio as u64),
                FieldValue::Number(config.max_borrow_rate as u64),
                FieldValue::Number(config.min_borrow_rate as u64),
                FieldValue::Number(config.optimal_borrow_rate as u64),
                FieldValue::Number(config.optimal_utilization_rate as u64),
            ],
            DecodedInstruction::RefreshReserve => vec![],
            DecodedInstruction::DepositReserveLiquidity { liquidity_amount } => {
                vec![FieldValue::Number(liquidity_amount)]
            },
            DecodedInstruction::RedeemReserveCollateral { collateral_amount } => {
                vec![FieldValue::Number(collateral_amount)]
            },
            DecodedInstruction::InitObligation => vec![],
            DecodedInstruction::RefreshObligation => vec![],
            DecodedInstruction::DepositObligationCollateral { collateral_amount } => {
                vec![FieldValue::Number(collateral_amount)]
            },
            DecodedInstruction::WithdrawObligationCollateral { collateral_amount } => {
                vec![FieldValue::Number(collateral_amount)]
            },
            DecodedInstruction::BorrowObligationLiquidity { liquidity_amount } => {
                vec![FieldValue::Number(liquidity_amount)]
            },
            DecodedInstruction::RepayObligationLiquidity { liquidity_amount } => {
                vec![FieldValue::Number(liquidity_amount)]
            },
            DecodedInstruction::LiquidateObligation { liquidity_amount } => {
                vec![FieldValue::Number(liquidity_amount)]
            },
            DecodedInstruction::FlashLoan { amount } => {
                vec![FieldValue::Number(amount)]
            },
        }
    }

    /// Which operation this instruction is.
    #[verifier::when_used_as_spec(spec_kind)]
    pub fn kind(&self) -> (kind: InstructionKind)
        ensures
            kind == self.spec_kind(),
    {
        match self {
            DecodedInstruction::InitLendingMarket { .. } => InstructionKind::InitLendingMarket,
            DecodedInstruction::SetLendingMarketOwner { .. } => {
                InstructionKind::SetLendingMarketOwner
            },
            DecodedInstruction::InitReserve { .. } => InstructionKind::InitReserve,
            DecodedInstruction::RefreshReserve => InstructionKind::RefreshReserve,
            DecodedInstruction::DepositReserveLiquidity { .. } => {
                InstructionKind::DepositReserveLiquidity
            },
            DecodedInstruction::RedeemReserveCollateral { .. } => {
                InstructionKind::RedeemReserveCollateral
            },
            DecodedInstruction::InitObligation => InstructionKind::InitObligation,
            DecodedInstruction::RefreshObligation => InstructionKind::RefreshObligation,
            DecodedInstruction::DepositObligationCollateral { .. } => {
                InstructionKind::DepositObligationCollateral
            },
            DecodedInstruction::WithdrawObligationCollateral { .. } => {
                InstructionKind::WithdrawObligationCollateral
            },
            DecodedInstruction::BorrowObligationLiquidity { .. } => {
                InstructionKind::BorrowObligationLiquidity
            },
            DecodedInstruction::RepayObligationLiquidity { .. } => {
                InstructionKind::RepayObligationLiquidity
            },
            DecodedInstruction::LiquidateObligation { .. } => InstructionKind::LiquidateObligation,
            DecodedInstruction::FlashLoan { .. } => InstructionKind::FlashLoan,
        }
    }
}

} // verus!
