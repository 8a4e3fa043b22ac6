//! The field table: what each operation is called, and which fields it
//! gives rise to, in which order and under which path.

use vstd::prelude::*;
use crate::instruction::InstructionKind;

verus! {

/// Where a field sits: its own name and the path of the structure around it.
/// At the top level the path is empty; below, it names the enclosing
/// structures from the outside in, joined by `/`.
#[derive(Clone, Copy, Debug, PartialEq, Eq)]
pub struct FieldPath {
    pub key: &'static str,
    pub parent_key: &'static str,
}

impl InstructionKind {
    /// The name under which this operation is recorded.
    pub open spec fn spec_function_name(self) -> &'static str {
        match self {
            InstructionKind::InitLendingMarket => "init-lending-market",
            InstructionKind::SetLendingMarketOwner => "set-lending-market-owner",
            InstructionKind::InitReserve => "init-reserve",
            InstructionKind::RefreshReserve => "refresh-reserve",
            InstructionKind::DepositReserveLiquidity => "deposit-reserve-liquidity",
            InstructionKind::RedeemReserveCollateral => "redeem-reserve-collateral",
            InstructionKind::InitObligation => "init-obligation",
            InstructionKind::RefreshObligation => "refresh-obligation",
            InstructionKind::DepositObligationCollateral => "deposit-obligation-collateral",
            InstructionKind::WithdrawObligationCollateral => "withdraw-obligation-collateral",
            InstructionKind::BorrowObligationLiquidity => "borrow-obligation-liquidity",
            InstructionKind::RepayObligationLiquidity => "repay-obligation-liquidity",
            InstructionKind::LiquidateObligation => "liquidate-obligation",
            InstructionKind::FlashLoan => "flash-loan",
        }
    }

    /// The name under which this operation is recorded.
    #[verifier::when_used_as_spec(spec_function_name)]
    pub fn function_name(self) -> (name: &'static str)
        ensures
            name == self.spec_function_name(),
    {
        match self {
            InstructionKind::InitLendingMarket => "init-lending-market",
            InstructionKind::SetLendingMarketOwner => "set-lending-market-owner",
            InstructionKind::InitReserve => "init-reserve",
            InstructionKind::RefreshReserve => "refresh-reserve",
            InstructionKind::DepositReserveLiquidity => "deposit-reserve-liquidity",
            InstructionKind::RedeemReserveCollateral => "redeem-reserve-collateral",
            InstructionKind::InitObligation => "init-obligation",
            InstructionKind::RefreshObligation => "refresh-obligation",
            InstructionKind::DepositObligationCollateral => "deposit-obligation-collateral",
            InstructionKind::WithdrawObligationCollateral => "withdraw-obligation-collateral",
            InstructionKind::BorrowObligationLiquidity => "borrow-obligation-liquidity",
            InstructionKind::RepayObligationLiquidity => "repay-obligation-liquidity",
            InstructionKind::LiquidateObligation => "liquidate-obligation",
            InstructionKind::FlashLoan => "flash-loan",
        }
    }

    /// The fields this operation gives rise to, in the order they are recorded.
    ///
    /// `RefreshObligation` has no entry: its payload carries no field, so
    /// there is no value to record. Of a reserve's three fee fields,
    /// `flash_loan_fee_wad` is filed under `fees` and the other two under
    /// `config/fees`. The two paths name the same structure; readers of the
    /// records key on these strings, so both are kept as they are.
    pub open spec fn spec_field_paths(self) -> Seq<FieldPath> {
        match self {
            InstructionKind::InitLendingMarket => seq![
                FieldPath { key: "owner", parent_key: "" },
                FieldPath { key: "quote_currency", parent_key: "" },
            ],
            InstructionKind::SetLendingMarketOwner => {
                seq![FieldPath { key: "new_owner", parent_key: "" }]
            },
            InstructionKind::InitReserve => seq![
                FieldPath { key: "liquidity_amount", parent_key: "" },
                FieldPath { key: "flash_loan_fee_wad", parent_key: "fees" },
                FieldPath { key: "borrow_fee_wad", parent_key: "config/fees" },
                FieldPath { key: "host_fee_percentage", parent_key: "config/fees" },
                FieldPath { key: "liquidation_threshold", parent_key: "config" },
                FieldPath { key: "loan_to_value_ratio", parent_key: "config" },
                FieldPath { key: "max_borrow_rate", parent_key: "config" },
                FieldPath { key: "min_borrow_rate", parent_key: "config" },
                FieldPath { key: "optimal_borrow_rate", parent_key: "config" },
                FieldPath { key: "optimal_utilization_rate", parent_key: "config" },
            ],
            InstructionKind::RefreshReserve => seq![],
            InstructionKind::DepositReserveLiquidity => {
                seq![FieldPath { key: "liquidity_amount", parent_key: "" }]
            },
            InstructionKind::RedeemReserveCollateral => {
                seq![FieldPath { key: "collateral_amount", parent_key: "" }]
            },
            InstructionKind::InitObligation => seq![],
            InstructionKind::RefreshObligation => seq![],
            InstructionKind::DepositObligationCollateral => {
                seq![FieldPath { key: "collateral_amount", parent_key: "" }]
            },
            InstructionKind::WithdrawObligationCollateral => {
                seq![FieldPath { key: "collateral_amount", parent_key: "" }]
            },
            InstructionKind::BorrowObligationLiquidity => {
                seq![FieldPath { key: "liquidity_amount", parent_key: "" }]
            },
            InstructionKind::RepayObligationLiquidity => {
                seq![FieldPath { key: "liquidity_amount", parent_key: "" }]
            },
            InstructionKind::LiquidateObligation => {
                seq![FieldPath { key: "liquidity_amount", parent_key: "" }]
            },
            InstructionKind::FlashLoan => {
                seq![FieldPath { key: "amount", parent_key: "" }]
            },
        }
    }

    /// The fields this operation gives rise to, in the order they are recorded.
    pub fn field_paths(self) -> (paths: Vec<FieldPath>)
        ensures
            paths@ == self.spec_field_paths(),
    {
        match self {
            InstructionKind::InitLendingMarket => vec![
                FieldPath { key: "owner", parent_key: "" },
                FieldPath { key: "quote_currency", parent_key: "" },
            ],
            InstructionKind::SetLendingMarketOwner => {
                vec![FieldPath { key: "new_owner", parent_key: "" }]
            },
            InstructionKind::InitReserve => vec![
                FieldPath { key: "liquidity_amount", parent_key: "" },
                FieldPath { key: "flash_loan_fee_wad", parent_key: "fees" },
                FieldPath { key: "borrow_fee_wad", parent_key: "config/fees" },
                FieldPath { key: "host_fee_percentage", parent_key: "config/fees" },
                FieldPath { key: "liquidation_threshold", parent_key: "config" },
                FieldPath { key: "loan_to_value_ratio", parent_key: "config" },
                FieldPath { key: "max_borrow_rate", parent_key: "config" },
                FieldPath { key: "min_borrow_rate", parent_key: "config" },
                FieldPath { key: "optimal_borrow_rate", parent_key: "config" },
                FieldPath { key: "optimal_utilization_rate", parent_key: "config" },
            ],
            InstructionKind::RefreshReserve => vec![],
            InstructionKind::DepositReserveLiquidity => {
                vec![FieldPath { key: "liquidity_amount", parent_key: "" }]
            },
            InstructionKind::RedeemReserveCollateral => {
                vec![FieldPath { key: "collateral_amount", parent_key: "" }]
            },
            InstructionKind::InitObligation => vec![],
            InstructionKind::RefreshObligation => vec![],
            InstructionKind::DepositObligationCollateral => {
                vec![FieldPath { key: "collateral_amount", parent_key: "" }]
            },
            InstructionKind::WithdrawObligationCollateral => {
                vec![FieldPath { key: "collateral_amount", parent_key: "" }]
            },
            InstructionKind::BorrowObligationLiquidity => {
                vec![FieldPath { key: "liquidity_amount", parent_key: "" }]
            },
            InstructionKind::RepayObligationLiquidity => {
                vec![FieldPath { key: "liquidity_amount", parent_key: "" }]
            },
            InstructionKind::LiquidateObligation => {
                vec![FieldPath { key: "liquidity_amount", parent_key: "" }]
            },
            InstructionKind::FlashLoan => {
                vec![FieldPath { key: "amount", parent_key: "" }]
            },
        }
    }
}

/// No two operations are recorded under the same name.
pub proof fn lemma_function_names_differ(first: InstructionKind, second: InstructionKind)
    requires
        first != second,
    ensures
        first.spec_function_name()@ != second.spec_function_name()@,
{
    reveal_strlit("init-lending-market");
    reveal_strlit("set-lending-market-owner");
    reveal_strlit("init-reserve");
    reveal_strlit("refresh-reserve");
    reveal_strlit("deposit-reserve-liquidity");
    reveal_strlit("redeem-reserve-collateral");
    reveal_strlit("init-obligation");
    reveal_strlit("refresh-obligation");
    reveal_strlit("deposit-obligation-collateral");
    reveal_strlit("withdraw-obligation-collateral");
    reveal_strlit("borrow-obligation-liquidity");
    reveal_strlit("repay-obligation-liquidity");
    reveal_strlit("liquidate-obligation");
    reveal_strlit("flash-loan");
    // Names of different length differ; the two pairs of equal length differ
    // in their first character.
    assert("init-lending-market"@.len() == 19);
    assert("set-lending-market-owner"@.len() == 24);
    assert("init-reserve"@.len() == 12);
    assert("refresh-reserve"@.len() == 15);
    assert("deposit-reserve-liquidity"@.len() == 25);
    assert("redeem-reserve-collateral"@.len() == 25);
    assert("init-obligation"@.len() == 15);
    assert("refresh-obligation"@.len() == 18);
    assert("deposit-obligation-collateral"@.len() == 29);
    assert("withdraw-obligation-collateral"@.len() == 30);
    assert("borrow-obligation-liquidity"@.len() == 27);
    assert("repay-obligation-liquidity"@.len() == 26);
    assert("liquidate-obligation"@.len() == 20);
    assert("flash-loan"@.len() == 10);
    assert("refresh-reserve"@[0] != "init-obligation"@[0]);
    assert("deposit-reserve-liquidity"@[0] != "redeem-reserve-collateral"@[0]);
}

} // verus!
