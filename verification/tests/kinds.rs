use chrono::NaiveDate;
use solana_sdk::pubkey::Pubkey;
use spl_token_lending::instruction::LendingInstruction;
use spl_token_lending::state::ReserveConfig;
use spl_token_lending::state::ReserveFees;
use token_lending_records::process_native_token_lending_instruction;
use token_lending_records::InstructionContext;
use token_lending_records::InstructionSet;

fn context() -> InstructionContext {
    InstructionContext {
        transaction_hash: "5VERv8NMvzbJMEkV8xnrLkEaWRtSz9CosKDYjCJjBRnbJLgp8uirBgmQpjKhoR4tjF3ZpRzrFmBV6UjKdiSZkQUW".to_string(),
        instruction_index: 0,
        parent_index: -1,
        timestamp: NaiveDate::from_ymd_opt(2021, 11, 5).unwrap().and_hms_opt(8, 0, 1).unwrap(),
        program: "lending".to_string(),
    }
}

fn records_of(instruction: LendingInstruction) -> InstructionSet {
    process_native_token_lending_instruction(&context(), &instruction.pack()).unwrap()
}

/// The keys, values and parent keys of a set's properties, in order.
fn rows(set: &InstructionSet) -> Vec<(String, String, String)> {
    let mut rows = Vec::new();
    for property in &set.properties {
        rows.push((property.key.clone(), property.value.clone(), property.parent_key.clone()));
    }
    rows
}

fn row(key: &str, value: &str, parent_key: &str) -> (String, String, String) {
    (key.to_string(), value.to_string(), parent_key.to_string())
}

#[test]
fn init_lending_market_records() {
    let owner = Pubkey::new_from_array([8u8; 32]);
    let mut quote_currency = [0u8; 32];
    quote_currency[0] = b'U';
    quote_currency[1] = b'S';
    quote_currency[2] = b'D';
    let set = records_of(LendingInstruction::InitLendingMarket { owner, quote_currency });
    assert_eq!(set.function.function_name, "init-lending-market");
    assert_eq!(
        rows(&set),
        vec![
            row("owner", &owner.to_string(), ""),
            row("quote_currency", &Pubkey::new_from_array(quote_currency).to_string(), ""),
        ]
    );
    assert_eq!(set.properties[0].value, "YMN9Qj5jPNp7j14VPcML1B6xGgcPWVZUGLFU3Mnyfaf");
    assert_eq!(set.properties[1].value, "6k5J6stCP8BHB7YQLxjhzozpn7wKoCgL5RPLJrAmykzj");
}

#[test]
fn set_lending_market_owner_records() {
    let new_owner = Pubkey::new_from_array([255u8; 32]);
    let set = records_of(LendingInstruction::SetLendingMarketOwner { new_owner });
    assert_eq!(set.function.function_name, "set-lending-market-owner");
    assert_eq!(rows(&set), vec![row("new_owner", "JEKNVnkbo3jma5nREBBJCDoXFVeKkD56V3xKrvRmWxFG", "")]);
    assert_eq!(set.properties[0].value, new_owner.to_string());
}

#[test]
fn init_reserve_records() {
    let config = ReserveConfig {
        optimal_utilization_rate: 80,
        loan_to_value_ratio: 50,
        liquidation_bonus: 5,
        liquidation_threshold: 55,
        min_borrow_rate: 0,
        optimal_borrow_rate: 4,
        max_borrow_rate: 30,
        fees: ReserveFees {
            borrow_fee_wad: 100_000_000_000,
            flash_loan_fee_wad: 3_000_000_000_000_000,
            host_fee_percentage: 20,
        },
    };
    let set = records_of(LendingInstruction::InitReserve { liquidity_amount: 1_000_000, config });
    assert_eq!(set.function.function_name, "init-reserve");
    assert_eq!(
        rows(&set),
        vec![
            row("liquidity_amount", "1000000", ""),
            row("flash_loan_fee_wad", "3000000000000000", "fees"),
            row("borrow_fee_wad", "100000000000", "config/fees"),
            row("host_fee_percentage", "20", "config/fees"),
            row("liquidation_threshold", "55", "config"),
            row("loan_to_value_ratio", "50", "config"),
            row("max_borrow_rate", "30", "config"),
            row("min_borrow_rate", "0", "config"),
            row("optimal_borrow_rate", "4", "config"),
            row("optimal_utilization_rate", "80", "config"),
        ]
    );
}

#[test]
fn init_reserve_has_nine_nested_properties() {
    let set = records_of(LendingInstruction::InitReserve {
        liquidity_amount: u64::MAX,
        config: ReserveConfig::default(),
    });
    assert_eq!(set.properties.len(), 10);
    let mut nested = 0;
    for property in &set.properties {
        if !property.parent_key.is_empty() {
            nested += 1;
        }
    }
    assert_eq!(nested, 9);
    assert_eq!(set.properties[0].value, "18446744073709551615");
    assert_eq!(set.properties[1].parent_key, "fees");
    assert_eq!(set.properties[2].parent_key, "config/fees");
    assert_eq!(set.properties[3].parent_key, "config/fees");
    assert_ne!(set.properties[1].parent_key, set.properties[2].parent_key);
    for property in &set.properties[4..] {
        assert_eq!(property.parent_key, "config");
    }
}

#[test]
fn init_reserve_leaves_the_liquidation_bonus_out() {
    let mut config = ReserveConfig::default();
    config.liquidation_bonus = 77;
    let set = records_of(LendingInstruction::InitReserve { liquidity_amount: 1, config });
    for property in &set.properties {
        assert_ne!(property.key, "liquidation_bonus");
        assert_ne!(property.value, "77");
    }
}

#[test]
fn refresh_reserve_records() {
    let set = records_of(LendingInstruction::RefreshReserve);
    assert_eq!(set.function.function_name, "refresh-reserve");
    assert_eq!(rows(&set), vec![]);
}

#[test]
fn deposit_reserve_liquidity_records() {
    let set = records_of(LendingInstruction::DepositReserveLiquidity { liquidity_amount: 500 });
    assert_eq!(set.function.function_name, "deposit-reserve-liquidity");
    assert_eq!(rows(&set), vec![row("liquidity_amount", "500", "")]);
}

#[test]
fn redeem_reserve_collateral_records() {
    let set = records_of(LendingInstruction::RedeemReserveCollateral { collateral_amount: 0 });
    assert_eq!(set.function.function_name, "redeem-reserve-collateral");
    assert_eq!(rows(&set), vec![row("collateral_amount", "0", "")]);
}

#[test]
fn init_obligation_records() {
    let set = records_of(LendingInstruction::InitObligation);
    assert_eq!(set.function.function_name, "init-obligation");
    assert_eq!(rows(&set), vec![]);
}

#[test]
fn refresh_obligation_records() {
    // The payload of a refresh carries no field, so there is nothing to record.
    let set = records_of(LendingInstruction::RefreshObligation);
    assert_eq!(set.function.function_name, "refresh-obligation");
    assert_eq!(rows(&set), vec![]);
}

#[test]
fn deposit_obligation_collateral_records() {
    let set = records_of(LendingInstruction::DepositObligationCollateral { collateral_amount: 42 });
    assert_eq!(set.function.function_name, "deposit-obligation-collateral");
    assert_eq!(rows(&set), vec![row("collateral_amount", "42", "")]);
}

#[test]
fn withdraw_obligation_collateral_records() {
    let set = records_of(LendingInstruction::WithdrawObligationCollateral { collateral_amount: u64::MAX });
    assert_eq!(set.function.function_name, "withdraw-obligation-collateral");
    assert_eq!(rows(&set), vec![row("collateral_amount", "18446744073709551615", "")]);
}

#[test]
fn borrow_obligation_liquidity_records() {
    let set = records_of(LendingInstruction::BorrowObligationLiquidity { liquidity_amount: 1_000 });
    assert_eq!(set.function.function_name, "borrow-obligation-liquidity");
    assert_eq!(rows(&set), vec![row("liquidity_amount", "1000", "")]);
}

#[test]
fn repay_obligation_liquidity_records() {
    let set = records_of(LendingInstruction::RepayObligationLiquidity { liquidity_amount: 10 });
    assert_eq!(set.function.function_name, "repay-obligation-liquidity");
    assert_eq!(rows(&set), vec![row("liquidity_amount", "10", "")]);
}

#[test]
fn liquidate_obligation_records() {
    let set = records_of(LendingInstruction::LiquidateObligation { liquidity_amount: 99 });
    assert_eq!(set.function.function_name, "liquidate-obligation");
    assert_eq!(rows(&set), vec![row("liquidity_amount", "99", "")]);
}

#[test]
fn flash_loan_records() {
    let set = records_of(LendingInstruction::FlashLoan { amount: 123_456_789 });
    assert_eq!(set.function.function_name, "flash-loan");
    assert_eq!(rows(&set), vec![row("amount", "123456789", "")]);
}

#[test]
fn every_record_repeats_the_context() {
    let context = InstructionContext {
        transaction_hash: "TX-echo".to_string(),
        instruction_index: 31_000,
        parent_index: 7,
        timestamp: NaiveDate::from_ymd_opt(1999, 12, 31).unwrap().and_hms_opt(23, 59, 59).unwrap(),
        program: "program-echo".to_string(),
    };
    let instructions = vec![
        LendingInstruction::InitLendingMarket {
            owner: Pubkey::new_from_array([1u8; 32]),
            quote_currency: [2u8; 32],
        },
        LendingInstruction::SetLendingMarketOwner { new_owner: Pubkey::new_from_array([3u8; 32]) },
        LendingInstruction::InitReserve { liquidity_amount: 4, config: ReserveConfig::default() },
        LendingInstruction::RefreshReserve,
        LendingInstruction::DepositReserveLiquidity { liquidity_amount: 5 },
        LendingInstruction::RedeemReserveCollateral { collateral_amount: 6 },
        LendingInstruction::InitObligation,
        LendingInstruction::RefreshObligation,
        LendingInstruction::DepositObligationCollateral { collateral_amount: 7 },
        LendingInstruction::WithdrawObligationCollateral { collateral_amount: 8 },
        LendingInstruction::BorrowObligationLiquidity { liquidity_amount: 9 },
        LendingInstruction::RepayObligationLiquidity { liquidity_amount: 10 },
        LendingInstruction::LiquidateObligation { liquidity_amount: 11 },
        LendingInstruction::FlashLoan { amount: 12 },
    ];
    for instruction in instructions {
        let set = process_native_token_lending_instruction(&context, &instruction.pack()).unwrap();
        assert_eq!(set.function.transaction_hash, context.transaction_hash);
        assert_eq!(set.function.instruction_index, context.instruction_index);
        assert_eq!(set.function.parent_index, context.parent_index);
        assert_eq!(set.function.timestamp, context.timestamp);
        assert_eq!(set.function.program, context.program);
        for property in &set.properties {
            assert_eq!(property.transaction_hash, context.transaction_hash);
            assert_eq!(property.instruction_index, context.instruction_index);
            assert_eq!(property.parent_index, context.parent_index);
            assert_eq!(property.timestamp, context.timestamp);
        }
    }
}

#[test]
fn sentinel_indices_are_kept() {
    let context = InstructionContext {
        transaction_hash: String::new(),
        instruction_index: -1,
        parent_index: i16::MIN,
        timestamp: NaiveDate::from_ymd_opt(2020, 2, 29).unwrap().and_hms_opt(0, 0, 0).unwrap(),
        program: String::new(),
    };
    let payload = LendingInstruction::FlashLoan { amount: 1 }.pack();
    let set = process_native_token_lending_instruction(&context, &payload).unwrap();
    assert_eq!(set.function.instruction_index, -1);
    assert_eq!(set.function.parent_index, i16::MIN);
    assert_eq!(set.function.transaction_hash, "");
    assert_eq!(set.properties[0].instruction_index, -1);
    assert_eq!(set.properties[0].parent_index, i16::MIN);
}
