use token_gate::rules::{
    burn_from, checked_credit, current_allowance, debit_for_transfer, effective_price,
    revenue_for, spend_allowance, tokens_for_xlm, AllowanceValue, GateError,
    DEFAULT_API_PRICE, STROOPS_PER_GATE,
};

#[test]
fn rate_is_one_token_per_million_stroops() {
    assert_eq!(STROOPS_PER_GATE, 1_000_000);
    assert_eq!(tokens_for_xlm(1_000_000), Ok(1));
    assert_eq!(tokens_for_xlm(10_000_000), Ok(10));
    assert_eq!(tokens_for_xlm(15_999_999), Ok(15));
    assert_eq!(tokens_for_xlm(999_999), Err(GateError::MinimumPurchase));
    assert_eq!(tokens_for_xlm(0), Err(GateError::MinimumPurchase));
    assert_eq!(tokens_for_xlm(-5_000_000), Err(GateError::MinimumPurchase));
    assert_eq!(tokens_for_xlm(i128::MAX), Ok(i128::MAX / 1_000_000));
}

#[test]
fn allowance_counts_until_expiration() {
    let v = AllowanceValue { amount: 12, expiration_ledger: 7 };
    assert_eq!(current_allowance(Some(v), 7), 12);
    assert_eq!(current_allowance(Some(v), 0), 12);
    assert_eq!(current_allowance(Some(v), 8), 0);
    assert_eq!(current_allowance(None, 0), 0);
}

#[test]
fn spending_allowance_keeps_expiration() {
    let v = AllowanceValue { amount: 12, expiration_ledger: 7 };
    assert_eq!(spend_allowance(Some(v), 3, 5), Ok(AllowanceValue { amount: 7, expiration_ledger: 7 }));
    assert_eq!(spend_allowance(Some(v), 3, 13), Err(GateError::InsufficientAllowance));
    assert_eq!(spend_allowance(Some(v), 8, 1), Err(GateError::InsufficientAllowance));
    assert_eq!(spend_allowance(Some(v), 8, 0), Err(GateError::InsufficientAllowance));
    assert_eq!(spend_allowance(None, 0, 0), Err(GateError::InsufficientAllowance));
    assert_eq!(spend_allowance(Some(v), 7, 0), Ok(AllowanceValue { amount: 12, expiration_ledger: 7 }));
    let big = AllowanceValue { amount: i128::MAX, expiration_ledger: 1 };
    assert_eq!(spend_allowance(Some(big), 0, -1), Err(GateError::Overflow));
}

#[test]
fn default_price_is_one_token() {
    assert_eq!(DEFAULT_API_PRICE, 1);
    assert_eq!(effective_price(None), 1);
    assert_eq!(effective_price(Some(5)), 5);
    assert_eq!(effective_price(Some(0)), 0);
}

#[test]
fn revenue_is_price_times_rate() {
    assert_eq!(revenue_for(1), 1_000_000);
    assert_eq!(revenue_for(5), 5_000_000);
    assert_eq!(revenue_for(0), 0);
    assert_eq!(revenue_for(u32::MAX), 4_294_967_295_000_000);
}

#[test]
fn burning_needs_enough_balance() {
    assert_eq!(burn_from(10, 3), Ok(7));
    assert_eq!(burn_from(3, 3), Ok(0));
    assert_eq!(burn_from(2, 3), Err(GateError::InsufficientBalance));
    assert_eq!(burn_from(i128::MAX, -1), Err(GateError::Overflow));
}

#[test]
fn transfers_need_positive_amount_and_balance() {
    assert_eq!(debit_for_transfer(10, 4), Ok(6));
    assert_eq!(debit_for_transfer(10, 10), Ok(0));
    assert_eq!(debit_for_transfer(10, 11), Err(GateError::InsufficientBalance));
    assert_eq!(debit_for_transfer(10, 0), Err(GateError::NonPositiveAmount));
    assert_eq!(debit_for_transfer(10, -1), Err(GateError::NonPositiveAmount));
}

#[test]
fn credits_refuse_overflow() {
    assert_eq!(checked_credit(5, 7), Ok(12));
    assert_eq!(checked_credit(i128::MAX, 1), Err(GateError::Overflow));
    assert_eq!(checked_credit(i128::MIN, -1), Err(GateError::Overflow));
    assert_eq!(checked_credit(i128::MAX - 1, 1), Ok(i128::MAX));
}

