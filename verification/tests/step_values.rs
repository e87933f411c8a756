use token_gate::rules::{AllowanceValue, GateError};
use token_gate::steps::{
    admin_step, buy_step, consume_step, initialize_step, transfer_step, withdraw_step, BuyWrites,
    ConsumeWrites, TransferWrites,
};

#[test]
fn initialize_only_once() {
    assert_eq!(initialize_step(false), Ok(()));
    assert_eq!(initialize_step(true), Err(GateError::AlreadyInitialized));
}

#[test]
fn purchase_steps() {
    assert_eq!(
        buy_step(25_999_999, true, 4, 10),
        Ok(BuyWrites { minted: 25, balance: 29, supply: 35 })
    );
    assert_eq!(buy_step(999_999, false, 0, 0), Err(GateError::MinimumPurchase));
    assert_eq!(buy_step(1_000_000, false, 0, 0), Err(GateError::NotInitialized));
    assert_eq!(buy_step(1_000_000, true, i128::MAX, 0), Err(GateError::Overflow));
    assert_eq!(buy_step(1_000_000, true, 0, i128::MAX), Err(GateError::Overflow));
}

#[test]
fn call_steps() {
    let approval = Some(AllowanceValue { amount: 10, expiration_ledger: 50 });
    assert_eq!(
        consume_step(Some(5), approval, 50, 12, 40, 1_000_000),
        Ok(ConsumeWrites {
            allowance: AllowanceValue { amount: 5, expiration_ledger: 50 },
            balance: 7,
            supply: 35,
            revenue: 6_000_000,
        })
    );
    assert_eq!(
        consume_step(None, approval, 0, 1, 1, 0),
        Ok(ConsumeWrites {
            allowance: AllowanceValue { amount: 9, expiration_ledger: 50 },
            balance: 0,
            supply: 0,
            revenue: 1_000_000,
        })
    );
    assert_eq!(consume_step(Some(0), None, 0, 5, 5, 0), Err(GateError::InsufficientAllowance));
    assert_eq!(consume_step(Some(0), approval, 51, 5, 5, 0), Err(GateError::InsufficientAllowance));
    assert_eq!(consume_step(Some(11), approval, 0, 50, 50, 0), Err(GateError::InsufficientAllowance));
    assert_eq!(consume_step(Some(5), approval, 0, 4, 50, 0), Err(GateError::InsufficientBalance));
    assert_eq!(consume_step(Some(5), approval, 0, 5, i128::MIN, 0), Err(GateError::Overflow));
    assert_eq!(consume_step(Some(5), approval, 0, 5, 5, i128::MAX), Err(GateError::Overflow));
}

#[test]
fn withdraw_steps() {
    assert_eq!(withdraw_step(0, true), Err(GateError::NoRevenue));
    assert_eq!(withdraw_step(5, false), Err(GateError::NotInitialized));
    assert_eq!(withdraw_step(3_000_000, true), Ok(3_000_000));
}

#[test]
fn admin_steps() {
    assert_eq!(admin_step(None), Err(GateError::NotInitialized));
    assert_eq!(admin_step(Some(false)), Err(GateError::NotAdmin));
    assert_eq!(admin_step(Some(true)), Ok(()));
}

#[test]
fn transfer_steps() {
    assert_eq!(transfer_step(4, 10, 1, false), Ok(TransferWrites { from_balance: 6, to_balance: 5 }));
    assert_eq!(transfer_step(4, 10, 10, true), Ok(TransferWrites { from_balance: 6, to_balance: 10 }));
    assert_eq!(transfer_step(0, 10, 1, false), Err(GateError::NonPositiveAmount));
    assert_eq!(transfer_step(11, 10, 1, false), Err(GateError::InsufficientBalance));
    assert_eq!(transfer_step(1, 10, i128::MAX, false), Err(GateError::Overflow));
}
