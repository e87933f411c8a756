use token_gate::gate::TokenGate;
use token_gate::rules::{AllowanceValue, GateError};
use token_gate::state::{Party, XlmTransfer};

const XLM_TOKEN: u64 = 100;
const ADMIN: u64 = 1;
const LEDGER: u32 = 0;

fn setup() -> TokenGate {
    let mut gate = TokenGate::new();
    gate.initialize(ADMIN, XLM_TOKEN).unwrap();
    gate
}

fn endpoint(name: &str) -> String {
    String::from(name)
}

#[test]
fn test_initialize_success() {
    let gate = setup();
    assert_eq!(gate.total_supply(), 0);
}

#[test]
fn test_double_initialize_panics() {
    let mut gate = setup();
    assert_eq!(gate.initialize(ADMIN, XLM_TOKEN), Err(GateError::AlreadyInitialized));
}

#[test]
fn test_buy_tokens_correct_rate() {
    let mut gate = setup();
    let user = 2;
    let pay = gate.buy_tokens(user, 10_000_000i128).unwrap();
    assert_eq!(
        pay,
        XlmTransfer { token: XLM_TOKEN, from: Party::Account(user), to: Party::Gate, amount: 10_000_000 }
    );
    assert_eq!(gate.gate_balance(user), 10);
    assert_eq!(gate.total_supply(), 10);
}

#[test]
fn test_buy_tokens_multiple_times_accumulates() {
    let mut gate = setup();
    let user = 2;
    gate.buy_tokens(user, 10_000_000i128).unwrap();
    gate.buy_tokens(user, 10_000_000i128).unwrap();
    gate.buy_tokens(user, 10_000_000i128).unwrap();
    assert_eq!(gate.gate_balance(user), 30);
    assert_eq!(gate.total_supply(), 30);
}

#[test]
fn test_buy_tokens_too_small_panics() {
    let mut gate = setup();
    let user = 2;
    assert_eq!(gate.buy_tokens(user, 500_000i128), Err(GateError::MinimumPurchase));
    assert_eq!(gate.gate_balance(user), 0);
    assert_eq!(gate.total_supply(), 0);
}

#[test]
fn test_consume_token_default_price() {
    let mut gate = setup();
    let user = 2;
    let dev = 3;
    gate.buy_tokens(user, 10_000_000i128).unwrap();
    gate.approve(user, 10i128, LEDGER + 10000);

    gate.consume_token(dev, user, &endpoint("weather"), LEDGER).unwrap();

    assert_eq!(gate.gate_balance(user), 9);
    assert_eq!(gate.total_supply(), 9);
    assert_eq!(gate.get_dev_revenue(dev), 1_000_000i128);
}

#[test]
fn test_consume_token_custom_price() {
    let mut gate = setup();
    let user = 2;
    let dev = 3;
    gate.buy_tokens(user, 50_000_000i128).unwrap();
    gate.approve(user, 50i128, LEDGER + 10000);

    let ep = endpoint("image_gen");
    gate.set_api_price(ADMIN, ep.clone(), 5u32).unwrap();

    gate.consume_token(dev, user, &ep, LEDGER).unwrap();

    assert_eq!(gate.gate_balance(user), 45);
    assert_eq!(gate.get_dev_revenue(dev), 5 * 1_000_000i128);
}

#[test]
fn test_consume_without_approve_panics() {
    let mut gate = setup();
    let user = 2;
    let dev = 3;
    gate.buy_tokens(user, 10_000_000i128).unwrap();
    assert_eq!(
        gate.consume_token(dev, user, &endpoint("weather"), LEDGER),
        Err(GateError::InsufficientAllowance)
    );
    assert_eq!(gate.gate_balance(user), 10);
    assert_eq!(gate.get_dev_revenue(dev), 0);
}

#[test]
fn test_withdraw_revenue_success() {
    let mut gate = setup();
    let user = 2;
    let dev = 3;
    gate.buy_tokens(user, 10_000_000i128).unwrap();
    gate.approve(user, 10i128, LEDGER + 10000);

    let ep = endpoint("ai");
    for _ in 0..10 {
        gate.consume_token(dev, user, &ep, LEDGER).unwrap();
    }

    let pay = gate.withdraw_revenue(dev).unwrap();
    assert_eq!(pay.amount, 10_000_000);
    assert_eq!(pay.to, Party::Account(dev));
    assert_eq!(pay.from, Party::Gate);
    assert_eq!(gate.get_dev_revenue(dev), 0);
}

#[test]
fn test_withdraw_zero_revenue_panics() {
    let mut gate = setup();
    let dev = 3;
    assert_eq!(gate.withdraw_revenue(dev), Err(GateError::NoRevenue));
}

#[test]
fn test_transfer_gate_token() {
    let mut gate = setup();
    let alice = 2;
    let bob = 4;
    gate.buy_tokens(alice, 10_000_000i128).unwrap();
    gate.transfer(alice, bob, 4i128).unwrap();
    assert_eq!(gate.gate_balance(alice), 6);
    assert_eq!(gate.gate_balance(bob), 4);
}

#[test]
fn test_full_flow() {
    let mut gate = setup();
    let user = 2;
    let dev = 3;

    gate.buy_tokens(user, 50_000_000i128).unwrap();
    assert_eq!(gate.gate_balance(user), 50);

    let ep = endpoint("premium_ai");
    gate.set_api_price(ADMIN, ep.clone(), 5u32).unwrap();

    gate.approve(user, 50i128, LEDGER + 100000);

    for _ in 0..6 {
        gate.consume_token(dev, user, &ep, LEDGER).unwrap();
    }
    assert_eq!(gate.gate_balance(user), 20);
    assert_eq!(gate.total_supply(), 20);
    assert_eq!(gate.get_dev_revenue(dev), 30 * 1_000_000i128);

    let pay = gate.withdraw_revenue(dev).unwrap();
    assert_eq!(pay.amount, 30_000_000);
    assert_eq!(pay.to, Party::Account(dev));
}

#[test]
fn buy_before_initialize_is_refused() {
    let mut gate = TokenGate::new();
    assert_eq!(gate.buy_tokens(2, 10_000_000), Err(GateError::NotInitialized));
    assert_eq!(gate.total_supply(), 0);
}

#[test]
fn minimum_purchase_is_checked_before_initialization() {
    let mut gate = TokenGate::new();
    assert_eq!(gate.buy_tokens(2, 999_999), Err(GateError::MinimumPurchase));
}

#[test]
fn purchase_keeps_fractions_of_a_token() {
    let mut gate = setup();
    let pay = gate.buy_tokens(2, 25_999_999).unwrap();
    assert_eq!(pay.amount, 25_999_999);
    assert_eq!(gate.gate_balance(2), 25);
    assert_eq!(gate.total_supply(), 25);
}

#[test]
fn only_admin_sets_prices() {
    let mut gate = setup();
    let ep = endpoint("weather");
    assert_eq!(gate.set_api_price(7, ep.clone(), 3), Err(GateError::NotAdmin));
    assert_eq!(gate.get_api_price(&ep), 1);
    gate.set_api_price(ADMIN, ep.clone(), 3).unwrap();
    assert_eq!(gate.get_api_price(&ep), 3);
    gate.set_api_price(ADMIN, ep.clone(), 8).unwrap();
    assert_eq!(gate.get_api_price(&ep), 8);
    assert_eq!(gate.get_api_price(&endpoint("other")), 1);
}

#[test]
fn set_price_before_initialize_is_refused() {
    let mut gate = TokenGate::new();
    assert_eq!(gate.set_api_price(ADMIN, endpoint("x"), 3), Err(GateError::NotInitialized));
}

#[test]
fn allowance_reads_back_and_expires() {
    let mut gate = setup();
    assert_eq!(gate.allowance(2, 5), 0);
    gate.approve(2, 40, 100);
    assert_eq!(gate.allowance(2, 5), 40);
    assert_eq!(gate.allowance(2, 100), 40);
    assert_eq!(gate.allowance(2, 101), 0);
}

#[test]
fn expired_allowance_refuses_consumption() {
    let mut gate = setup();
    gate.buy_tokens(2, 10_000_000).unwrap();
    gate.approve(2, 10, 50);
    assert_eq!(gate.consume_token(3, 2, &endpoint("weather"), 51), Err(GateError::InsufficientAllowance));
    gate.consume_token(3, 2, &endpoint("weather"), 50).unwrap();
    assert_eq!(gate.allowance(2, 50), 9);
}

#[test]
fn consumption_needs_balance_as_well_as_allowance() {
    let mut gate = setup();
    gate.buy_tokens(2, 2_000_000).unwrap();
    gate.approve(2, 100, 1000);
    let ep = endpoint("ai-text");
    gate.set_api_price(ADMIN, ep.clone(), 5).unwrap();
    assert_eq!(gate.consume_token(3, 2, &ep, 0), Err(GateError::InsufficientBalance));
    assert_eq!(gate.allowance(2, 0), 100);
    assert_eq!(gate.gate_balance(2), 2);
    assert_eq!(gate.total_supply(), 2);
}

#[test]
fn free_endpoint_still_needs_an_approval() {
    let mut gate = setup();
    let ep = endpoint("free");
    gate.set_api_price(ADMIN, ep.clone(), 0).unwrap();
    assert_eq!(gate.consume_token(3, 2, &ep, 0), Err(GateError::InsufficientAllowance));
    gate.approve(2, 0, 5);
    assert_eq!(gate.consume_token(3, 2, &ep, 6), Err(GateError::InsufficientAllowance));
    gate.consume_token(3, 2, &ep, 5).unwrap();
    assert_eq!(gate.get_dev_revenue(3), 0);
    assert_eq!(gate.allowance(2, 5), 0);
    assert_eq!(gate.gate_balance(2), 0);
}

#[test]
fn withdrawn_revenue_is_not_paid_twice() {
    let mut gate = setup();
    let (user, dev, other_dev) = (2, 3, 9);
    gate.buy_tokens(user, 20_000_000).unwrap();
    gate.approve(user, 20, 100);
    gate.consume_token(dev, user, &endpoint("weather"), 0).unwrap();
    assert_eq!(gate.withdraw_revenue(dev).unwrap().amount, 1_000_000);
    // Other operations in between credit nothing to `dev`.
    gate.buy_tokens(user, 5_000_000).unwrap();
    gate.transfer(user, 4, 3).unwrap();
    gate.consume_token(other_dev, user, &endpoint("weather"), 0).unwrap();
    let free = endpoint("free");
    gate.set_api_price(ADMIN, free.clone(), 0).unwrap();
    gate.consume_token(dev, user, &free, 0).unwrap();
    assert_eq!(gate.withdraw_revenue(other_dev).unwrap().amount, 1_000_000);
    assert_eq!(gate.withdraw_revenue(dev), Err(GateError::NoRevenue));
    assert_eq!(gate.get_dev_revenue(dev), 0);
    // A paid call credits it again.
    gate.consume_token(dev, user, &endpoint("weather"), 0).unwrap();
    assert_eq!(gate.withdraw_revenue(dev).unwrap().amount, 1_000_000);
}

#[test]
fn transfer_refusals_change_nothing() {
    let mut gate = setup();
    gate.buy_tokens(2, 10_000_000).unwrap();
    assert_eq!(gate.transfer(2, 4, 0), Err(GateError::NonPositiveAmount));
    assert_eq!(gate.transfer(2, 4, -3), Err(GateError::NonPositiveAmount));
    assert_eq!(gate.transfer(2, 4, 11), Err(GateError::InsufficientBalance));
    assert_eq!(gate.gate_balance(2), 10);
    assert_eq!(gate.gate_balance(4), 0);
}

#[test]
fn transfer_to_oneself_changes_nothing() {
    let mut gate = setup();
    gate.buy_tokens(2, 10_000_000).unwrap();
    gate.transfer(2, 2, 7).unwrap();
    assert_eq!(gate.gate_balance(2), 10);
    assert_eq!(gate.total_supply(), 10);
}

#[test]
fn transfer_keeps_total_supply() {
    let mut gate = setup();
    gate.buy_tokens(2, 10_000_000).unwrap();
    gate.buy_tokens(5, 30_000_000).unwrap();
    gate.transfer(5, 2, 12).unwrap();
    assert_eq!(gate.gate_balance(2), 22);
    assert_eq!(gate.gate_balance(5), 18);
    assert_eq!(gate.total_supply(), 40);
}

#[test]
fn second_withdrawal_is_refused() {
    let mut gate = setup();
    gate.buy_tokens(2, 10_000_000).unwrap();
    gate.approve(2, 10, 10);
    gate.consume_token(3, 2, &endpoint("weather"), 0).unwrap();
    let pay = gate.withdraw_revenue(3).unwrap();
    assert_eq!(pay, XlmTransfer { token: XLM_TOKEN, from: Party::Gate, to: Party::Account(3), amount: 1_000_000 });
    assert_eq!(gate.withdraw_revenue(3), Err(GateError::NoRevenue));
}

#[test]
fn consumption_uses_remaining_expiration() {
    let mut gate = setup();
    gate.buy_tokens(2, 10_000_000).unwrap();
    gate.approve(2, 3, 20);
    gate.consume_token(3, 2, &endpoint("w"), 0).unwrap();
    gate.consume_token(3, 2, &endpoint("w"), 0).unwrap();
    gate.consume_token(3, 2, &endpoint("w"), 0).unwrap();
    assert_eq!(gate.consume_token(3, 2, &endpoint("w"), 0), Err(GateError::InsufficientAllowance));
    assert_eq!(gate.gate_balance(2), 7);
    assert_eq!(gate.get_dev_revenue(3), 3_000_000);
    let _ = AllowanceValue { amount: 0, expiration_ledger: 20 };
}
