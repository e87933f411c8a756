//! One decision per contract operation, on the plain values read from
//! contract storage: either the values to write back, or why the operation
//! is refused. `TokenGate` and the host both run their operations through
//! these functions.

use vstd::prelude::*;

use crate::rules::{
    burn_from, checked_credit, debit_for_transfer, effective_price, fits_i128, revenue_for,
    spec_effective_price, spec_spend_allowance, spend_allowance, tokens_for_xlm, AllowanceValue,
    GateError, STROOPS_PER_GATE,
};

verus! {

/// What an accepted purchase writes: the tokens minted, the buyer's new
/// balance and the new total supply.
#[derive(Clone, Copy, Debug, PartialEq, Eq, Structural)]
pub struct BuyWrites {
    pub minted: i128,
    pub balance: i128,
    pub supply: i128,
}

/// What an accepted API call writes: the user's remaining approval, the
/// user's new balance, the new total supply and the developer's new revenue.
#[derive(Clone, Copy, Debug, PartialEq, Eq, Structural)]
pub struct ConsumeWrites {
    pub allowance: AllowanceValue,
    pub balance: i128,
    pub supply: i128,
    pub revenue: i128,
}

/// What an accepted transfer writes, first for the sender, then for the
/// receiver.
#[derive(Clone, Copy, Debug, PartialEq, Eq, Structural)]
pub struct TransferWrites {
    pub from_balance: i128,
    pub to_balance: i128,
}

pub open spec fn spec_initialize_step(has_admin: bool) -> Result<(), GateError> {
    if has_admin {
        Err(GateError::AlreadyInitialized)
    } else {
        Ok(())
    }
}

/// `initialize`: refused when an admin is already stored.
pub fn initialize_step(has_admin: bool) -> (r: Result<(), GateError>)
    ensures
        r == spec_initialize_step(has_admin),
{
    if has_admin {
        Err(GateError::AlreadyInitialized)
    } else {
        Ok(())
    }
}

pub open spec fn spec_buy_step(xlm_amount: i128, has_token: bool, balance: i128, supply: i128) -> Result<
    BuyWrites,
    GateError,
> {
    let minted = xlm_amount / STROOPS_PER_GATE;
    if xlm_amount < STROOPS_PER_GATE {
        Err(GateError::MinimumPurchase)
    } else if !has_token {
        Err(GateError::NotInitialized)
    } else if !fits_i128(balance + minted) || !fits_i128(supply + minted) {
        Err(GateError::Overflow)
    } else {
        Ok(
            BuyWrites {
                minted: minted as i128,
                balance: (balance + minted) as i128,
                supply: (supply + minted) as i128,
            },
        )
    }
}

/// `buy_tokens` for a purchase of `xlm_amount` stroops by a buyer holding
/// `balance` tokens, with `supply` tokens in circulation; `has_token` says
/// whether the XLM token contract is recorded.
pub fn buy_step(xlm_amount: i128, has_token: bool, balance: i128, supply: i128) -> (r: Result<
    BuyWrites,
    GateError,
>)
    ensures
        r == spec_buy_step(xlm_amount, has_token, balance, supply),
{
    let minted = match tokens_for_xlm(xlm_amount) {
        Ok(m) => m,
        Err(e) => return Err(e),
    };
    if !has_token {
        return Err(GateError::NotInitialized);
    }
    let new_balance = match checked_credit(balance, minted) {
        Ok(b) => b,
        Err(e) => return Err(e),
    };
    let new_supply = match checked_credit(supply, minted) {
        Ok(s) => s,
        Err(e) => return Err(e),
    };
    Ok(BuyWrites { minted, balance: new_balance, supply: new_supply })
}

pub open spec fn spec_consume_step(
    stored_price: Option<u32>,
    stored_allowance: Option<AllowanceValue>,
    ledger_seq: u32,
    balance: i128,
    supply: i128,
    revenue: i128,
) -> Result<ConsumeWrites, GateError> {
    let price = spec_effective_price(stored_price) as int;
    match spec_spend_allowance(stored_allowance, ledger_seq, price) {
        Err(e) => Err(e),
        Ok(left) => {
            if balance < price {
                Err(GateError::InsufficientBalance)
            } else if !fits_i128(supply - price) || !fits_i128(
                revenue + price * STROOPS_PER_GATE,
            ) {
                Err(GateError::Overflow)
            } else {
                Ok(
                    ConsumeWrites {
                        allowance: left,
                        balance: (balance - price) as i128,
                        supply: (supply - price) as i128,
                        revenue: (revenue + price * STROOPS_PER_GATE) as i128,
                    },
                )
            }
        },
    }
}

/// `consume_token` for an endpoint whose stored price is `stored_price`, a
/// user whose stored approval is `stored_allowance` and who holds `balance`
/// tokens, `supply` tokens in circulation, and a developer with `revenue`
/// stroops, at ledger `ledger_seq`.
pub fn consume_step(
    stored_price: Option<u32>,
    stored_allowance: Option<AllowanceValue>,
    ledger_seq: u32,
    balance: i128,
    supply: i128,
    revenue: i128,
) -> (r: Result<ConsumeWrites, GateError>)
    ensures
        r == spec_consume_step(stored_price, stored_allowance, ledger_seq, balance, supply, revenue),
{
    let price = effective_price(stored_price);
    let cost = price as i128;
    let left = match spend_allowance(stored_allowance, ledger_seq, cost) {
        Ok(v) => v,
        Err(e) => return Err(e),
    };
    let new_balance = match burn_from(balance, cost) {
        Ok(b) => b,
        Err(e) => return Err(e),
    };
    let new_supply = match checked_credit(supply, -cost) {
        Ok(s) => s,
        Err(e) => return Err(e),
    };
    let new_revenue = match checked_credit(revenue, revenue_for(price)) {
        Ok(v) => v,
        Err(e) => return Err(e),
    };
    Ok(ConsumeWrites { allowance: left, balance: new_balance, supply: new_supply, revenue: new_revenue })
}

pub open spec fn spec_withdraw_step(revenue: i128, has_token: bool) -> Result<i128, GateError> {
    if revenue == 0 {
        Err(GateError::NoRevenue)
    } else if !has_token {
        Err(GateError::NotInitialized)
    } else {
        Ok(revenue)
    }
}

/// `withdraw_revenue` for a developer with `revenue` stroops: the amount to
/// pay out (its revenue is then written as 0).
pub fn withdraw_step(revenue: i128, has_token: bool) -> (r: Result<i128, GateError>)
    ensures
        r == spec_withdraw_step(revenue, has_token),
{
    if revenue == 0 {
        return Err(GateError::NoRevenue);
    }
    if !has_token {
        return Err(GateError::NotInitialized);
    }
    Ok(revenue)
}

pub open spec fn spec_admin_step(caller_is_admin: Option<bool>) -> Result<(), GateError> {
    match caller_is_admin {
        None => Err(GateError::NotInitialized),
        Some(false) => Err(GateError::NotAdmin),
        Some(true) => Ok(()),
    }
}

/// `set_api_price`: `caller_is_admin` is `None` when no admin is stored,
/// otherwise whether the caller is the stored admin.
pub fn admin_step(caller_is_admin: Option<bool>) -> (r: Result<(), GateError>)
    ensures
        r == spec_admin_step(caller_is_admin),
{
    match caller_is_admin {
        None => Err(GateError::NotInitialized),
        Some(false) => Err(GateError::NotAdmin),
        Some(true) => Ok(()),
    }
}

pub open spec fn spec_transfer_step(
    amount: i128,
    from_balance: i128,
    to_balance: i128,
    same_account: bool,
) -> Result<TransferWrites, GateError> {
    let debited = from_balance - amount;
    let to_before = if same_account {
        debited
    } else {
        to_balance as int
    };
    if amount <= 0 {
        Err(GateError::NonPositiveAmount)
    } else if from_balance < amount {
        Err(GateError::InsufficientBalance)
    } else if !fits_i128(to_before + amount) {
        Err(GateError::Overflow)
    } else {
        Ok(
            TransferWrites {
                from_balance: debited as i128,
                to_balance: (to_before + amount) as i128,
            },
        )
    }
}

/// `transfer` of `amount` tokens from a sender holding `from_balance` to a
/// receiver holding `to_balance`. The sender's balance is written first and
/// the receiver's read after it, so when both are the same account
/// (`same_account`) the receiver starts from the debited balance.
pub fn transfer_step(amount: i128, from_balance: i128, to_balance: i128, same_account: bool) -> (r:
    Result<TransferWrites, GateError>)
    ensures
        r == spec_transfer_step(amount, from_balance, to_balance, same_account),
{
    let debited = match debit_for_transfer(from_balance, amount) {
        Ok(b) => b,
        Err(e) => return Err(e),
    };
    let to_before = if same_account {
        debited
    } else {
        to_balance
    };
    let credited = match checked_credit(to_before, amount) {
        Ok(b) => b,
        Err(e) => return Err(e),
    };
    Ok(TransferWrites { from_balance: debited, to_balance: credited })
}

} // verus!
