//! The pricing and accounting rules of the contract, as pure functions on the
//! plain values that a host reads from and writes back to contract storage.

use vstd::prelude::*;

verus! {

/// Exchange rate: one GATE token is bought with 1_000_000 stroops (0.1 XLM).
pub const STROOPS_PER_GATE: i128 = 1_000_000;

/// Price, in GATE tokens, of an endpoint that has no configured price.
pub const DEFAULT_API_PRICE: u32 = 1;

/// Why a gate operation is refused. A refused operation changes nothing.
#[derive(Clone, Copy, Debug, PartialEq, Eq, Structural)]
pub enum GateError {
    /// `initialize` was called on a gate that already has an admin.
    AlreadyInitialized,
    /// The operation needs the admin or the XLM token, and neither is set.
    NotInitialized,
    /// A purchase below `STROOPS_PER_GATE` stroops.
    MinimumPurchase,
    /// The user's unexpired allowance is below the endpoint price.
    InsufficientAllowance,
    /// The token balance is below the amount to burn or send.
    InsufficientBalance,
    /// A withdrawal by a developer whose recorded revenue is zero.
    NoRevenue,
    /// `set_api_price` called by someone other than the stored admin.
    NotAdmin,
    /// A transfer of zero or a negative amount.
    NonPositiveAmount,
    /// A result that does not fit in an `i128`.
    Overflow,
}

/// An approval that lets the contract burn up to `amount` tokens of a user,
/// valid while the ledger sequence is at most `expiration_ledger`.
#[derive(Clone, Copy, Debug, PartialEq, Eq, Structural)]
pub struct AllowanceValue {
    pub amount: i128,
    pub expiration_ledger: u32,
}

/// The allowance that counts at ledger `ledger_seq`: the stored amount while
/// it has not expired, zero otherwise.
pub open spec fn spec_current_allowance(stored: Option<AllowanceValue>, ledger_seq: u32) -> int {
    match stored {
        Some(v) => if v.expiration_ledger >= ledger_seq { v.amount as int } else { 0 },
        None => 0,
    }
}

/// Whether an approval is stored and has not expired at ledger `ledger_seq`.
pub open spec fn is_active(stored: Option<AllowanceValue>, ledger_seq: u32) -> bool {
    match stored {
        Some(v) => v.expiration_ledger >= ledger_seq,
        None => false,
    }
}

/// Taking `amount` out of an approval at ledger `ledger_seq`: refused when no
/// unexpired approval is stored, or when it is below `amount`; otherwise the
/// approval keeps its expiration and loses `amount`.
pub open spec fn spec_spend_allowance(stored: Option<AllowanceValue>, ledger_seq: u32, amount: int) -> Result<
    AllowanceValue,
    GateError,
> {
    if !is_active(stored, ledger_seq) {
        Err(GateError::InsufficientAllowance)
    } else {
        let v = stored.unwrap();
        if v.amount < amount {
            Err(GateError::InsufficientAllowance)
        } else if !fits_i128(v.amount - amount) {
            Err(GateError::Overflow)
        } else {
            Ok(AllowanceValue { amount: (v.amount - amount) as i128, expiration_ledger: v.expiration_ledger })
        }
    }
}

/// The price of an endpoint whose stored price is `stored`.
pub open spec fn spec_effective_price(stored: Option<u32>) -> u32 {
    match stored {
        Some(p) => p,
        None => DEFAULT_API_PRICE,
    }
}

/// Whether `x` is representable as an `i128`.
pub open spec fn fits_i128(x: int) -> bool {
    i128::MIN <= x <= i128::MAX
}

/// Number of GATE tokens minted for a purchase of `xlm_amount` stroops.
/// Fractions of a token are kept by the contract and not minted.
pub fn tokens_for_xlm(xlm_amount: i128) -> (r: Result<i128, GateError>)
    ensures
        xlm_amount < STROOPS_PER_GATE ==> r == Err::<i128, GateError>(GateError::MinimumPurchase),
        xlm_amount >= STROOPS_PER_GATE ==> r == Ok::<i128, GateError>(
            (xlm_amount / STROOPS_PER_GATE) as i128,
        ),
{
    if xlm_amount < STROOPS_PER_GATE {
        return Err(GateError::MinimumPurchase);
    }
    Ok(xlm_amount / STROOPS_PER_GATE)
}

/// The allowance that counts at ledger `ledger_seq`.
pub fn current_allowance(stored: Option<AllowanceValue>, ledger_seq: u32) -> (r: i128)
    ensures
        r == spec_current_allowance(stored, ledger_seq),
{
    match stored {
        Some(v) => if v.expiration_ledger >= ledger_seq { v.amount } else { 0 },
        None => 0,
    }
}

/// Takes `amount` out of the approval stored for a user, at ledger
/// `ledger_seq`; without an unexpired approval nothing can be spent.
pub fn spend_allowance(stored: Option<AllowanceValue>, ledger_seq: u32, amount: i128) -> (r: Result<
    AllowanceValue,
    GateError,
>)
    ensures
        r == spec_spend_allowance(stored, ledger_seq, amount as int),
{
    let v = match stored {
        Some(v) => v,
        None => return Err(GateError::InsufficientAllowance),
    };
    if v.expiration_ledger < ledger_seq {
        return Err(GateError::InsufficientAllowance);
    }
    if v.amount < amount {
        return Err(GateError::InsufficientAllowance);
    }
    match v.amount.checked_sub(amount) {
        Some(rest) => Ok(AllowanceValue { amount: rest, expiration_ledger: v.expiration_ledger }),
        None => Err(GateError::Overflow),
    }
}

/// The price, in GATE tokens, of an endpoint whose stored price is `stored`.
pub fn effective_price(stored: Option<u32>) -> (r: u32)
    ensures
        r == spec_effective_price(stored),
{
    match stored {
        Some(p) => p,
        None => DEFAULT_API_PRICE,
    }
}

/// Stroops credited to a developer for one call of an endpoint that costs
/// `price` tokens.
pub fn revenue_for(price: u32) -> (r: i128)
    ensures
        r == price * STROOPS_PER_GATE,
{
    assert(price * STROOPS_PER_GATE <= 0xffff_ffff * 1_000_000) by (nonlinear_arith)
        requires
            price <= 0xffff_ffff,
    ;
    (price as i128) * STROOPS_PER_GATE
}

/// Burns `amount` tokens from `balance`.
pub fn burn_from(balance: i128, amount: i128) -> (r: Result<i128, GateError>)
    ensures
        balance < amount ==> r == Err::<i128, GateError>(GateError::InsufficientBalance),
        balance >= amount && !fits_i128(balance - amount) ==> r == Err::<i128, GateError>(
            GateError::Overflow,
        ),
        balance >= amount && fits_i128(balance - amount) ==> r == Ok::<i128, GateError>(
            (balance - amount) as i128,
        ),
{
    if balance < amount {
        return Err(GateError::InsufficientBalance);
    }
    match balance.checked_sub(amount) {
        Some(b) => Ok(b),
        None => Err(GateError::Overflow),
    }
}

/// Takes `amount` tokens from a sender's `balance` for a transfer.
pub fn debit_for_transfer(balance: i128, amount: i128) -> (r: Result<i128, GateError>)
    ensures
        amount <= 0 ==> r == Err::<i128, GateError>(GateError::NonPositiveAmount),
        amount > 0 && balance < amount ==> r == Err::<i128, GateError>(
            GateError::InsufficientBalance,
        ),
        amount > 0 && balance >= amount ==> r == Ok::<i128, GateError>((balance - amount) as i128),
{
    if amount <= 0 {
        return Err(GateError::NonPositiveAmount);
    }
    if balance < amount {
        return Err(GateError::InsufficientBalance);
    }
    Ok(balance - amount)
}

/// Adds `amount` to `value`, refusing a sum that does not fit in an `i128`.
pub fn checked_credit(value: i128, amount: i128) -> (r: Result<i128, GateError>)
    ensures
        fits_i128(value + amount) ==> r == Ok::<i128, GateError>((value + amount) as i128),
        !fits_i128(value + amount) ==> r == Err::<i128, GateError>(GateError::Overflow),
{
    match value.checked_add(amount) {
        Some(v) => Ok(v),
        None => Err(GateError::Overflow),
    }
}

} // verus!
