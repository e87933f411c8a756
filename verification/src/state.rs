//! The abstract state of a gate and what each operation does to it.

use vstd::prelude::*;

use crate::rules::{
    spec_current_allowance, spec_effective_price, AllowanceValue, GateError, STROOPS_PER_GATE,
};
use crate::steps::{
    spec_admin_step, spec_buy_step, spec_consume_step, spec_initialize_step, spec_transfer_step,
    spec_withdraw_step,
};
use crate::sums::{all_nonneg, value_or_zero, value_sum};

verus! {

/// A party of an XLM payment: the contract itself (its escrow) or an account.
#[derive(Clone, Copy, Debug, PartialEq, Eq, Structural)]
pub enum Party {
    Gate,
    Account(u64),
}

/// An XLM payment that the host must make, in stroops, on the token
/// contract `token`, for an accepted operation to take effect.
#[derive(Clone, Copy, Debug, PartialEq, Eq, Structural)]
pub struct XlmTransfer {
    pub token: u64,
    pub from: Party,
    pub to: Party,
    pub amount: i128,
}

/// Everything a gate records, accounts being numbered by `u64`.
pub struct GateState {
    /// The account allowed to set prices, once initialized.
    pub admin: Option<u64>,
    /// The XLM token contract, once initialized.
    pub xlm_token: Option<u64>,
    /// GATE balances; an account that is absent holds 0.
    pub balances: Map<u64, i128>,
    /// Approvals that let the contract burn a user's tokens.
    pub allowances: Map<u64, AllowanceValue>,
    /// The recorded number of GATE tokens in circulation.
    pub total_supply: i128,
    /// Configured prices per endpoint name.
    pub prices: Map<Seq<char>, u32>,
    /// Stroops earned by each developer and not yet withdrawn.
    pub revenue: Map<u64, i128>,
    /// Stroops paid into the contract by buyers minus stroops paid out.
    pub escrow: int,
}

impl GateState {
    /// The state of a freshly deployed gate.
    pub open spec fn empty() -> GateState {
        GateState {
            admin: None,
            xlm_token: None,
            balances: Map::empty(),
            allowances: Map::empty(),
            total_supply: 0,
            prices: Map::empty(),
            revenue: Map::empty(),
            escrow: 0,
        }
    }

    pub open spec fn balance_of(self, account: u64) -> int {
        value_or_zero(self.balances, account)
    }

    pub open spec fn revenue_of(self, dev: u64) -> int {
        value_or_zero(self.revenue, dev)
    }

    pub open spec fn stored_allowance(self, account: u64) -> Option<AllowanceValue> {
        if self.allowances.contains_key(account) {
            Some(self.allowances[account])
        } else {
            None
        }
    }

    /// The allowance of `account` that counts at ledger `ledger_seq`.
    pub open spec fn allowance_at(self, account: u64, ledger_seq: u32) -> int {
        spec_current_allowance(self.stored_allowance(account), ledger_seq)
    }

    pub open spec fn stored_price(self, endpoint: Seq<char>) -> Option<u32> {
        if self.prices.contains_key(endpoint) {
            Some(self.prices[endpoint])
        } else {
            None
        }
    }

    /// What one call of `endpoint` costs, in GATE tokens.
    pub open spec fn price_of(self, endpoint: Seq<char>) -> u32 {
        spec_effective_price(self.stored_price(endpoint))
    }

    /// The stroops that the contract owes: all unwithdrawn revenue plus the
    /// XLM value of every GATE token in circulation.
    pub open spec fn backing(self) -> int {
        value_sum(self.revenue) + self.total_supply * STROOPS_PER_GATE
    }

    /// The accounting invariant of a gate: balances and revenues are never
    /// negative, the recorded supply is the sum of all balances, and the XLM
    /// held covers all revenue and the value of all tokens in circulation.
    pub open spec fn consistent(self) -> bool {
        &&& self.balances.dom().finite()
        &&& self.revenue.dom().finite()
        &&& all_nonneg(self.balances)
        &&& all_nonneg(self.revenue)
        &&& self.total_supply == value_sum(self.balances)
        &&& self.backing() <= self.escrow
        &&& self.admin.is_some() == self.xlm_token.is_some()
        &&& self.admin.is_none() ==> self.total_supply == 0
    }

    /// The stored balance of `account` (0 when none is stored).
    pub open spec fn balance_value(self, account: u64) -> i128 {
        if self.balances.contains_key(account) {
            self.balances[account]
        } else {
            0
        }
    }

    /// The stored revenue of `dev` (0 when none is stored).
    pub open spec fn revenue_value(self, dev: u64) -> i128 {
        if self.revenue.contains_key(dev) {
            self.revenue[dev]
        } else {
            0
        }
    }

    /// `initialize`: records the admin and the XLM token and sets the supply
    /// to zero, once.
    pub open spec fn initialized(self, admin: u64, xlm_token: u64) -> Result<GateState, GateError> {
        match spec_initialize_step(self.admin.is_some()) {
            Err(e) => Err(e),
            Ok(_) => Ok(
                GateState {
                    admin: Some(admin),
                    xlm_token: Some(xlm_token),
                    balances: self.balances,
                    allowances: self.allowances,
                    total_supply: 0,
                    prices: self.prices,
                    revenue: self.revenue,
                    escrow: self.escrow,
                },
            ),
        }
    }

    /// `buy_tokens`: `buyer` pays `xlm_amount` stroops into the escrow and
    /// receives `xlm_amount / STROOPS_PER_GATE` new tokens.
    pub open spec fn bought(self, buyer: u64, xlm_amount: i128) -> Result<
        (GateState, XlmTransfer),
        GateError,
    > {
        match spec_buy_step(
            xlm_amount,
            self.xlm_token.is_some(),
            self.balance_value(buyer),
            self.total_supply,
        ) {
            Err(e) => Err(e),
            Ok(w) => Ok(
                (
                    GateState {
                        admin: self.admin,
                        xlm_token: self.xlm_token,
                        balances: self.balances.insert(buyer, w.balance),
                        allowances: self.allowances,
                        total_supply: w.supply,
                        prices: self.prices,
                        revenue: self.revenue,
                        escrow: self.escrow + xlm_amount,
                    },
                    XlmTransfer {
                        token: self.xlm_token.unwrap(),
                        from: Party::Account(buyer),
                        to: Party::Gate,
                        amount: xlm_amount,
                    },
                ),
            ),
        }
    }

    /// `approve`: replaces the approval of `from`.
    pub open spec fn approved(self, from: u64, amount: i128, expiration_ledger: u32) -> GateState {
        GateState {
            admin: self.admin,
            xlm_token: self.xlm_token,
            balances: self.balances,
            allowances: self.allowances.insert(
                from,
                AllowanceValue { amount, expiration_ledger },
            ),
            total_supply: self.total_supply,
            prices: self.prices,
            revenue: self.revenue,
            escrow: self.escrow,
        }
    }

    /// `consume_token`: one call of `endpoint` by `user`, billed by `dev`.
    /// It needs an unexpired approval; the price leaves the user's approval
    /// and balance and the supply, and its XLM value is credited to the
    /// developer.
    pub open spec fn consumed(self, dev: u64, user: u64, endpoint: Seq<char>, ledger_seq: u32) -> Result<
        GateState,
        GateError,
    > {
        match spec_consume_step(
            self.stored_price(endpoint),
            self.stored_allowance(user),
            ledger_seq,
            self.balance_value(user),
            self.total_supply,
            self.revenue_value(dev),
        ) {
            Err(e) => Err(e),
            Ok(w) => Ok(
                GateState {
                    admin: self.admin,
                    xlm_token: self.xlm_token,
                    balances: self.balances.insert(user, w.balance),
                    allowances: self.allowances.insert(user, w.allowance),
                    total_supply: w.supply,
                    prices: self.prices,
                    revenue: self.revenue.insert(dev, w.revenue),
                    escrow: self.escrow,
                },
            ),
        }
    }

    /// `withdraw_revenue`: pays `dev` all of its revenue out of the escrow.
    pub open spec fn withdrawn(self, dev: u64) -> Result<(GateState, XlmTransfer), GateError> {
        match spec_withdraw_step(self.revenue_value(dev), self.xlm_token.is_some()) {
            Err(e) => Err(e),
            Ok(amount) => Ok(
                (
                    GateState {
                        admin: self.admin,
                        xlm_token: self.xlm_token,
                        balances: self.balances,
                        allowances: self.allowances,
                        total_supply: self.total_supply,
                        prices: self.prices,
                        revenue: self.revenue.insert(dev, 0),
                        escrow: self.escrow - amount,
                    },
                    XlmTransfer {
                        token: self.xlm_token.unwrap(),
                        from: Party::Gate,
                        to: Party::Account(dev),
                        amount,
                    },
                ),
            ),
        }
    }

    /// Whether `caller` is the stored admin (`None` when there is none).
    pub open spec fn caller_is_admin(self, caller: u64) -> Option<bool> {
        match self.admin {
            Some(a) => Some(a == caller),
            None => None,
        }
    }

    /// `set_api_price`: the admin sets the price of `endpoint`.
    pub open spec fn priced(self, caller: u64, endpoint: Seq<char>, price: u32) -> Result<
        GateState,
        GateError,
    > {
        match spec_admin_step(self.caller_is_admin(caller)) {
            Err(e) => Err(e),
            Ok(_) => Ok(
                GateState {
                    admin: self.admin,
                    xlm_token: self.xlm_token,
                    balances: self.balances,
                    allowances: self.allowances,
                    total_supply: self.total_supply,
                    prices: self.prices.insert(endpoint, price),
                    revenue: self.revenue,
                    escrow: self.escrow,
                },
            ),
        }
    }

    /// `transfer`: moves `amount` tokens from `from` to `to`. The sender's new
    /// balance is written first, then the receiver's balance is read and
    /// credited, so a transfer to oneself leaves the balance as it was.
    pub open spec fn transferred(self, from: u64, to: u64, amount: i128) -> Result<
        GateState,
        GateError,
    > {
        match spec_transfer_step(
            amount,
            self.balance_value(from),
            self.balance_value(to),
            from == to,
        ) {
            Err(e) => Err(e),
            Ok(w) => Ok(
                GateState {
                    admin: self.admin,
                    xlm_token: self.xlm_token,
                    balances: self.balances.insert(from, w.from_balance).insert(to, w.to_balance),
                    allowances: self.allowances,
                    total_supply: self.total_supply,
                    prices: self.prices,
                    revenue: self.revenue,
                    escrow: self.escrow,
                },
            ),
        }
    }

    /// The state after `op`: the new state when the operation is accepted,
    /// the same state when it is refused.
    pub open spec fn after(self, op: GateOp) -> GateState {
        match op {
            GateOp::Initialize { admin, xlm_token } => match self.initialized(admin, xlm_token) {
                Ok(n) => n,
                Err(_) => self,
            },
            GateOp::Buy { buyer, xlm_amount } => match self.bought(buyer, xlm_amount) {
                Ok((n, _)) => n,
                Err(_) => self,
            },
            GateOp::Approve { from, amount, expiration_ledger } => self.approved(
                from,
                amount,
                expiration_ledger,
            ),
            GateOp::Consume { dev, user, endpoint, ledger_seq } => match self.consumed(
                dev,
                user,
                endpoint,
                ledger_seq,
            ) {
                Ok(n) => n,
                Err(_) => self,
            },
            GateOp::Withdraw { dev } => match self.withdrawn(dev) {
                Ok((n, _)) => n,
                Err(_) => self,
            },
            GateOp::SetPrice { caller, endpoint, price } => match self.priced(
                caller,
                endpoint,
                price,
            ) {
                Ok(n) => n,
                Err(_) => self,
            },
            GateOp::Transfer { from, to, amount } => match self.transferred(from, to, amount) {
                Ok(n) => n,
                Err(_) => self,
            },
        }
    }

    /// The state after the operations `ops`, in order.
    pub open spec fn run(self, ops: Seq<GateOp>) -> GateState
        decreases ops.len(),
    {
        if ops.len() == 0 {
            self
        } else {
            self.run(ops.drop_last()).after(ops.last())
        }
    }

    /// Whether `op` is an accepted API call billed to `dev` at a price of at
    /// least one token.
    pub open spec fn bills(self, op: GateOp, dev: u64) -> bool {
        match op {
            GateOp::Consume { dev: d, user, endpoint, ledger_seq } => {
                &&& d == dev
                &&& self.price_of(endpoint) >= 1
                &&& self.consumed(d, user, endpoint, ledger_seq) is Ok
            },
            _ => false,
        }
    }
}

/// One contract operation, as requested of a gate.
pub enum GateOp {
    Initialize { admin: u64, xlm_token: u64 },
    Buy { buyer: u64, xlm_amount: i128 },
    Approve { from: u64, amount: i128, expiration_ledger: u32 },
    Consume { dev: u64, user: u64, endpoint: Seq<char>, ledger_seq: u32 },
    Withdraw { dev: u64 },
    SetPrice { caller: u64, endpoint: Seq<char>, price: u32 },
    Transfer { from: u64, to: u64, amount: i128 },
}

} // verus!
