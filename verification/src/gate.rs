//! The contract itself: its records and the operations of the contract.

use std::collections::HashMap;

use vstd::prelude::*;

use crate::prices::PriceTable;
use crate::rules::{current_allowance, effective_price, AllowanceValue, GateError, STROOPS_PER_GATE};
use crate::steps::{
    admin_step, buy_step, consume_step, initialize_step, transfer_step, withdraw_step,
};
use crate::state::{GateState, Party, XlmTransfer};
use crate::sums::{lemma_sum_empty, lemma_sum_insert, lemma_value_le_sum};

verus! {

broadcast use vstd::std_specs::hash::group_hash_axioms;

/// The records of a pay-per-use API gate: its GATE token ledger, the
/// approvals users gave the contract, endpoint prices and developer revenue.
pub struct TokenGate {
    admin: Option<u64>,
    xlm_token: Option<u64>,
    balances: HashMap<u64, i128>,
    allowances: HashMap<u64, AllowanceValue>,
    total_supply: i128,
    prices: PriceTable,
    dev_revenue: HashMap<u64, i128>,
    escrow: Ghost<int>,
}

impl View for TokenGate {
    type V = GateState;

    closed spec fn view(&self) -> GateState {
        GateState {
            admin: self.admin,
            xlm_token: self.xlm_token,
            balances: self.balances@,
            allowances: self.allowances@,
            total_supply: self.total_supply,
            prices: self.prices@,
            revenue: self.dev_revenue@,
            escrow: self.escrow@,
        }
    }
}

impl TokenGate {
    /// The records are consistent: the price list is well formed and the
    /// accounting invariant holds.
    pub closed spec fn wf(&self) -> bool {
        &&& self.prices.wf()
        &&& self@.consistent()
    }

    /// Consistent records have consistent books.
    pub(crate) proof fn lemma_wf_consistent(&self)
        requires
            self.wf(),
        ensures
            self@.consistent(),
    {
    }

    /// A freshly deployed gate: nothing recorded yet.
    pub fn new() -> (g: TokenGate)
        ensures
            g.wf(),
            g@ == GateState::empty(),
    {
        let g = TokenGate {
            admin: None,
            xlm_token: None,
            balances: HashMap::new(),
            allowances: HashMap::new(),
            total_supply: 0,
            prices: PriceTable::new(),
            dev_revenue: HashMap::new(),
            escrow: Ghost(0),
        };
        proof {
            lemma_sum_empty::<u64>();
            assert(g.balances@ =~= Map::empty());
            assert(g.dev_revenue@ =~= Map::empty());
        }
        g
    }

    fn read_balance(&self, account: u64) -> (r: i128)
        ensures
            r == self@.balance_of(account),
    {
        match self.balances.get(&account) {
            Some(b) => *b,
            None => 0,
        }
    }

    fn read_revenue(&self, dev: u64) -> (r: i128)
        ensures
            r == self@.revenue_of(dev),
    {
        match self.dev_revenue.get(&dev) {
            Some(v) => *v,
            None => 0,
        }
    }

    fn read_allowance(&self, account: u64) -> (r: Option<AllowanceValue>)
        ensures
            r == self@.stored_allowance(account),
    {
        match self.allowances.get(&account) {
            Some(v) => Some(*v),
            None => None,
        }
    }

    /// Records the admin and the XLM token contract; refused once done.
    pub fn initialize(&mut self, admin: u64, xlm_token: u64) -> (r: Result<(), GateError>)
        requires
            old(self).wf(),
        ensures
            final(self).wf(),
            match old(self)@.initialized(admin, xlm_token) {
                Ok(next) => r == Ok::<(), GateError>(()) && final(self)@ == next,
                Err(e) => r == Err::<(), GateError>(e) && final(self)@ == old(self)@,
            },
    {
        match initialize_step(self.admin.is_some()) {
            Ok(()) => {},
            Err(e) => return Err(e),
        }
        self.admin = Some(admin);
        self.xlm_token = Some(xlm_token);
        self.total_supply = 0;
        Ok(())
    }

    /// Sells GATE tokens for XLM at `STROOPS_PER_GATE` stroops a token. On
    /// success the host must collect the returned payment from the buyer.
    pub fn buy_tokens(&mut self, buyer: u64, xlm_amount: i128) -> (r: Result<XlmTransfer, GateError>)
        requires
            old(self).wf(),
        ensures
            final(self).wf(),
            match old(self)@.bought(buyer, xlm_amount) {
                Ok((next, pay)) => r == Ok::<XlmTransfer, GateError>(pay) && final(self)@ == next,
                Err(e) => r == Err::<XlmTransfer, GateError>(e) && final(self)@ == old(self)@,
            },
    {
        let bal = self.read_balance(buyer);
        let w = match buy_step(xlm_amount, self.xlm_token.is_some(), bal, self.total_supply) {
            Ok(w) => w,
            Err(e) => return Err(e),
        };
        let token = match self.xlm_token {
            Some(t) => t,
            None => return Err(GateError::NotInitialized),
        };
        let ghost before = self@;
        self.balances.insert(buyer, w.balance);
        self.total_supply = w.supply;
        self.escrow = Ghost(self.escrow@ + xlm_amount);
        proof {
            lemma_sum_insert(before.balances, buyer, w.balance);
            assert(w.minted * STROOPS_PER_GATE <= xlm_amount) by (nonlinear_arith)
                requires
                    w.minted == xlm_amount / STROOPS_PER_GATE,
                    xlm_amount >= STROOPS_PER_GATE,
            ;
            assert(self@.balances == before.balances.insert(buyer, w.balance));
        }
        Ok(XlmTransfer { token, from: Party::Account(buyer), to: Party::Gate, amount: xlm_amount })
    }

    /// Lets the contract burn up to `amount` tokens of `from` until ledger
    /// `expiration_ledger`, replacing any earlier approval.
    pub fn approve(&mut self, from: u64, amount: i128, expiration_ledger: u32)
        requires
            old(self).wf(),
        ensures
            final(self).wf(),
            final(self)@ == old(self)@.approved(from, amount, expiration_ledger),
    {
        self.allowances.insert(from, AllowanceValue { amount, expiration_ledger });
    }

    /// Bills one call of `endpoint` by `user` to `dev`, at ledger `ledger_seq`.
    pub fn consume_token(&mut self, dev: u64, user: u64, endpoint: &String, ledger_seq: u32) -> (r:
        Result<(), GateError>)
        requires
            old(self).wf(),
        ensures
            final(self).wf(),
            match old(self)@.consumed(dev, user, endpoint@, ledger_seq) {
                Ok(next) => r == Ok::<(), GateError>(()) && final(self)@ == next,
                Err(e) => r == Err::<(), GateError>(e) && final(self)@ == old(self)@,
            },
    {
        let stored_price = self.prices.get(endpoint);
        let stored = self.read_allowance(user);
        let bal = self.read_balance(user);
        let rev = self.read_revenue(dev);
        let w = match consume_step(stored_price, stored, ledger_seq, bal, self.total_supply, rev) {
            Ok(w) => w,
            Err(e) => return Err(e),
        };
        let ghost before = self@;
        self.allowances.insert(user, w.allowance);
        self.balances.insert(user, w.balance);
        self.total_supply = w.supply;
        self.dev_revenue.insert(dev, w.revenue);
        proof {
            lemma_value_le_sum(before.balances, user);
            lemma_sum_insert(before.balances, user, w.balance);
            lemma_sum_insert(before.revenue, dev, w.revenue);
            assert(self@.balances == before.balances.insert(user, w.balance));
            assert(self@.revenue == before.revenue.insert(dev, w.revenue));
        }
        Ok(())
    }

    /// Pays `dev` all of its revenue. On success the host must make the
    /// returned payment out of the contract's escrow.
    pub fn withdraw_revenue(&mut self, dev: u64) -> (r: Result<XlmTransfer, GateError>)
        requires
            old(self).wf(),
        ensures
            final(self).wf(),
            match old(self)@.withdrawn(dev) {
                Ok((next, pay)) => r == Ok::<XlmTransfer, GateError>(pay) && final(self)@ == next,
                Err(e) => r == Err::<XlmTransfer, GateError>(e) && final(self)@ == old(self)@,
            },
    {
        let rev = self.read_revenue(dev);
        let amount = match withdraw_step(rev, self.xlm_token.is_some()) {
            Ok(a) => a,
            Err(e) => return Err(e),
        };
        let token = match self.xlm_token {
            Some(t) => t,
            None => return Err(GateError::NotInitialized),
        };
        let ghost before = self@;
        self.dev_revenue.insert(dev, 0);
        self.escrow = Ghost(self.escrow@ - amount);
        proof {
            lemma_sum_insert(before.revenue, dev, 0);
            assert(self@.revenue == before.revenue.insert(dev, 0));
        }
        Ok(XlmTransfer { token, from: Party::Gate, to: Party::Account(dev), amount })
    }

    /// The admin sets the price, in GATE tokens, of one call of `endpoint`.
    pub fn set_api_price(&mut self, admin: u64, endpoint: String, price: u32) -> (r: Result<
        (),
        GateError,
    >)
        requires
            old(self).wf(),
        ensures
            final(self).wf(),
            match old(self)@.priced(admin, endpoint@, price) {
                Ok(next) => r == Ok::<(), GateError>(()) && final(self)@ == next,
                Err(e) => r == Err::<(), GateError>(e) && final(self)@ == old(self)@,
            },
    {
        let caller_is_admin = match self.admin {
            Some(a) => Some(a == admin),
            None => None,
        };
        match admin_step(caller_is_admin) {
            Ok(()) => {},
            Err(e) => return Err(e),
        }
        self.prices.set(endpoint, price);
        Ok(())
    }

    /// Moves `amount` GATE tokens from `from` to `to`.
    pub fn transfer(&mut self, from: u64, to: u64, amount: i128) -> (r: Result<(), GateError>)
        requires
            old(self).wf(),
        ensures
            final(self).wf(),
            match old(self)@.transferred(from, to, amount) {
                Ok(next) => r == Ok::<(), GateError>(()) && final(self)@ == next,
                Err(e) => r == Err::<(), GateError>(e) && final(self)@ == old(self)@,
            },
    {
        let from_bal = self.read_balance(from);
        let to_bal = self.read_balance(to);
        let w = match transfer_step(amount, from_bal, to_bal, from == to) {
            Ok(w) => w,
            Err(e) => return Err(e),
        };
        let ghost before = self@;
        let ghost debited = before.balances.insert(from, w.from_balance);
        proof {
            lemma_sum_insert(before.balances, from, w.from_balance);
            lemma_sum_insert(debited, to, w.to_balance);
        }
        self.balances.insert(from, w.from_balance);
        self.balances.insert(to, w.to_balance);
        assert(self@.balances == debited.insert(to, w.to_balance));
        Ok(())
    }

    /// The token balance of `user` (0 for an account never credited).
    pub fn gate_balance(&self, user: u64) -> (r: i128)
        ensures
            r == self@.balance_of(user),
    {
        self.read_balance(user)
    }

    /// The number of GATE tokens in circulation.
    pub fn total_supply(&self) -> (r: i128)
        ensures
            r == self@.total_supply,
    {
        self.total_supply
    }

    /// The allowance of `from` that counts at ledger `ledger_seq`: 0 when
    /// there is no approval or it has expired.
    pub fn allowance(&self, from: u64, ledger_seq: u32) -> (r: i128)
        ensures
            r == self@.allowance_at(from, ledger_seq),
    {
        current_allowance(self.read_allowance(from), ledger_seq)
    }

    /// The price of one call of `endpoint` (the default price when none is
    /// configured).
    pub fn get_api_price(&self, endpoint: &String) -> (r: u32)
        requires
            self.wf(),
        ensures
            r == self@.price_of(endpoint@),
    {
        effective_price(self.prices.get(endpoint))
    }

    /// The revenue, in stroops, recorded for `dev` and not yet withdrawn.
    pub fn get_dev_revenue(&self, dev: u64) -> (r: i128)
        ensures
            r == self@.revenue_of(dev),
    {
        self.read_revenue(dev)
    }
}

} // verus!
