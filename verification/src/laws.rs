//! What holds of the contract across its operations.

use vstd::prelude::*;

use crate::gate::TokenGate;
use crate::rules::{fits_i128, is_active, AllowanceValue, GateError, DEFAULT_API_PRICE, STROOPS_PER_GATE};
use crate::steps::{
    spec_admin_step, spec_buy_step, spec_consume_step, spec_initialize_step, spec_transfer_step,
    spec_withdraw_step, BuyWrites, ConsumeWrites, TransferWrites,
};
use crate::state::{GateOp, GateState, Party, XlmTransfer};
use crate::sums::{lemma_sum_insert, lemma_value_le_sum, value_or_zero, value_sum};

verus! {

/// The books of every gate balance: the recorded total supply is the sum of
/// all GATE balances, no balance or revenue is negative, and the XLM held in
/// escrow covers all unwithdrawn revenue plus `STROOPS_PER_GATE` stroops for
/// each token in circulation. Every operation keeps this (`wf`).
pub proof fn law_books_balance(g: TokenGate)
    requires
        g.wf(),
    ensures
        g@.consistent(),
        g@.total_supply == value_sum(g@.balances),
        value_sum(g@.revenue) + g@.total_supply * STROOPS_PER_GATE <= g@.escrow,
{
    g.lemma_wf_consistent();
}

/// A purchase mints `xlm_amount / STROOPS_PER_GATE` tokens to the buyer,
/// charges the buyer exactly `xlm_amount` stroops into the escrow, and the
/// value of the new tokens never exceeds what was paid.
pub proof fn law_purchase_mints_against_payment(s: GateState, buyer: u64, xlm_amount: i128)
    requires
        s.consistent(),
        s.bought(buyer, xlm_amount) is Ok,
    ensures
        ({
            let (n, pay) = s.bought(buyer, xlm_amount).unwrap();
            let minted = xlm_amount / STROOPS_PER_GATE;
            &&& minted >= 1
            &&& n.balance_of(buyer) == s.balance_of(buyer) + minted
            &&& n.total_supply == s.total_supply + minted
            &&& n.escrow == s.escrow + xlm_amount
            &&& pay.amount == xlm_amount
            &&& pay.from == Party::Account(buyer)
            &&& pay.to == Party::Gate
            &&& n.backing() == s.backing() + minted * STROOPS_PER_GATE
            &&& minted * STROOPS_PER_GATE <= xlm_amount
        }),
{
    let minted = xlm_amount / STROOPS_PER_GATE;
    assert(minted * STROOPS_PER_GATE <= xlm_amount) by (nonlinear_arith)
        requires
            minted == xlm_amount / STROOPS_PER_GATE,
            xlm_amount >= STROOPS_PER_GATE,
    ;
}

/// One API call moves value from tokens to revenue: the user's allowance,
/// balance and the total supply each drop by the endpoint price, the
/// developer's revenue grows by the price times `STROOPS_PER_GATE`, and what
/// the contract owes in total (revenue plus token value) is unchanged. A call
/// is only billed against an unexpired approval, and an approval and a
/// balance that both cover the price.
pub proof fn law_call_moves_tokens_to_revenue(
    s: GateState,
    dev: u64,
    user: u64,
    endpoint: Seq<char>,
    ledger_seq: u32,
)
    requires
        s.consistent(),
        s.consumed(dev, user, endpoint, ledger_seq) is Ok,
    ensures
        ({
            let n = s.consumed(dev, user, endpoint, ledger_seq).unwrap();
            let price = s.price_of(endpoint) as int;
            &&& is_active(s.stored_allowance(user), ledger_seq)
            &&& s.allowance_at(user, ledger_seq) >= price
            &&& s.balance_of(user) >= price
            &&& n.allowance_at(user, ledger_seq) == s.allowance_at(user, ledger_seq) - price
            &&& n.balance_of(user) == s.balance_of(user) - price
            &&& n.total_supply == s.total_supply - price
            &&& n.revenue_of(dev) == s.revenue_of(dev) + price * STROOPS_PER_GATE
            &&& n.backing() == s.backing()
            &&& n.escrow == s.escrow
        }),
{
    let n = s.consumed(dev, user, endpoint, ledger_seq).unwrap();
    let price = s.price_of(endpoint) as int;
    let rev = s.revenue_of(dev) + price * STROOPS_PER_GATE;
    lemma_sum_insert(s.revenue, dev, rev as i128);
    lemma_value_le_sum(s.balances, user);
}

/// A withdrawal pays the developer all of its revenue out of the escrow,
/// which always holds enough; afterwards its revenue is zero and a second
/// withdrawal is refused.
pub proof fn law_withdrawal_pays_all_revenue(s: GateState, dev: u64)
    requires
        s.consistent(),
        s.withdrawn(dev) is Ok,
    ensures
        ({
            let (n, pay) = s.withdrawn(dev).unwrap();
            &&& pay.amount == s.revenue_of(dev)
            &&& pay.from == Party::Gate
            &&& pay.to == Party::Account(dev)
            &&& 0 < pay.amount <= s.escrow
            &&& n.revenue_of(dev) == 0
            &&& n.escrow == s.escrow - pay.amount
            &&& n.total_supply == s.total_supply
            &&& n.withdrawn(dev) == Err::<(GateState, XlmTransfer), GateError>(
                GateError::NoRevenue,
            )
        }),
{
    lemma_value_le_sum(s.revenue, dev);
    lemma_value_le_sum(s.balances, dev);
}

/// A transfer creates and destroys nothing: the total supply and the sum of
/// all balances stay as they were; between two accounts the sender loses and
/// the receiver gains `amount`; a transfer to oneself changes no balance;
/// every other account is untouched.
pub proof fn law_transfer_conserves_tokens(s: GateState, from: u64, to: u64, amount: i128)
    requires
        s.consistent(),
        s.transferred(from, to, amount) is Ok,
    ensures
        ({
            let n = s.transferred(from, to, amount).unwrap();
            &&& n.total_supply == s.total_supply
            &&& value_sum(n.balances) == value_sum(s.balances)
            &&& from != to ==> n.balance_of(from) == s.balance_of(from) - amount
            &&& from != to ==> n.balance_of(to) == s.balance_of(to) + amount
            &&& from == to ==> n.balance_of(from) == s.balance_of(from)
            &&& forall|a: u64| a != from && a != to ==> n.balance_of(a) == s.balance_of(a)
        }),
{
    let debited = s.balances.insert(from, (s.balance_of(from) - amount) as i128);
    lemma_sum_insert(s.balances, from, (s.balance_of(from) - amount) as i128);
    lemma_value_le_sum(debited, to);
    lemma_sum_insert(debited, to, (value_or_zero(debited, to) + amount) as i128);
}

/// An approval is what the allowance reads back: the approved amount up to
/// the expiration ledger, zero after it.
pub proof fn law_allowance_reads_back_approval(
    s: GateState,
    from: u64,
    amount: i128,
    expiration_ledger: u32,
    ledger_seq: u32,
)
    ensures
        s.approved(from, amount, expiration_ledger).allowance_at(from, ledger_seq) == (if ledger_seq
            <= expiration_ledger {
            amount as int
        } else {
            0
        }),
{
}

/// A price set by the admin is the price read back; endpoints with no
/// configured price cost one token per call.
pub proof fn law_price_reads_back(s: GateState, caller: u64, endpoint: Seq<char>, price: u32)
    ensures
        s.priced(caller, endpoint, price) is Ok ==> s.priced(caller, endpoint, price).unwrap().price_of(
            endpoint,
        ) == price,
        s.priced(caller, endpoint, price) is Ok ==> s.admin == Some(caller),
        !s.prices.contains_key(endpoint) ==> s.price_of(endpoint) == 1,
{
}

/// A gate is initialized at most once.
pub proof fn law_initialize_once(s: GateState, admin: u64, xlm_token: u64, admin2: u64, xlm_token2: u64)
    ensures
        s.initialized(admin, xlm_token) is Ok ==> s.initialized(
            admin,
            xlm_token,
        ).unwrap().initialized(admin2, xlm_token2) == Err::<GateState, GateError>(
            GateError::AlreadyInitialized,
        ),
{
}

/// Without an unexpired approval no API call is billed, whatever the
/// endpoint and its price: the call is refused for lack of allowance and
/// nothing changes.
pub proof fn law_no_approval_no_call(
    s: GateState,
    dev: u64,
    user: u64,
    endpoint: Seq<char>,
    ledger_seq: u32,
)
    requires
        !is_active(s.stored_allowance(user), ledger_seq),
    ensures
        s.consumed(dev, user, endpoint, ledger_seq) == Err::<GateState, GateError>(
            GateError::InsufficientAllowance,
        ),
        s.after(GateOp::Consume { dev, user, endpoint, ledger_seq }) == s,
{
}

/// A developer whose revenue is zero keeps zero revenue through any
/// operation other than an accepted call billed to it at a price of at
/// least one token.
pub proof fn law_zero_revenue_stays_zero(s: GateState, op: GateOp, dev: u64)
    requires
        s.revenue_of(dev) == 0,
        !s.bills(op, dev),
    ensures
        s.after(op).revenue_of(dev) == 0,
{
}

/// Credited revenue is paid out at most once: from a state where `dev` has
/// no revenue (as right after its withdrawal), as long as no accepted call
/// is billed to `dev` at a price of at least one token, its revenue stays
/// zero and every withdrawal it asks for is refused.
pub proof fn law_revenue_paid_out_once(s: GateState, dev: u64, ops: Seq<GateOp>)
    requires
        s.revenue_of(dev) == 0,
        forall|i: int| 0 <= i < ops.len() ==> !(#[trigger] s.run(ops.take(i))).bills(ops[i], dev),
    ensures
        s.run(ops).revenue_of(dev) == 0,
        s.run(ops).withdrawn(dev) == Err::<(GateState, XlmTransfer), GateError>(
            GateError::NoRevenue,
        ),
    decreases ops.len(),
{
    if ops.len() > 0 {
        let prefix = ops.drop_last();
        assert forall|i: int| 0 <= i < prefix.len() implies !(#[trigger] s.run(
            prefix.take(i),
        )).bills(prefix[i], dev) by {
            assert(prefix.take(i) =~= ops.take(i));
            assert(prefix[i] == ops[i]);
            assert(!s.run(ops.take(i)).bills(ops[i], dev));
        }
        law_revenue_paid_out_once(s, dev, prefix);
        assert(ops.take(ops.len() - 1) =~= prefix);
        assert(!s.run(ops.take(ops.len() - 1)).bills(ops[ops.len() - 1], dev));
        law_zero_revenue_stays_zero(s.run(prefix), ops.last(), dev);
    }
}

/// A purchase of at least `STROOPS_PER_GATE` stroops, once the XLM token is
/// recorded, is accepted whenever the new balance and supply fit: it mints
/// `xlm_amount / STROOPS_PER_GATE` tokens, however many that is.
pub proof fn law_purchase_step_accepts(xlm_amount: i128, balance: i128, supply: i128)
    requires
        xlm_amount >= STROOPS_PER_GATE,
        fits_i128(balance + xlm_amount / STROOPS_PER_GATE),
        fits_i128(supply + xlm_amount / STROOPS_PER_GATE),
    ensures
        spec_buy_step(xlm_amount, true, balance, supply) == Ok::<BuyWrites, GateError>(
            BuyWrites {
                minted: (xlm_amount / STROOPS_PER_GATE) as i128,
                balance: (balance + xlm_amount / STROOPS_PER_GATE) as i128,
                supply: (supply + xlm_amount / STROOPS_PER_GATE) as i128,
            },
        ),
{
}

/// On an initialized gate, a purchase of at least `STROOPS_PER_GATE` stroops
/// whose new balance and supply fit is accepted: the buyer gains
/// `xlm_amount / STROOPS_PER_GATE` tokens, so does the supply, and the buyer
/// pays exactly `xlm_amount` stroops into the escrow.
pub proof fn law_purchase_accepted(s: GateState, buyer: u64, xlm_amount: i128)
    requires
        xlm_amount >= STROOPS_PER_GATE,
        s.xlm_token is Some,
        fits_i128(s.balance_of(buyer) + xlm_amount / STROOPS_PER_GATE),
        fits_i128(s.total_supply + xlm_amount / STROOPS_PER_GATE),
    ensures
        s.bought(buyer, xlm_amount) is Ok,
        ({
            let (n, pay) = s.bought(buyer, xlm_amount).unwrap();
            &&& n.balance_of(buyer) == s.balance_of(buyer) + xlm_amount / STROOPS_PER_GATE
            &&& n.total_supply == s.total_supply + xlm_amount / STROOPS_PER_GATE
            &&& forall|a: u64| a != buyer ==> n.balance_of(a) == s.balance_of(a)
            &&& n.escrow == s.escrow + xlm_amount
            &&& n.revenue == s.revenue
            &&& n.allowances == s.allowances
            &&& n.prices == s.prices
            &&& n.admin == s.admin
            &&& pay == XlmTransfer {
                token: s.xlm_token.unwrap(),
                from: Party::Account(buyer),
                to: Party::Gate,
                amount: xlm_amount,
            }
        }),
{
}

/// An API call against an unexpired approval that covers the price, by a
/// user whose balance covers it, is accepted whenever the new supply and
/// revenue fit: the approval keeps its expiration and loses the price, the
/// balance and supply lose it, and the revenue gains the price times
/// `STROOPS_PER_GATE`.
pub proof fn law_call_step_accepts(
    stored_price: Option<u32>,
    approval: AllowanceValue,
    ledger_seq: u32,
    balance: i128,
    supply: i128,
    revenue: i128,
)
    requires
        approval.expiration_ledger >= ledger_seq,
        approval.amount >= (match stored_price {
            Some(p) => p,
            None => DEFAULT_API_PRICE,
        }),
        balance >= (match stored_price {
            Some(p) => p,
            None => DEFAULT_API_PRICE,
        }),
        fits_i128(
            supply - (match stored_price {
                Some(p) => p,
                None => DEFAULT_API_PRICE,
            }),
        ),
        fits_i128(
            revenue + (match stored_price {
                Some(p) => p,
                None => DEFAULT_API_PRICE,
            }) * STROOPS_PER_GATE,
        ),
    ensures
        ({
            let price: int = match stored_price {
                Some(p) => p as int,
                None => DEFAULT_API_PRICE as int,
            };
            spec_consume_step(stored_price, Some(approval), ledger_seq, balance, supply, revenue)
                == Ok::<ConsumeWrites, GateError>(
                ConsumeWrites {
                    allowance: AllowanceValue {
                        amount: (approval.amount - price) as i128,
                        expiration_ledger: approval.expiration_ledger,
                    },
                    balance: (balance - price) as i128,
                    supply: (supply - price) as i128,
                    revenue: (revenue + price * STROOPS_PER_GATE) as i128,
                },
            )
        }),
{
}

/// On any gate, an API call by a user with an unexpired approval `approval`
/// that covers the endpoint price, and a balance that covers it, is accepted
/// whenever the new supply and revenue fit, with the effects of the call.
pub proof fn law_call_accepted(
    s: GateState,
    dev: u64,
    user: u64,
    endpoint: Seq<char>,
    ledger_seq: u32,
    approval: AllowanceValue,
)
    requires
        s.stored_allowance(user) == Some(approval),
        approval.expiration_ledger >= ledger_seq,
        approval.amount >= s.price_of(endpoint),
        s.balance_of(user) >= s.price_of(endpoint),
        fits_i128(s.total_supply - s.price_of(endpoint)),
        fits_i128(s.revenue_of(dev) + s.price_of(endpoint) * STROOPS_PER_GATE),
    ensures
        s.consumed(dev, user, endpoint, ledger_seq) is Ok,
        ({
            let n = s.consumed(dev, user, endpoint, ledger_seq).unwrap();
            let price = s.price_of(endpoint) as int;
            &&& n.stored_allowance(user) == Some(
                AllowanceValue {
                    amount: (approval.amount - price) as i128,
                    expiration_ledger: approval.expiration_ledger,
                },
            )
            &&& n.allowance_at(user, ledger_seq) == approval.amount - price
            &&& n.balance_of(user) == s.balance_of(user) - price
            &&& n.total_supply == s.total_supply - price
            &&& n.revenue_of(dev) == s.revenue_of(dev) + price * STROOPS_PER_GATE
            &&& forall|a: u64| a != user ==> n.balance_of(a) == s.balance_of(a)
            &&& forall|a: u64| a != user ==> n.stored_allowance(a) == s.stored_allowance(a)
            &&& forall|d: u64| d != dev ==> n.revenue_of(d) == s.revenue_of(d)
            &&& n.prices == s.prices
            &&& n.escrow == s.escrow
            &&& n.admin == s.admin
            &&& n.xlm_token == s.xlm_token
        }),
{
    law_call_step_accepts(
        s.stored_price(endpoint),
        approval,
        ledger_seq,
        s.balance_value(user),
        s.total_supply,
        s.revenue_value(dev),
    );
}

/// A positive transfer covered by the sender's balance is accepted whenever
/// the receiver's new balance fits (always, for a transfer to oneself).
pub proof fn law_transfer_step_accepts(
    amount: i128,
    from_balance: i128,
    to_balance: i128,
    same_account: bool,
)
    requires
        0 < amount <= from_balance,
        same_account || fits_i128(to_balance + amount),
    ensures
        spec_transfer_step(amount, from_balance, to_balance, same_account) == Ok::<
            TransferWrites,
            GateError,
        >(
            TransferWrites {
                from_balance: (from_balance - amount) as i128,
                to_balance: (if same_account {
                    from_balance as int
                } else {
                    to_balance + amount
                }) as i128,
            },
        ),
{
}

/// On any gate, a positive transfer covered by the sender's balance is
/// accepted whenever the receiver's new balance fits, down to the sender's
/// whole balance: the sender loses and the receiver gains `amount`.
pub proof fn law_transfer_accepted(s: GateState, from: u64, to: u64, amount: i128)
    requires
        0 < amount <= s.balance_of(from),
        from == to || fits_i128(s.balance_of(to) + amount),
    ensures
        s.transferred(from, to, amount) is Ok,
        from != to ==> s.transferred(from, to, amount).unwrap().balance_of(from) == s.balance_of(
            from,
        ) - amount,
        from != to ==> s.transferred(from, to, amount).unwrap().balance_of(to) == s.balance_of(to)
            + amount,
        from == to ==> s.transferred(from, to, amount).unwrap().balance_of(from) == s.balance_of(
            from,
        ),
        forall|a: u64|
            a != from && a != to ==> s.transferred(from, to, amount).unwrap().balance_of(a)
                == s.balance_of(a),
        s.transferred(from, to, amount).unwrap().total_supply == s.total_supply,
        s.transferred(from, to, amount).unwrap().revenue == s.revenue,
        s.transferred(from, to, amount).unwrap().allowances == s.allowances,
{
}

/// A developer with any nonzero revenue can withdraw all of it, once the
/// XLM token is recorded.
pub proof fn law_withdraw_step_accepts(revenue: i128)
    requires
        revenue != 0,
    ensures
        spec_withdraw_step(revenue, true) == Ok::<i128, GateError>(revenue),
{
}

/// On an initialized gate, a developer with nonzero revenue is paid all of
/// it and left with none.
pub proof fn law_withdrawal_accepted(s: GateState, dev: u64)
    requires
        s.xlm_token is Some,
        s.revenue_of(dev) != 0,
    ensures
        s.withdrawn(dev) is Ok,
        ({
            let (n, pay) = s.withdrawn(dev).unwrap();
            &&& pay == XlmTransfer {
                token: s.xlm_token.unwrap(),
                from: Party::Gate,
                to: Party::Account(dev),
                amount: s.revenue_of(dev) as i128,
            }
            &&& n.revenue_of(dev) == 0
            &&& forall|d: u64| d != dev ==> n.revenue_of(d) == s.revenue_of(d)
            &&& n.balances == s.balances
            &&& n.total_supply == s.total_supply
            &&& n.escrow == s.escrow - s.revenue_of(dev)
        }),
{
}

/// The stored admin may set any price on any endpoint; the new price is read
/// back, and every other endpoint keeps its price.
pub proof fn law_admin_sets_any_price(s: GateState, caller: u64, endpoint: Seq<char>, price: u32)
    requires
        s.admin == Some(caller),
    ensures
        spec_admin_step(Some(true)) == Ok::<(), GateError>(()),
        s.priced(caller, endpoint, price) is Ok,
        s.priced(caller, endpoint, price).unwrap().price_of(endpoint) == price,
        forall|e: Seq<char>|
            e != endpoint ==> s.priced(caller, endpoint, price).unwrap().price_of(e) == s.price_of(
                e,
            ),
        s.priced(caller, endpoint, price).unwrap().balances == s.balances,
{
}

/// An uninitialized gate accepts `initialize`, recording the admin and the
/// XLM token with a supply of zero.
pub proof fn law_initialize_accepted(s: GateState, admin: u64, xlm_token: u64)
    requires
        s.admin is None,
    ensures
        spec_initialize_step(false) == Ok::<(), GateError>(()),
        s.initialized(admin, xlm_token) is Ok,
        s.initialized(admin, xlm_token).unwrap().admin == Some(admin),
        s.initialized(admin, xlm_token).unwrap().xlm_token == Some(xlm_token),
        s.initialized(admin, xlm_token).unwrap().total_supply == 0,
        s.initialized(admin, xlm_token).unwrap().balances == s.balances,
        s.initialized(admin, xlm_token).unwrap().allowances == s.allowances,
        s.initialized(admin, xlm_token).unwrap().revenue == s.revenue,
        s.initialized(admin, xlm_token).unwrap().prices == s.prices,
        s.initialized(admin, xlm_token).unwrap().escrow == s.escrow,
{
}

/// Which purchases are refused, and why: below `STROOPS_PER_GATE` stroops
/// for lack of the minimum, otherwise before initialization.
pub proof fn law_purchase_refusals(s: GateState, buyer: u64, xlm_amount: i128)
    ensures
        xlm_amount < STROOPS_PER_GATE ==> s.bought(buyer, xlm_amount) == Err::<
            (GateState, XlmTransfer),
            GateError,
        >(GateError::MinimumPurchase),
        xlm_amount >= STROOPS_PER_GATE && s.xlm_token is None ==> s.bought(buyer, xlm_amount)
            == Err::<(GateState, XlmTransfer), GateError>(GateError::NotInitialized),
        s.bought(buyer, xlm_amount) is Err ==> (xlm_amount < STROOPS_PER_GATE || s.xlm_token is None
            || !fits_i128(s.balance_of(buyer) + xlm_amount / STROOPS_PER_GATE) || !fits_i128(
            s.total_supply + xlm_amount / STROOPS_PER_GATE,
        )),
{
}

/// Which API calls are refused, and why: without an approval that is
/// unexpired and covers the price, for lack of allowance; otherwise when the
/// balance is below the price, for lack of balance; otherwise only when a
/// new value would not fit.
pub proof fn law_call_refusals(s: GateState, dev: u64, user: u64, endpoint: Seq<char>, ledger_seq: u32)
    ensures
        (s.allowance_at(user, ledger_seq) < s.price_of(endpoint) || !is_active(
            s.stored_allowance(user),
            ledger_seq,
        )) ==> s.consumed(dev, user, endpoint, ledger_seq) == Err::<GateState, GateError>(
            GateError::InsufficientAllowance,
        ),
        (is_active(s.stored_allowance(user), ledger_seq) && s.allowance_at(user, ledger_seq)
            >= s.price_of(endpoint) && s.balance_of(user) < s.price_of(endpoint)) ==> s.consumed(
            dev,
            user,
            endpoint,
            ledger_seq,
        ) == Err::<GateState, GateError>(GateError::InsufficientBalance),
        s.consumed(dev, user, endpoint, ledger_seq) is Err ==> (!is_active(
            s.stored_allowance(user),
            ledger_seq,
        ) || s.allowance_at(user, ledger_seq) < s.price_of(endpoint) || s.balance_of(user)
            < s.price_of(endpoint) || !fits_i128(s.total_supply - s.price_of(endpoint))
            || !fits_i128(s.revenue_of(dev) + s.price_of(endpoint) * STROOPS_PER_GATE)),
{
}

/// Which transfers are refused, and why: a zero or negative amount, or an
/// amount above the sender's balance.
pub proof fn law_transfer_refusals(s: GateState, from: u64, to: u64, amount: i128)
    ensures
        amount <= 0 ==> s.transferred(from, to, amount) == Err::<GateState, GateError>(
            GateError::NonPositiveAmount,
        ),
        amount > 0 && s.balance_of(from) < amount ==> s.transferred(from, to, amount) == Err::<
            GateState,
            GateError,
        >(GateError::InsufficientBalance),
        s.transferred(from, to, amount) is Err ==> (amount <= 0 || s.balance_of(from) < amount || (
        from != to && !fits_i128(s.balance_of(to) + amount))),
{
}

/// Which withdrawals are refused, and why: no revenue, or no XLM token.
pub proof fn law_withdrawal_refusals(s: GateState, dev: u64)
    ensures
        s.revenue_of(dev) == 0 ==> s.withdrawn(dev) == Err::<(GateState, XlmTransfer), GateError>(
            GateError::NoRevenue,
        ),
        s.revenue_of(dev) != 0 && s.xlm_token is None ==> s.withdrawn(dev) == Err::<
            (GateState, XlmTransfer),
            GateError,
        >(GateError::NotInitialized),
{
}

/// Which price changes are refused, and why: before initialization, or by
/// anyone but the stored admin.
pub proof fn law_price_refusals(s: GateState, caller: u64, endpoint: Seq<char>, price: u32)
    ensures
        s.admin is None ==> s.priced(caller, endpoint, price) == Err::<GateState, GateError>(
            GateError::NotInitialized,
        ),
        (s.admin is Some && s.admin != Some(caller)) ==> s.priced(caller, endpoint, price) == Err::<
            GateState,
            GateError,
        >(GateError::NotAdmin),
{
}

/// An approval touches only the approver's allowance.
pub proof fn law_approval_is_local(
    s: GateState,
    from: u64,
    amount: i128,
    expiration_ledger: u32,
    other: u64,
)
    requires
        other != from,
    ensures
        s.approved(from, amount, expiration_ledger).stored_allowance(other) == s.stored_allowance(
            other,
        ),
        s.approved(from, amount, expiration_ledger).stored_allowance(from) == Some(
            AllowanceValue { amount, expiration_ledger },
        ),
        s.approved(from, amount, expiration_ledger).balances == s.balances,
        s.approved(from, amount, expiration_ledger).total_supply == s.total_supply,
        s.approved(from, amount, expiration_ledger).revenue == s.revenue,
{
}

} // verus!
