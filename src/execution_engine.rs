use vstd::prelude::*;

use crate::account::Account;
use crate::currency::{convert, convert_spec};
use crate::decimal::{add_spec, mul_spec, sub_spec, Dec};
use crate::market_state::MarketState;
use crate::position::{entry_after, realized_after, size_after};
use crate::types::{Order, Side};

verus! {

/// The fee of a fill of `qty` at `price` and fee rate `rate`, in the margin
/// currency.
pub open spec fn fee_spec(acc: Account, qty: int, price: int, rate: int) -> int {
    convert_spec(acc.futures_type, mul_spec(qty, rate), price)
}

/// `new` is `prev` after a fill of `qty` on `side` at `price` that was
/// charged `fee`: the position moved, the realised profit and loss went to
/// the wallet and the fee left it; the resting orders did not change.
pub open spec fn is_fill(new: Account, prev: Account, side: Side, qty: int, price: int, fee: int) -> bool {
    &&& moved_by_fill(new, prev, side, qty, price, fee)
    &&& new.active_limit_orders@ == prev.active_limit_orders@
}

/// The position and the wallet of `new` are those of `prev` after a fill of
/// `qty` on `side` at `price` that was charged `fee`.
pub open spec fn moved_by_fill(
    new: Account,
    prev: Account,
    side: Side,
    qty: int,
    price: int,
    fee: int,
) -> bool {
    let size = prev.position.size.raw as int;
    let entry = prev.position.entry_price.raw as int;
    &&& new.wf()
    &&& new.futures_type == prev.futures_type
    &&& new.fee_maker == prev.fee_maker
    &&& new.position.leverage == prev.position.leverage
    &&& new.position.size.raw == size_after(size, side, qty)
    &&& new.position.entry_price.raw == entry_after(size, entry, side, qty, price)
    &&& new.margin.wallet_balance.raw == sub_spec(
        add_spec(
            prev.margin.wallet_balance.raw as int,
            realized_after(prev.futures_type, size, entry, side, qty, price),
        ),
        fee,
    )
}

/// Carries out fills on an account: moves the position, books profit and
/// loss, and charges fees.
#[derive(Clone, Copy, Debug, PartialEq, Eq, Structural)]
pub struct ExecutionEngine {
    pub fee_maker: Dec,
    pub fee_taker: Dec,
}

impl ExecutionEngine {
    pub fn new(fee_maker: Dec, fee_taker: Dec) -> (r: ExecutionEngine)
        ensures
            r == (ExecutionEngine { fee_maker, fee_taker }),
    {
        ExecutionEngine { fee_maker, fee_taker }
    }

    /// Fills `quantity` on `side` at `price`, charging the fee `rate`.
    fn execute_fill(&self, account: &mut Account, side: Side, quantity: Dec, price: Dec, rate: Dec)
        requires
            old(account).wf(),
        ensures
            is_fill(
                *final(account),
                *old(account),
                side,
                quantity.raw as int,
                price.raw as int,
                fee_spec(*old(account), quantity.raw as int, price.raw as int, rate.raw as int),
            ),
    {
        let fee = convert(account.futures_type, quantity.mul(rate), price);
        account.change_position(side, quantity, price);
        account.deduce_fees(fee);
    }

    /// Executes a market order at the top of book: a buy at the ask, a sell
    /// at the bid. Returns the order marked as filled.
    pub fn execute_market_order(
        &self,
        account: &mut Account,
        market_state: &MarketState,
        order: Order,
    ) -> (r: Order)
        requires
            old(account).wf(),
        ensures
            r == (Order { filled: true, ..order }),
            is_fill(
                *final(account),
                *old(account),
                order.side,
                order.quantity.raw as int,
                (match order.side {
                    Side::Buy => market_state.ask.raw,
                    Side::Sell => market_state.bid.raw,
                }) as int,
                fee_spec(
                    *old(account),
                    order.quantity.raw as int,
                    (match order.side {
                        Side::Buy => market_state.ask.raw,
                        Side::Sell => market_state.bid.raw,
                    }) as int,
                    self.fee_taker.raw as int,
                ),
            ),
    {
        let mut order = order;
        match order.side {
            Side::Buy => self.execute_market_buy(account, market_state, order.quantity),
            Side::Sell => self.execute_market_sell(account, market_state, order.quantity),
        }
        order.mark_filled();
        order
    }

    /// Buys `quantity` at the ask, paying the taker fee.
    pub fn execute_market_buy(&self, account: &mut Account, market_state: &MarketState, quantity: Dec)
        requires
            old(account).wf(),
        ensures
            is_fill(
                *final(account),
                *old(account),
                Side::Buy,
                quantity.raw as int,
                market_state.ask.raw as int,
                fee_spec(
                    *old(account),
                    quantity.raw as int,
                    market_state.ask.raw as int,
                    self.fee_taker.raw as int,
                ),
            ),
    {
        self.execute_fill(account, Side::Buy, quantity, market_state.ask, self.fee_taker);
    }

    /// Sells `quantity` at the bid, paying the taker fee.
    pub fn execute_market_sell(&self, account: &mut Account, market_state: &MarketState, quantity: Dec)
        requires
            old(account).wf(),
        ensures
            is_fill(
                *final(account),
                *old(account),
                Side::Sell,
                quantity.raw as int,
                market_state.bid.raw as int,
                fee_spec(
                    *old(account),
                    quantity.raw as int,
                    market_state.bid.raw as int,
                    self.fee_taker.raw as int,
                ),
            ),
    {
        self.execute_fill(account, Side::Sell, quantity, market_state.bid, self.fee_taker);
    }

    /// Fills a triggered buy limit order of `quantity` at its `price`,
    /// paying the maker fee.
    pub fn execute_limit_buy(&self, account: &mut Account, quantity: Dec, price: Dec)
        requires
            old(account).wf(),
        ensures
            is_fill(
                *final(account),
                *old(account),
                Side::Buy,
                quantity.raw as int,
                price.raw as int,
                fee_spec(*old(account), quantity.raw as int, price.raw as int, self.fee_maker.raw as int),
            ),
    {
        self.execute_fill(account, Side::Buy, quantity, price, self.fee_maker);
    }

    /// Fills a triggered sell limit order of `quantity` at its `price`,
    /// paying the maker fee.
    pub fn execute_limit_sell(&self, account: &mut Account, quantity: Dec, price: Dec)
        requires
            old(account).wf(),
        ensures
            is_fill(
                *final(account),
                *old(account),
                Side::Sell,
                quantity.raw as int,
                price.raw as int,
                fee_spec(*old(account), quantity.raw as int, price.raw as int, self.fee_maker.raw as int),
            ),
    {
        self.execute_fill(account, Side::Sell, quantity, price, self.fee_maker);
    }
}

} // verus!
