use vstd::prelude::*;

use crate::account::Account;
use crate::currency::{convert, convert_spec};
use crate::decimal::{add_spec, clamp, div_spec, mul_spec, sub_spec, Dec};
use crate::errors::OrderError;
use crate::limit_order_margin::{order_margin, order_margin_spec};
use crate::types::{Order, Side};

verus! {

pub open spec fn min_int(a: int, b: int) -> int {
    if a <= b {
        a
    } else {
        b
    }
}

pub open spec fn max_int(a: int, b: int) -> int {
    if a >= b {
        a
    } else {
        b
    }
}

/// The part of a market order of `qty` on `side` that reduces existing
/// exposure (debit) and the part that opens new exposure (credit), in the
/// size currency, beside a position of signed size `pos` and the open limit
/// sizes of both sides.
pub open spec fn market_exposure(
    side: Side,
    qty: int,
    pos: int,
    open_buy: int,
    open_sell: int,
) -> (int, int) {
    if pos == 0 {
        match side {
            Side::Buy => (min_int(qty, open_sell), qty),
            Side::Sell => (min_int(qty, open_buy), qty),
        }
    } else if pos > 0 {
        match side {
            Side::Buy => (0, qty),
            Side::Sell => (min_int(qty, pos), max_int(0, sub_spec(qty, pos))),
        }
    } else {
        match side {
            Side::Buy => (min_int(qty, clamp(-pos)), max_int(0, sub_spec(qty, clamp(-pos)))),
            Side::Sell => (0, qty),
        }
    }
}

/// Checks orders against the current quotes, the fee schedule and the cap on
/// resting orders, and computes what they cost.
#[derive(Clone, Copy, Debug, PartialEq, Eq, Structural)]
pub struct Validator {
    pub fee_maker: Dec,
    pub fee_taker: Dec,
    pub bid: Dec,
    pub ask: Dec,
    pub max_num_open_orders: usize,
}

impl Validator {
    /// The price a market order on `side` executes at.
    pub open spec fn taker_price(self, side: Side) -> int {
        match side {
            Side::Buy => self.ask.raw as int,
            Side::Sell => self.bid.raw as int,
        }
    }

    /// Debit and credit of a market order, in the margin currency.
    pub open spec fn market_cost_spec(self, o: Order, acc: Account) -> (int, int) {
        let (d, c) = market_exposure(
            o.side,
            o.quantity.raw as int,
            acc.position.size.raw as int,
            acc.open_limit_buy_size.raw as int,
            acc.open_limit_sell_size.raw as int,
        );
        let lev = acc.position.leverage.raw as int;
        let price = self.taker_price(o.side);
        let ft = acc.futures_type;
        (
            convert_spec(ft, div_spec(d, lev), price),
            add_spec(
                convert_spec(ft, div_spec(c, lev), price),
                convert_spec(ft, mul_spec(o.quantity.raw as int, self.fee_taker.raw as int), price),
            ),
        )
    }

    /// The order margin that the account needs with `o` added to its
    /// resting orders, less the order margin it already holds.
    pub open spec fn limit_cost_spec(self, o: Order, acc: Account) -> int {
        sub_spec(
            order_margin_spec(
                acc.active_limit_orders@.push(o),
                acc.position.size.raw as int,
                acc.futures_type,
                acc.position.leverage.raw as int,
                self.fee_maker.raw as int,
            ),
            acc.margin.order_margin.raw as int,
        )
    }

    /// What `validate_market_order` decides.
    pub open spec fn market_result(self, o: Order, acc: Account) -> Result<(), OrderError> {
        let (debit, credit) = self.market_cost_spec(o, acc);
        if credit > add_spec(acc.available_spec(), debit) {
            Err(OrderError::NotEnoughAvailableBalance)
        } else {
            Ok(())
        }
    }

    /// What `validate_limit_order` decides.
    pub open spec fn limit_result(self, o: Order, acc: Account) -> Result<Dec, OrderError> {
        if acc.active_limit_orders@.len() >= self.max_num_open_orders {
            Err(OrderError::MaxActiveOrders)
        } else if o.side == Side::Buy && o.limit_price.raw > self.ask.raw {
            Err(OrderError::LimitPriceLargerThanAsk)
        } else if o.side == Side::Sell && o.limit_price.raw < self.bid.raw {
            Err(OrderError::LimitPriceLowerThanBid)
        } else if self.limit_cost_spec(o, acc) > acc.available_spec() {
            Err(OrderError::NotEnoughAvailableBalance)
        } else {
            Ok(Dec { raw: self.limit_cost_spec(o, acc) as i128 })
        }
    }

    /// A validator with the given fees and cap, and no quotes yet.
    pub fn new(fee_maker: Dec, fee_taker: Dec, max_num_open_orders: usize) -> (r: Validator)
        ensures
            r == (Validator {
                fee_maker,
                fee_taker,
                bid: Dec { raw: 0 },
                ask: Dec { raw: 0 },
                max_num_open_orders,
            }),
    {
        Validator { fee_maker, fee_taker, bid: Dec::zero(), ask: Dec::zero(), max_num_open_orders }
    }

    /// Takes in the newest quotes.
    pub fn update(&mut self, bid: Dec, ask: Dec)
        requires
            bid.raw <= ask.raw,
        ensures
            *final(self) == (Validator { bid, ask, ..*old(self) }),
    {
        self.bid = bid;
        self.ask = ask;
    }

    /// Debit (margin freed) and credit (margin needed, taker fee included)
    /// of a market order, in the margin currency.
    pub fn order_cost_market(&self, order: &Order, acc: &Account) -> (r: (Dec, Dec))
        ensures
            (r.0.raw as int, r.1.raw as int) == self.market_cost_spec(*order, *acc),
    {
        let pos = acc.position.size;
        let qty = order.quantity;
        let (debit, credit) = if pos.raw == 0 {
            match order.side {
                Side::Buy => (qty.min(acc.open_limit_sell_size), qty),
                Side::Sell => (qty.min(acc.open_limit_buy_size), qty),
            }
        } else if pos.raw > 0 {
            match order.side {
                Side::Buy => (Dec::zero(), qty),
                Side::Sell => (qty.min(pos), qty.sub(pos).max(Dec::zero())),
            }
        } else {
            let short = pos.neg();
            match order.side {
                Side::Buy => (qty.min(short), qty.sub(short).max(Dec::zero())),
                Side::Sell => (Dec::zero(), qty),
            }
        };
        let lev = acc.position.leverage;
        let price = match order.side {
            Side::Buy => self.ask,
            Side::Sell => self.bid,
        };
        let ft = acc.futures_type;
        let fee = convert(ft, qty.mul(self.fee_taker), price);
        (convert(ft, debit.div(lev), price), convert(ft, credit.div(lev), price).add(fee))
    }

    /// Checks that the account can afford a market order.
    pub fn validate_market_order(&self, o: &Order, acc: &Account) -> (r: Result<(), OrderError>)
        ensures
            r == self.market_result(*o, *acc),
    {
        let (debit, credit) = self.order_cost_market(o, acc);
        if credit.raw > acc.available_balance().add(debit).raw {
            return Err(OrderError::NotEnoughAvailableBalance);
        }
        Ok(())
    }

    /// Order margin to charge on top of what the account holds, were `order`
    /// to rest beside its orders.
    pub fn limit_order_margin_cost(&self, order: &Order, acc: &Account) -> (r: Dec)
        ensures
            r.raw == self.limit_cost_spec(*order, *acc),
    {
        let mut orders = acc.active_limit_orders.clone();
        orders.push(*order);
        proof {
            assert(orders@ =~= acc.active_limit_orders@.push(*order));
        }
        let needed = order_margin(
            &orders,
            acc.position.size,
            acc.futures_type,
            acc.position.leverage,
            self.fee_maker,
        );
        needed.sub(acc.margin.order_margin)
    }

    /// Checks a limit order against the cap on resting orders and the quotes,
    /// and that the account can afford its order margin, which it returns.
    ///
    /// A buy is refused above the ask and a sell below the bid; either is
    /// accepted at the quote itself.
    pub fn validate_limit_order(&self, o: &Order, acc: &Account) -> (r: Result<Dec, OrderError>)
        ensures
            r == self.limit_result(*o, *acc),
    {
        if acc.num_active_limit_orders() >= self.max_num_open_orders {
            return Err(OrderError::MaxActiveOrders);
        }
        match o.side {
            Side::Buy => {
                if o.limit_price.raw > self.ask.raw {
                    return Err(OrderError::LimitPriceLargerThanAsk);
                }
            },
            Side::Sell => {
                if o.limit_price.raw < self.bid.raw {
                    return Err(OrderError::LimitPriceLowerThanBid);
                }
            },
        }
        let cost = self.limit_order_margin_cost(o, acc);
        if cost.raw > acc.available_balance().raw {
            return Err(OrderError::NotEnoughAvailableBalance);
        }
        Ok(cost)
    }
}

} // verus!
