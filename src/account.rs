use vstd::prelude::*;

use crate::currency::{convert, convert_spec, pnl};
use crate::decimal::{add_spec, clamp, div_spec, mul_spec, quot, sub_spec, Dec, BOUND, SCALE};
use crate::limit_order_margin::{order_margin, order_margin_spec, side_size};
use crate::position::{
    available_spec, entry_after, position_margin_spec, realized_after, sign, size_after, Margin, Position,
};
use crate::types::{FuturesType, Order, Side};

verus! {

/// No two orders of `orders` share an id.
pub open spec fn unique_ids(orders: Seq<Order>) -> bool {
    forall|i: int, j: int|
        0 <= i < orders.len() && 0 <= j < orders.len() && i != j ==> orders[i].id != orders[j].id
}

/// Every order of `orders` is a well-formed limit order.
pub open spec fn all_limit(orders: Seq<Order>) -> bool {
    forall|i: int| 0 <= i < orders.len() ==> (#[trigger] orders[i]).wf() && orders[i].is_limit()
}

/// Whether some order of `orders` has the id `id`.
pub open spec fn has_id(orders: Seq<Order>, id: u64) -> bool {
    exists|i: int| 0 <= i < orders.len() && (#[trigger] orders[i]).id == id
}

/// A trading account: one position, its balances, and the resting limit
/// orders in the order in which they were placed.
#[derive(Clone, Debug)]
pub struct Account {
    pub futures_type: FuturesType,
    pub fee_maker: Dec,
    pub position: Position,
    pub margin: Margin,
    pub active_limit_orders: Vec<Order>,
    pub open_limit_buy_size: Dec,
    pub open_limit_sell_size: Dec,
}

impl Account {
    /// The order margin that the resting orders need beside `pos`.
    pub open spec fn order_margin_for(self, orders: Seq<Order>, pos: Position) -> int {
        order_margin_spec(
            orders,
            pos.size.raw as int,
            self.futures_type,
            pos.leverage.raw as int,
            self.fee_maker.raw as int,
        )
    }

    /// The account's invariant: the cached sizes and both margins agree with
    /// the resting orders and the position.
    pub open spec fn wf(self) -> bool {
        &&& self.position.leverage.raw >= SCALE
        &&& self.fee_maker.raw >= 0
        &&& all_limit(self.active_limit_orders@)
        &&& unique_ids(self.active_limit_orders@)
        &&& self.open_limit_buy_size.raw == side_size(self.active_limit_orders@, Side::Buy)
        &&& self.open_limit_sell_size.raw == side_size(self.active_limit_orders@, Side::Sell)
        &&& self.margin.position_margin.raw == position_margin_spec(
            self.futures_type,
            self.position,
        )
        &&& self.margin.order_margin.raw == self.order_margin_for(
            self.active_limit_orders@,
            self.position,
        )
    }

    pub open spec fn available_spec(self) -> int {
        available_spec(self.margin)
    }

    /// A new account with a flat position and no orders.
    pub fn new(
        leverage: Dec,
        starting_balance: Dec,
        futures_type: FuturesType,
        fee_maker: Dec,
    ) -> (r: Account)
        requires
            leverage.raw >= SCALE,
            fee_maker.raw >= 0,
        ensures
            r.wf(),
            r.futures_type == futures_type,
            r.fee_maker == fee_maker,
            r.position == (Position { size: Dec { raw: 0 }, entry_price: Dec { raw: 0 }, leverage }),
            r.margin == (Margin {
                wallet_balance: starting_balance,
                position_margin: Dec { raw: 0 },
                order_margin: Dec { raw: 0 },
            }),
            r.active_limit_orders@.len() == 0,
    {
        let r = Account {
            futures_type,
            fee_maker,
            position: Position { size: Dec::zero(), entry_price: Dec::zero(), leverage },
            margin: Margin {
                wallet_balance: starting_balance,
                position_margin: Dec::zero(),
                order_margin: Dec::zero(),
            },
            active_limit_orders: Vec::new(),
            open_limit_buy_size: Dec::zero(),
            open_limit_sell_size: Dec::zero(),
        };
        proof {
            assert(r.active_limit_orders@ =~= Seq::<Order>::empty());
            assert(clamp(0) == 0);
            assert(quot(0, SCALE as int) == 0);
            assert(mul_spec(0, 0) == 0);
            assert(div_spec(0, 0) == 0);
            assert(convert_spec(futures_type, 0, 0) == 0);
            assert(quot(0, leverage.raw as int) == 0);
            assert(position_margin_spec(futures_type, r.position) == 0);
        }
        r
    }

    pub fn position(&self) -> (r: Position)
        ensures
            r == self.position,
    {
        self.position
    }

    pub fn margin(&self) -> (r: Margin)
        ensures
            r == self.margin,
    {
        self.margin
    }

    /// `wallet_balance - position_margin - order_margin`, exactly whenever
    /// the three and the differences lie within the bounds of `Dec`.
    pub fn available_balance(&self) -> (r: Dec)
        ensures
            r.raw == self.available_spec(),
            ({
                let w = self.margin.wallet_balance.raw as int;
                let pm = self.margin.position_margin.raw as int;
                let om = self.margin.order_margin.raw as int;
                -BOUND <= w <= BOUND && -BOUND <= pm <= BOUND && -BOUND <= om <= BOUND && -BOUND
                    <= w - pm <= BOUND && -BOUND <= w - pm - om <= BOUND ==> r.raw == w - pm - om
            }),
    {
        self.margin.available_balance()
    }

    pub fn active_limit_orders(&self) -> (r: &Vec<Order>)
        ensures
            r@ == self.active_limit_orders@,
    {
        &self.active_limit_orders
    }

    pub fn num_active_limit_orders(&self) -> (r: usize)
        ensures
            r == self.active_limit_orders@.len(),
    {
        self.active_limit_orders.len()
    }

    pub fn open_limit_buy_size(&self) -> (r: Dec)
        ensures
            r == self.open_limit_buy_size,
    {
        self.open_limit_buy_size
    }

    pub fn open_limit_sell_size(&self) -> (r: Dec)
        ensures
            r == self.open_limit_sell_size,
    {
        self.open_limit_sell_size
    }

    /// Brings the cached sizes and both margins in line with the resting
    /// orders and the position.
    fn refresh(&mut self)
        requires
            old(self).position.leverage.raw >= SCALE,
            old(self).fee_maker.raw >= 0,
            all_limit(old(self).active_limit_orders@),
            unique_ids(old(self).active_limit_orders@),
        ensures
            final(self).wf(),
            final(self).futures_type == old(self).futures_type,
            final(self).fee_maker == old(self).fee_maker,
            final(self).position == old(self).position,
            final(self).active_limit_orders@ == old(self).active_limit_orders@,
            final(self).margin.wallet_balance == old(self).margin.wallet_balance,
    {
        let mut buy = Dec::zero();
        let mut sell = Dec::zero();
        let mut i: usize = 0;
        while i < self.active_limit_orders.len()
            invariant
                0 <= i <= self.active_limit_orders@.len(),
                buy.raw == side_size(self.active_limit_orders@.take(i as int), Side::Buy),
                sell.raw == side_size(self.active_limit_orders@.take(i as int), Side::Sell),
            decreases self.active_limit_orders@.len() - i,
        {
            let o = self.active_limit_orders[i];
            match o.side {
                Side::Buy => buy = buy.add(o.quantity),
                Side::Sell => sell = sell.add(o.quantity),
            }
            proof {
                assert(self.active_limit_orders@.take(i + 1).drop_last()
                    =~= self.active_limit_orders@.take(i as int));
            }
            i += 1;
        }
        proof {
            assert(self.active_limit_orders@.take(self.active_limit_orders@.len() as int)
                =~= self.active_limit_orders@);
        }
        self.open_limit_buy_size = buy;
        self.open_limit_sell_size = sell;
        let notional = convert(self.futures_type, self.position.size.abs(), self.position.entry_price);
        self.margin.position_margin = notional.div(self.position.leverage);
        self.margin.order_margin = order_margin(
            &self.active_limit_orders,
            self.position.size,
            self.futures_type,
            self.position.leverage,
            self.fee_maker,
        );
    }

    /// Places a limit order; the order margin becomes what all resting
    /// orders together need.
    pub fn append_limit_order(&mut self, o: Order)
        requires
            old(self).wf(),
            o.wf(),
            o.is_limit(),
            !has_id(old(self).active_limit_orders@, o.id),
        ensures
            final(self).wf(),
            final(self).active_limit_orders@ == old(self).active_limit_orders@.push(o),
            final(self).position == old(self).position,
            final(self).margin.wallet_balance == old(self).margin.wallet_balance,
            final(self).margin.position_margin == old(self).margin.position_margin,
            final(self).futures_type == old(self).futures_type,
            final(self).fee_maker == old(self).fee_maker,
    {
        self.active_limit_orders.push(o);
        proof {
            let s = self.active_limit_orders@;
            assert forall|i: int| 0 <= i < s.len() implies (#[trigger] s[i]).wf() && s[i].is_limit() by {
                if i < s.len() - 1 {
                    assert(s[i] == old(self).active_limit_orders@[i]);
                }
            }
            assert forall|i: int, j: int|
                0 <= i < s.len() && 0 <= j < s.len() && i != j implies s[i].id != s[j].id by {
                if i < s.len() - 1 && j < s.len() - 1 {
                    assert(s[i] == old(self).active_limit_orders@[i]);
                    assert(s[j] == old(self).active_limit_orders@[j]);
                } else if i < s.len() - 1 {
                    assert(s[i] == old(self).active_limit_orders@[i]);
                } else if j < s.len() - 1 {
                    assert(s[j] == old(self).active_limit_orders@[j]);
                }
            }
        }
        self.refresh();
    }

    /// Removes the resting order at `idx` and returns it; the order margin
    /// becomes what the remaining orders need.
    pub fn remove_limit_order(&mut self, idx: usize) -> (r: Order)
        requires
            old(self).wf(),
            idx < old(self).active_limit_orders@.len(),
        ensures
            final(self).wf(),
            r == old(self).active_limit_orders@[idx as int],
            final(self).active_limit_orders@ == old(self).active_limit_orders@.remove(idx as int),
            final(self).position == old(self).position,
            final(self).margin.wallet_balance == old(self).margin.wallet_balance,
            final(self).margin.position_margin == old(self).margin.position_margin,
            final(self).futures_type == old(self).futures_type,
            final(self).fee_maker == old(self).fee_maker,
    {
        let r = self.active_limit_orders.remove(idx);
        proof {
            let s = self.active_limit_orders@;
            let o = old(self).active_limit_orders@;
            assert forall|i: int| 0 <= i < s.len() implies (#[trigger] s[i]).wf() && s[i].is_limit() by {
                if i < idx {
                    assert(s[i] == o[i]);
                } else {
                    assert(s[i] == o[i + 1]);
                }
            }
            assert forall|i: int, j: int|
                0 <= i < s.len() && 0 <= j < s.len() && i != j implies s[i].id != s[j].id by {
                let oi = if i < idx { i } else { i + 1 };
                let oj = if j < idx { j } else { j + 1 };
                assert(s[i] == o[oi]);
                assert(s[j] == o[oj]);
            }
        }
        self.refresh();
        r
    }

    /// Cancels the resting order with id `id`, if there is one, and releases
    /// the order margin it held.
    pub fn cancel_limit_order(&mut self, id: u64) -> (r: Option<Order>)
        requires
            old(self).wf(),
        ensures
            final(self).wf(),
            final(self).position == old(self).position,
            final(self).margin.wallet_balance == old(self).margin.wallet_balance,
            final(self).margin.position_margin == old(self).margin.position_margin,
            final(self).futures_type == old(self).futures_type,
            final(self).fee_maker == old(self).fee_maker,
            has_id(old(self).active_limit_orders@, id) <==> r.is_some(),
            r.is_none() ==> final(self).active_limit_orders@ == old(self).active_limit_orders@
                && final(self).margin == old(self).margin,
            r.is_some() ==> exists|i: int|
                0 <= i < old(self).active_limit_orders@.len()
                    && old(self).active_limit_orders@[i].id == id
                    && r == Some(old(self).active_limit_orders@[i])
                    && final(self).active_limit_orders@ == old(
                    self,
                ).active_limit_orders@.remove(i),
    {
        let mut i: usize = 0;
        while i < self.active_limit_orders.len()
            invariant
                0 <= i <= self.active_limit_orders@.len(),
                *self == *old(self),
                self.wf(),
                forall|j: int| 0 <= j < i ==> self.active_limit_orders@[j].id != id,
            decreases self.active_limit_orders@.len() - i,
        {
            if self.active_limit_orders[i].id == id {
                let o = self.remove_limit_order(i);
                return Some(o);
            }
            i += 1;
        }
        None
    }

    /// Cancels every resting order.
    pub fn clear_limit_orders(&mut self)
        requires
            old(self).wf(),
        ensures
            final(self).wf(),
            final(self).active_limit_orders@.len() == 0,
            final(self).position == old(self).position,
            final(self).margin.wallet_balance == old(self).margin.wallet_balance,
            final(self).margin.position_margin == old(self).margin.position_margin,
            final(self).futures_type == old(self).futures_type,
            final(self).fee_maker == old(self).fee_maker,
    {
        self.active_limit_orders.clear();
        proof {
            assert(self.active_limit_orders@ =~= Seq::<Order>::empty());
        }
        self.refresh();
    }

    /// Subtracts `fee` from the wallet balance.
    pub fn deduce_fees(&mut self, fee: Dec)
        requires
            old(self).wf(),
        ensures
            final(self).wf(),
            final(self).margin.wallet_balance.raw == sub_spec(
                old(self).margin.wallet_balance.raw as int,
                fee.raw as int,
            ),
            final(self).margin.position_margin == old(self).margin.position_margin,
            final(self).margin.order_margin == old(self).margin.order_margin,
            final(self).position == old(self).position,
            final(self).active_limit_orders@ == old(self).active_limit_orders@,
            final(self).futures_type == old(self).futures_type,
            final(self).fee_maker == old(self).fee_maker,
    {
        self.margin.wallet_balance = self.margin.wallet_balance.sub(fee);
    }

    /// Applies a fill of `qty` on `side` at `price` to the position: it grows,
    /// shrinks, or turns around. Realised profit and loss goes to the wallet,
    /// and both margins follow the new position.
    pub fn change_position(&mut self, side: Side, qty: Dec, price: Dec)
        requires
            old(self).wf(),
        ensures
            final(self).wf(),
            final(self).position.size.raw == size_after(
                old(self).position.size.raw as int,
                side,
                qty.raw as int,
            ),
            final(self).position.entry_price.raw == entry_after(
                old(self).position.size.raw as int,
                old(self).position.entry_price.raw as int,
                side,
                qty.raw as int,
                price.raw as int,
            ),
            sign(final(self).position.size.raw as int) == sign(
                match side {
                    Side::Buy => clamp(old(self).position.size.raw as int) + clamp(qty.raw as int),
                    Side::Sell => clamp(old(self).position.size.raw as int) - clamp(qty.raw as int),
                },
            ),
            final(self).position.leverage == old(self).position.leverage,
            final(self).margin.wallet_balance.raw == add_spec(
                old(self).margin.wallet_balance.raw as int,
                realized_after(
                    old(self).futures_type,
                    old(self).position.size.raw as int,
                    old(self).position.entry_price.raw as int,
                    side,
                    qty.raw as int,
                    price.raw as int,
                ),
            ),
            final(self).active_limit_orders@ == old(self).active_limit_orders@,
            final(self).futures_type == old(self).futures_type,
            final(self).fee_maker == old(self).fee_maker,
    {
        let size = self.position.size;
        let entry = self.position.entry_price;
        let ft = self.futures_type;
        let mut realized = Dec::zero();
        match side {
            Side::Buy => {
                if size.raw >= 0 {
                    self.position.entry_price = increased_entry(size, entry, qty, price);
                } else if qty.raw > size.neg().raw {
                    realized = pnl(ft, entry, price, size);
                    self.position.entry_price = price;
                } else {
                    realized = pnl(ft, entry, price, qty.neg());
                }
                self.position.size = size.add(qty);
            },
            Side::Sell => {
                if size.raw <= 0 {
                    self.position.entry_price = increased_entry(size.neg(), entry, qty, price);
                } else if qty.raw > size.raw {
                    realized = pnl(ft, entry, price, size);
                    self.position.entry_price = price;
                } else {
                    realized = pnl(ft, entry, price, qty);
                }
                self.position.size = size.sub(qty);
            },
        }
        self.margin.wallet_balance = self.margin.wallet_balance.add(realized);
        self.refresh();
    }
}

/// Size-weighted average of the entry price and the fill price.
fn increased_entry(size_abs: Dec, entry: Dec, qty: Dec, price: Dec) -> (r: Dec)
    ensures
        r.raw == crate::position::increased_entry(
            size_abs.raw as int,
            entry.raw as int,
            qty.raw as int,
            price.raw as int,
        ),
{
    if size_abs.raw == 0 {
        price
    } else {
        size_abs.mul(entry).add(qty.mul(price)).div(size_abs.add(qty))
    }
}

} // verus!
