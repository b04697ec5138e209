use vstd::prelude::*;

use crate::currency::{convert_spec, pnl_spec};
use crate::decimal::{abs_int, add_spec, clamp, div_spec, mul_spec, sub_spec, Dec};
use crate::types::{FuturesType, Side};

verus! {

/// The open position of an account: signed size (long > 0, short < 0),
/// entry price and leverage.
#[derive(Clone, Copy, Debug, PartialEq, Eq, Structural, Hash)]
pub struct Position {
    pub size: Dec,
    pub entry_price: Dec,
    pub leverage: Dec,
}

/// The balances of an account, all in the margin currency.
#[derive(Clone, Copy, Debug, PartialEq, Eq, Structural, Hash)]
pub struct Margin {
    pub wallet_balance: Dec,
    pub position_margin: Dec,
    pub order_margin: Dec,
}

/// `wallet_balance - position_margin - order_margin`.
pub open spec fn available_spec(m: Margin) -> int {
    sub_spec(
        sub_spec(m.wallet_balance.raw as int, m.position_margin.raw as int),
        m.order_margin.raw as int,
    )
}

impl Margin {
    /// The balance that is free for new commitments.
    pub fn available_balance(&self) -> (r: Dec)
        ensures
            r.raw == available_spec(*self),
    {
        self.wallet_balance.sub(self.position_margin).sub(self.order_margin)
    }
}

/// Entry price after adding `qty` at `price` to a position of absolute size
/// `size_abs` entered at `entry`: the size-weighted average of the two.
pub open spec fn increased_entry(size_abs: int, entry: int, qty: int, price: int) -> int {
    if size_abs == 0 {
        price
    } else {
        div_spec(add_spec(mul_spec(size_abs, entry), mul_spec(qty, price)), add_spec(size_abs, qty))
    }
}

/// The margin that backs a position: its notional at the entry price divided
/// by the leverage.
pub open spec fn position_margin_spec(ft: FuturesType, p: Position) -> int {
    div_spec(
        convert_spec(ft, clamp(abs_int(p.size.raw as int)), p.entry_price.raw as int),
        p.leverage.raw as int,
    )
}

/// Position size after a fill of `qty` on `side`.
pub open spec fn size_after(size: int, side: Side, qty: int) -> int {
    match side {
        Side::Buy => add_spec(size, qty),
        Side::Sell => sub_spec(size, qty),
    }
}

/// Entry price after a fill of `qty` on `side` at `price`: averaged when
/// the fill grows the position, kept when it shrinks it, and the fill price
/// when it turns the position around.
pub open spec fn entry_after(size: int, entry: int, side: Side, qty: int, price: int) -> int {
    match side {
        Side::Buy => if size >= 0 {
            increased_entry(size, entry, qty, price)
        } else if qty > clamp(-size) {
            price
        } else {
            entry
        },
        Side::Sell => if size <= 0 {
            increased_entry(clamp(-size), entry, qty, price)
        } else if qty > size {
            price
        } else {
            entry
        },
    }
}

/// Profit and loss realised by a fill of `qty` on `side` at `price`: the
/// closed part of the position, all of it on a turnaround.
pub open spec fn realized_after(
    ft: FuturesType,
    size: int,
    entry: int,
    side: Side,
    qty: int,
    price: int,
) -> int {
    match side {
        Side::Buy => if size >= 0 {
            0
        } else if qty > clamp(-size) {
            pnl_spec(ft, entry, price, size)
        } else {
            pnl_spec(ft, entry, price, clamp(-qty))
        },
        Side::Sell => if size <= 0 {
            0
        } else if qty > size {
            pnl_spec(ft, entry, price, size)
        } else {
            pnl_spec(ft, entry, price, qty)
        },
    }
}

/// Sign of an integer: -1, 0 or 1.
pub open spec fn sign(x: int) -> int {
    if x > 0 {
        1
    } else if x < 0 {
        -1
    } else {
        0
    }
}

} // verus!
