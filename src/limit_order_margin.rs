use vstd::prelude::*;

use crate::currency::{convert, convert_spec};
use crate::decimal::{add_spec, clamp, div_spec, mul_spec, sub_spec, Dec, BOUND};
use crate::types::{FuturesType, Order, Side};

verus! {

/// Total quantity of the orders on `side`.
pub open spec fn side_size(orders: Seq<Order>, side: Side) -> int
    decreases orders.len(),
{
    if orders.len() == 0 {
        0
    } else {
        let prev = side_size(orders.drop_last(), side);
        let o = orders.last();
        if o.side == side {
            add_spec(prev, o.quantity.raw as int)
        } else {
            prev
        }
    }
}

/// Sum of `quantity * limit_price` over the orders on `side`.
pub open spec fn side_price_weight(orders: Seq<Order>, side: Side) -> int
    decreases orders.len(),
{
    if orders.len() == 0 {
        0
    } else {
        let prev = side_price_weight(orders.drop_last(), side);
        let o = orders.last();
        if o.side == side {
            add_spec(prev, mul_spec(o.quantity.raw as int, o.limit_price.raw as int))
        } else {
            prev
        }
    }
}

/// The maker fee of one order, in the margin currency.
pub open spec fn maker_fee(o: Order, ft: FuturesType, fee_maker: int) -> int {
    convert_spec(ft, mul_spec(o.quantity.raw as int, fee_maker), o.limit_price.raw as int)
}

/// Sum of the maker fees of the orders on `side`.
pub open spec fn side_fees(orders: Seq<Order>, side: Side, ft: FuturesType, fee_maker: int) -> int
    decreases orders.len(),
{
    if orders.len() == 0 {
        0
    } else {
        let prev = side_fees(orders.drop_last(), side, ft, fee_maker);
        let o = orders.last();
        if o.side == side {
            add_spec(prev, maker_fee(o, ft, fee_maker))
        } else {
            prev
        }
    }
}

/// Buy size that is not offset by an existing short position.
pub open spec fn buy_side_diff(orders: Seq<Order>, pos_size: int) -> int {
    let short = if pos_size < 0 {
        clamp(-pos_size)
    } else {
        0
    };
    let d = sub_spec(side_size(orders, Side::Buy), short);
    if d > 0 {
        d
    } else {
        0
    }
}

/// Sell size that is not offset by an existing long position.
pub open spec fn sell_side_diff(orders: Seq<Order>, pos_size: int) -> int {
    let long = if pos_size > 0 {
        pos_size
    } else {
        0
    };
    let d = sub_spec(side_size(orders, Side::Sell), long);
    if d > 0 {
        d
    } else {
        0
    }
}

/// Margin that the net exposure of one side needs: its unoffset size at the
/// side's size-weighted price, divided by the leverage, plus the side's maker
/// fees.
pub open spec fn side_margin(
    orders: Seq<Order>,
    side: Side,
    side_diff: int,
    ft: FuturesType,
    leverage: int,
    fee_maker: int,
) -> int {
    let wprice = div_spec(side_price_weight(orders, side), side_size(orders, side));
    add_spec(
        div_spec(convert_spec(ft, side_diff, wprice), leverage),
        side_fees(orders, side, ft, fee_maker),
    )
}

/// Order margin that a set of resting limit orders needs beside a position
/// of signed size `pos_size`. Only the larger of the two unoffset sides is
/// collateralised; the smaller one is hedged by it.
pub open spec fn order_margin_spec(
    orders: Seq<Order>,
    pos_size: int,
    ft: FuturesType,
    leverage: int,
    fee_maker: int,
) -> int {
    let bsd = buy_side_diff(orders, pos_size);
    let ssd = sell_side_diff(orders, pos_size);
    if bsd == 0 && ssd == 0 {
        0
    } else if ssd > bsd {
        side_margin(orders, Side::Sell, ssd, ft, leverage, fee_maker)
    } else {
        side_margin(orders, Side::Buy, bsd, ft, leverage, fee_maker)
    }
}

/// Computes the order margin needed for the limit orders `orders` beside a
/// position of signed size `pos_size`.
pub fn order_margin(
    orders: &Vec<Order>,
    pos_size: Dec,
    futures_type: FuturesType,
    leverage: Dec,
    fee_maker: Dec,
) -> (r: Dec)
    ensures
        r.raw == order_margin_spec(
            orders@,
            pos_size.raw as int,
            futures_type,
            leverage.raw as int,
            fee_maker.raw as int,
        ),
{
    let mut buy_size = Dec::zero();
    let mut sell_size = Dec::zero();
    let mut buy_weight = Dec::zero();
    let mut sell_weight = Dec::zero();
    let mut buy_fees = Dec::zero();
    let mut sell_fees = Dec::zero();
    let mut i: usize = 0;
    while i < orders.len()
        invariant
            0 <= i <= orders.len(),
            buy_size.raw == side_size(orders@.take(i as int), Side::Buy),
            sell_size.raw == side_size(orders@.take(i as int), Side::Sell),
            buy_weight.raw == side_price_weight(orders@.take(i as int), Side::Buy),
            sell_weight.raw == side_price_weight(orders@.take(i as int), Side::Sell),
            buy_fees.raw == side_fees(orders@.take(i as int), Side::Buy, futures_type, fee_maker.raw as int),
            sell_fees.raw == side_fees(orders@.take(i as int), Side::Sell, futures_type, fee_maker.raw as int),
        decreases orders.len() - i,
    {
        let o = orders[i];
        let weight = o.quantity.mul(o.limit_price);
        let fee = convert(futures_type, o.quantity.mul(fee_maker), o.limit_price);
        match o.side {
            Side::Buy => {
                buy_size = buy_size.add(o.quantity);
                buy_weight = buy_weight.add(weight);
                buy_fees = buy_fees.add(fee);
            },
            Side::Sell => {
                sell_size = sell_size.add(o.quantity);
                sell_weight = sell_weight.add(weight);
                sell_fees = sell_fees.add(fee);
            },
        }
        proof {
            assert(orders@.take(i + 1).drop_last() =~= orders@.take(i as int));
        }
        i += 1;
    }
    proof {
        assert(orders@.take(orders.len() as int) =~= orders@);
    }
    let short = if pos_size.raw < 0 {
        pos_size.neg()
    } else {
        Dec::zero()
    };
    let long = if pos_size.raw > 0 {
        pos_size
    } else {
        Dec::zero()
    };
    let bsd = buy_size.sub(short).max(Dec::zero());
    let ssd = sell_size.sub(long).max(Dec::zero());
    if bsd.raw == 0 && ssd.raw == 0 {
        Dec::zero()
    } else if ssd.raw > bsd.raw {
        let wprice = sell_weight.div(sell_size);
        convert(futures_type, ssd, wprice).div(leverage).add(sell_fees)
    } else {
        let wprice = buy_weight.div(buy_size);
        convert(futures_type, bsd, wprice).div(leverage).add(buy_fees)
    }
}


/// The open size of a side always lies within the bounds of `Dec`.
pub proof fn lemma_side_size_range(orders: Seq<Order>, side: Side)
    ensures
        -BOUND <= side_size(orders, side) <= BOUND,
    decreases orders.len(),
{
    if orders.len() > 0 {
        lemma_side_size_range(orders.drop_last(), side);
    }
}

/// Net-margin monotonicity: an order that leaves its side's unoffset size
/// below the other side's (for a buy), or at most at it (for a sell, as ties
/// go to the buy side), is hedged by the other side and does not change the
/// order margin; nor does one after which neither side is unoffset.
pub proof fn lemma_offset_order_keeps_margin(
    orders: Seq<Order>,
    o: Order,
    pos_size: int,
    ft: FuturesType,
    leverage: int,
    fee_maker: int,
)
    requires
        o.quantity.raw > 0,
        -BOUND <= pos_size <= BOUND,
        ({
            let bsd = buy_side_diff(orders.push(o), pos_size);
            let ssd = sell_side_diff(orders.push(o), pos_size);
            ||| o.side == Side::Buy && bsd < ssd
            ||| o.side == Side::Sell && ssd <= bsd
            ||| bsd == 0 && ssd == 0
        }),
    ensures
        order_margin_spec(orders.push(o), pos_size, ft, leverage, fee_maker) == order_margin_spec(
            orders,
            pos_size,
            ft,
            leverage,
            fee_maker,
        ),
{
    let p = orders.push(o);
    assert(p.drop_last() =~= orders);
    lemma_side_size_range(orders, Side::Buy);
    lemma_side_size_range(orders, Side::Sell);
    let other = match o.side {
        Side::Buy => Side::Sell,
        Side::Sell => Side::Buy,
    };
    assert(side_size(p, other) == side_size(orders, other));
    assert(side_price_weight(p, other) == side_price_weight(orders, other));
    assert(side_fees(p, other, ft, fee_maker) == side_fees(orders, other, ft, fee_maker));
    assert(side_size(p, o.side) >= side_size(orders, o.side));
}

} // verus!
