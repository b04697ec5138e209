use vstd::prelude::*;

use crate::decimal::{div_spec, mul_spec, sub_spec, Dec};
use crate::types::FuturesType;

verus! {

/// The value of `quantity` (in the size currency) at `price`, in the margin
/// currency: `quantity * price` for linear, `quantity / price` for inverse.
pub open spec fn convert_spec(ft: FuturesType, quantity: int, price: int) -> int {
    match ft {
        FuturesType::Linear => mul_spec(quantity, price),
        FuturesType::Inverse => div_spec(quantity, price),
    }
}

/// Converts `quantity` of the size currency into the margin currency at `price`.
pub fn convert(ft: FuturesType, quantity: Dec, price: Dec) -> (r: Dec)
    ensures
        r.raw == convert_spec(ft, quantity.raw as int, price.raw as int),
{
    match ft {
        FuturesType::Linear => quantity.mul(price),
        FuturesType::Inverse => quantity.div(price),
    }
}

/// A currency that can serve as margin. Which one does fixes the futures type.
pub trait MarginCurrency {
    spec fn pnl_spec(entry_price: int, exit_price: int, quantity: int) -> int;

    /// Profit and loss of a position of signed `quantity` (negative for a
    /// short) opened at `entry_price` and closed at `exit_price`.
    fn pnl(entry_price: Dec, exit_price: Dec, quantity: Dec) -> (r: Dec)
        ensures
            r.raw == Self::pnl_spec(entry_price.raw as int, exit_price.raw as int, quantity.raw as int),
    ;
}

/// Margin in the quote currency: linear futures.
pub struct QuoteCurrency;

/// Margin in the base currency: inverse futures.
pub struct BaseCurrency;

impl MarginCurrency for QuoteCurrency {
    open spec fn pnl_spec(entry_price: int, exit_price: int, quantity: int) -> int {
        mul_spec(sub_spec(exit_price, entry_price), quantity)
    }

    fn pnl(entry_price: Dec, exit_price: Dec, quantity: Dec) -> (r: Dec) {
        exit_price.sub(entry_price).mul(quantity)
    }
}

impl MarginCurrency for BaseCurrency {
    open spec fn pnl_spec(entry_price: int, exit_price: int, quantity: int) -> int {
        sub_spec(div_spec(quantity, entry_price), div_spec(quantity, exit_price))
    }

    fn pnl(entry_price: Dec, exit_price: Dec, quantity: Dec) -> (r: Dec) {
        quantity.div(entry_price).sub(quantity.div(exit_price))
    }
}

/// Profit and loss in the margin currency of the given futures type.
pub open spec fn pnl_spec(ft: FuturesType, entry_price: int, exit_price: int, quantity: int) -> int {
    match ft {
        FuturesType::Linear => QuoteCurrency::pnl_spec(entry_price, exit_price, quantity),
        FuturesType::Inverse => BaseCurrency::pnl_spec(entry_price, exit_price, quantity),
    }
}

pub fn pnl(ft: FuturesType, entry_price: Dec, exit_price: Dec, quantity: Dec) -> (r: Dec)
    ensures
        r.raw == pnl_spec(ft, entry_price.raw as int, exit_price.raw as int, quantity.raw as int),
{
    match ft {
        FuturesType::Linear => QuoteCurrency::pnl(entry_price, exit_price, quantity),
        FuturesType::Inverse => BaseCurrency::pnl(entry_price, exit_price, quantity),
    }
}

} // verus!
