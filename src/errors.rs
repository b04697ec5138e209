use vstd::prelude::*;

verus! {

/// Why a submitted order was refused.
#[derive(Clone, Copy, Debug, PartialEq, Eq, Structural, Hash)]
pub enum OrderError {
    MaxActiveOrders,
    LimitPriceTooLow,
    LimitPriceTooHigh,
    LimitPriceLargerThanAsk,
    LimitPriceLowerThanBid,
    InvalidOrderPriceStepSize,
    InvalidTriggerPrice,
    OrderSizeMustBePositive,
    NotEnoughAvailableBalance,
}

/// Errors of configuration and of internal consistency.
#[derive(Clone, Copy, Debug, PartialEq, Eq, Structural, Hash)]
pub enum Error {
    ConfigWrongLeverage,
    ConfigWrongStartingBalance,
    ConfigWrongFee,
    ParseError,
    UserOrderIdNotFound,
    OrderIdNotFound,
    InvalidPositionMargin,
    InvalidOrderMargin,
    InvalidAvailableBalance,
    InvalidMaxNumOpenOrders,
}

} // verus!
