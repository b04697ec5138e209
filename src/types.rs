use vstd::prelude::*;

use crate::decimal::Dec;
use crate::errors::OrderError;

verus! {

/// The side of an order.
#[derive(Clone, Copy, Debug, PartialEq, Eq, Structural, Hash)]
pub enum Side {
    Buy,
    Sell,
}

/// The kind of an order.
#[derive(Clone, Copy, Debug, PartialEq, Eq, Structural, Hash)]
pub enum OrderType {
    Market,
    Limit,
}

/// The contract type, given by which currency collateralises the position.
///
/// `Linear`: size in base currency, margin in quote currency.
/// `Inverse`: size in quote currency, margin in base currency.
#[derive(Clone, Copy, Debug, PartialEq, Eq, Structural, Hash)]
pub enum FuturesType {
    Linear,
    Inverse,
}

/// An order, as submitted by a trader and stamped by the exchange.
///
/// `limit_price` is zero for a market order.
#[derive(Clone, Copy, Debug, PartialEq, Eq, Structural, Hash)]
pub struct Order {
    pub side: Side,
    pub order_type: OrderType,
    pub quantity: Dec,
    pub limit_price: Dec,
    pub id: u64,
    pub timestamp: u64,
    pub filled: bool,
}

impl Order {
    /// A well-formed order: a positive quantity, and a positive price if it
    /// is a limit order.
    pub open spec fn wf(self) -> bool {
        &&& self.quantity.raw > 0
        &&& self.order_type == OrderType::Limit ==> self.limit_price.raw > 0
    }

    pub open spec fn is_limit(self) -> bool {
        self.order_type == OrderType::Limit
    }

    /// A new market order.
    pub fn market(side: Side, quantity: Dec) -> (r: Result<Order, OrderError>)
        ensures
            quantity.raw <= 0 <==> r == Err::<Order, OrderError>(OrderError::OrderSizeMustBePositive),
            quantity.raw > 0 ==> r == Ok::<Order, OrderError>(
                (Order {
                    side,
                    order_type: OrderType::Market,
                    quantity,
                    limit_price: Dec { raw: 0 },
                    id: 0,
                    timestamp: 0,
                    filled: false,
                }),
            ),
    {
        if quantity.raw <= 0 {
            return Err(OrderError::OrderSizeMustBePositive);
        }
        Ok(
            Order {
                side,
                order_type: OrderType::Market,
                quantity,
                limit_price: Dec::zero(),
                id: 0,
                timestamp: 0,
                filled: false,
            },
        )
    }

    /// A new limit order.
    pub fn limit(side: Side, limit_price: Dec, quantity: Dec) -> (r: Result<Order, OrderError>)
        ensures
            limit_price.raw <= 0 ==> r == Err::<Order, OrderError>(OrderError::LimitPriceTooLow),
            limit_price.raw > 0 && quantity.raw <= 0 ==> r == Err::<Order, OrderError>(
                OrderError::OrderSizeMustBePositive,
            ),
            limit_price.raw > 0 && quantity.raw > 0 ==> r == Ok::<Order, OrderError>(
                (Order {
                    side,
                    order_type: OrderType::Limit,
                    quantity,
                    limit_price,
                    id: 0,
                    timestamp: 0,
                    filled: false,
                }),
            ),
    {
        if limit_price.raw <= 0 {
            return Err(OrderError::LimitPriceTooLow);
        }
        if quantity.raw <= 0 {
            return Err(OrderError::OrderSizeMustBePositive);
        }
        Ok(
            Order {
                side,
                order_type: OrderType::Limit,
                quantity,
                limit_price,
                id: 0,
                timestamp: 0,
                filled: false,
            },
        )
    }

    pub fn side(&self) -> (r: Side)
        ensures
            r == self.side,
    {
        self.side
    }

    pub fn order_type(&self) -> (r: OrderType)
        ensures
            r == self.order_type,
    {
        self.order_type
    }

    pub fn quantity(&self) -> (r: Dec)
        ensures
            r == self.quantity,
    {
        self.quantity
    }

    /// The limit price, for a limit order.
    pub fn limit_price(&self) -> (r: Option<Dec>)
        ensures
            r == (if self.order_type == OrderType::Limit {
                Some(self.limit_price)
            } else {
                None::<Dec>
            }),
    {
        match self.order_type {
            OrderType::Limit => Some(self.limit_price),
            OrderType::Market => None,
        }
    }

    pub fn id(&self) -> (r: u64)
        ensures
            r == self.id,
    {
        self.id
    }

    pub fn set_id(&mut self, id: u64)
        ensures
            *final(self) == (Order { id, ..*old(self) }),
    {
        self.id = id;
    }

    pub fn set_timestamp(&mut self, timestamp: u64)
        ensures
            *final(self) == (Order { timestamp, ..*old(self) }),
    {
        self.timestamp = timestamp;
    }

    pub fn mark_filled(&mut self)
        ensures
            *final(self) == (Order { filled: true, ..*old(self) }),
    {
        self.filled = true;
    }
}

} // verus!
