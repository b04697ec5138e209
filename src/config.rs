use vstd::prelude::*;

use crate::decimal::{Dec, SCALE};
use crate::errors::Error;
use crate::types::FuturesType;

verus! {

/// The settings of one simulated exchange.
#[derive(Clone, Copy, Debug, PartialEq, Eq, Structural, Hash)]
pub struct Config {
    pub fee_maker: Dec,
    pub fee_taker: Dec,
    pub starting_balance: Dec,
    pub leverage: Dec,
    pub futures_type: FuturesType,
    pub max_num_open_orders: usize,
}

impl Config {
    /// Settings that an exchange can run on.
    pub open spec fn wf(self) -> bool {
        &&& self.fee_maker.raw >= 0
        &&& self.fee_taker.raw >= 0
        &&& self.starting_balance.raw > 0
        &&& self.leverage.raw >= SCALE
        &&& self.max_num_open_orders > 0
    }

    /// Checks and builds a configuration: the leverage must be at least 1,
    /// the starting balance positive, both fees non-negative and the cap on
    /// resting orders positive.
    pub fn new(
        fee_maker: Dec,
        fee_taker: Dec,
        starting_balance: Dec,
        leverage: Dec,
        futures_type: FuturesType,
        max_num_open_orders: usize,
    ) -> (r: Result<Config, Error>)
        ensures
            leverage.raw < SCALE ==> r == Err::<Config, Error>(Error::ConfigWrongLeverage),
            leverage.raw >= SCALE && starting_balance.raw <= 0 ==> r == Err::<Config, Error>(
                Error::ConfigWrongStartingBalance,
            ),
            leverage.raw >= SCALE && starting_balance.raw > 0 && (fee_maker.raw < 0
                || fee_taker.raw < 0) ==> r == Err::<Config, Error>(Error::ConfigWrongFee),
            leverage.raw >= SCALE && starting_balance.raw > 0 && fee_maker.raw >= 0
                && fee_taker.raw >= 0 && max_num_open_orders == 0 ==> r == Err::<Config, Error>(
                Error::InvalidMaxNumOpenOrders,
            ),
            r.is_ok() ==> r == Ok::<Config, Error>(
                (Config {
                    fee_maker,
                    fee_taker,
                    starting_balance,
                    leverage,
                    futures_type,
                    max_num_open_orders,
                }),
            ),
            r.is_ok() <==> (Config {
                fee_maker,
                fee_taker,
                starting_balance,
                leverage,
                futures_type,
                max_num_open_orders,
            }).wf(),
    {
        if leverage.raw < SCALE {
            return Err(Error::ConfigWrongLeverage);
        }
        if starting_balance.raw <= 0 {
            return Err(Error::ConfigWrongStartingBalance);
        }
        if fee_maker.raw < 0 || fee_taker.raw < 0 {
            return Err(Error::ConfigWrongFee);
        }
        if max_num_open_orders == 0 {
            return Err(Error::InvalidMaxNumOpenOrders);
        }
        Ok(
            Config {
                fee_maker,
                fee_taker,
                starting_balance,
                leverage,
                futures_type,
                max_num_open_orders,
            },
        )
    }

    pub fn fee_maker(&self) -> (r: Dec)
        ensures
            r == self.fee_maker,
    {
        self.fee_maker
    }

    pub fn fee_taker(&self) -> (r: Dec)
        ensures
            r == self.fee_taker,
    {
        self.fee_taker
    }

    pub fn starting_balance(&self) -> (r: Dec)
        ensures
            r == self.starting_balance,
    {
        self.starting_balance
    }

    pub fn leverage(&self) -> (r: Dec)
        ensures
            r == self.leverage,
    {
        self.leverage
    }

    pub fn futures_type(&self) -> (r: FuturesType)
        ensures
            r == self.futures_type,
    {
        self.futures_type
    }

    pub fn max_num_open_orders(&self) -> (r: usize)
        ensures
            r == self.max_num_open_orders,
    {
        self.max_num_open_orders
    }
}

} // verus!
