use vstd::prelude::*;

use crate::decimal::Dec;

verus! {

/// The latest market data: top of book, the range traded since the last
/// update, and the caller's timestamp.
#[derive(Clone, Copy, Debug, PartialEq, Eq, Structural, Hash)]
pub struct MarketState {
    pub bid: Dec,
    pub ask: Dec,
    pub high: Dec,
    pub low: Dec,
    pub timestamp: u64,
}

impl MarketState {
    /// Quotes that are consistent: `low <= bid <= ask <= high`.
    pub open spec fn wf(self) -> bool {
        self.low.raw <= self.bid.raw && self.bid.raw <= self.ask.raw && self.ask.raw <= self.high.raw
    }

    pub fn bid(&self) -> (r: Dec)
        ensures
            r == self.bid,
    {
        self.bid
    }

    pub fn ask(&self) -> (r: Dec)
        ensures
            r == self.ask,
    {
        self.ask
    }
}

} // verus!
