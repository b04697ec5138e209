use vstd::prelude::*;

use crate::account::{has_id, Account};
use crate::config::Config;
use crate::currency::{pnl, pnl_spec};
use crate::decimal::{add_spec, clamp, sub_spec, Dec, BOUND};
use crate::errors::OrderError;
use crate::limit_order_margin::side_size;
use crate::execution_engine::{fee_spec, is_fill, moved_by_fill, ExecutionEngine};
use crate::market_state::MarketState;
use crate::position::{entry_after, realized_after, size_after};
use crate::types::{Order, OrderType, Side};
use crate::validator::Validator;

verus! {

/// Whether the market range `[low, high]` reaches the limit price of `o`: a
/// buy once `low` is at or below it, a sell once `high` is at or above it.
pub open spec fn is_triggered(o: Order, high: int, low: int) -> bool {
    match o.side {
        Side::Buy => low <= o.limit_price.raw,
        Side::Sell => high >= o.limit_price.raw,
    }
}

/// The orders of `s` that the range triggers, in their order.
pub open spec fn triggered_orders(s: Seq<Order>, high: int, low: int) -> Seq<Order>
    decreases s.len(),
{
    if s.len() == 0 {
        Seq::empty()
    } else {
        let prev = triggered_orders(s.drop_last(), high, low);
        if is_triggered(s.last(), high, low) {
            prev.push(s.last())
        } else {
            prev
        }
    }
}

/// The orders of `s` that the range leaves resting, in their order.
pub open spec fn untriggered_orders(s: Seq<Order>, high: int, low: int) -> Seq<Order>
    decreases s.len(),
{
    if s.len() == 0 {
        Seq::empty()
    } else {
        let prev = untriggered_orders(s.drop_last(), high, low);
        if is_triggered(s.last(), high, low) {
            prev
        } else {
            prev.push(s.last())
        }
    }
}

/// `o` marked as filled.
pub open spec fn filled(o: Order) -> Order {
    Order { filled: true, ..o }
}

/// Each order of `s` marked as filled.
pub open spec fn fills_of(s: Seq<Order>) -> Seq<Order> {
    s.map_values(|o: Order| filled(o))
}

/// Size, entry price and wallet balance after filling the limit orders
/// `fills` in turn, each at its limit price and charged the maker fee.
pub open spec fn after_fills(
    acc: Account,
    size: int,
    entry: int,
    wallet: int,
    fills: Seq<Order>,
) -> (int, int, int)
    decreases fills.len(),
{
    if fills.len() == 0 {
        (size, entry, wallet)
    } else {
        let (s, e, w) = after_fills(acc, size, entry, wallet, fills.drop_last());
        let o = fills.last();
        let q = o.quantity.raw as int;
        let p = o.limit_price.raw as int;
        (
            size_after(s, o.side, q),
            entry_after(s, e, o.side, q, p),
            sub_spec(
                add_spec(w, realized_after(acc.futures_type, s, e, o.side, q, p)),
                fee_spec(acc, q, p, acc.fee_maker.raw as int),
            ),
        )
    }
}

/// Whether the account must be liquidated at these quotes: its available
/// balance, with the position marked to the price it would close at, is
/// negative.
pub open spec fn liquidation_due(acc: Account, bid: int, ask: int) -> bool {
    let size = acc.position.size.raw as int;
    let close = if size > 0 {
        bid
    } else {
        ask
    };
    add_spec(
        acc.available_spec(),
        pnl_spec(acc.futures_type, acc.position.entry_price.raw as int, close, size),
    ) < 0
}

/// `new` is `prev` liquidated at these quotes: no resting orders, and the
/// whole position closed at the opposite top of book, paying the taker fee.
pub open spec fn liquidated(new: Account, prev: Account, bid: int, ask: int, fee_taker: int) -> bool {
    let size = prev.position.size.raw as int;
    &&& new.wf()
    &&& new.active_limit_orders@.len() == 0
    &&& if size > 0 {
        moved_by_fill(new, prev, Side::Sell, size, bid, fee_spec(prev, size, bid, fee_taker))
    } else if size < 0 {
        moved_by_fill(
            new,
            prev,
            Side::Buy,
            clamp(-size),
            ask,
            fee_spec(prev, clamp(-size), ask, fee_taker),
        )
    } else {
        &&& new.position == prev.position
        &&& new.margin.wallet_balance == prev.margin.wallet_balance
        &&& new.futures_type == prev.futures_type
        &&& new.fee_maker == prev.fee_maker
    }
}


/// Limit-then-cancel idempotence: placing a limit order and cancelling it
/// again returns the order margin and the available balance to what they
/// were before.
pub proof fn lemma_limit_then_cancel(
    e0: Exchange,
    o: Order,
    placed: Order,
    e1: Exchange,
    r2: Option<Order>,
    e2: Exchange,
)
    requires
        e0.wf(),
        e1.wf(),
        e2.wf(),
        o.order_type == OrderType::Limit,
        Exchange::submitted(e0, o, Ok(placed), e1),
        Exchange::cancelled(e1, placed.id, r2, e2),
    ensures
        r2 == Some(placed),
        e2.account.active_limit_orders@ == e0.account.active_limit_orders@,
        e2.account.margin.order_margin == e0.account.margin.order_margin,
        e2.account.available_spec() == e0.account.available_spec(),
{
    let s0 = e0.account.active_limit_orders@;
    let s1 = e1.account.active_limit_orders@;
    let n = s0.len() as int;
    assert(s1 == s0.push(placed));
    assert(s1[n] == placed);
    assert(has_id(s1, placed.id));
    let i = choose|i: int|
        0 <= i < s1.len() && s1[i].id == placed.id && r2 == Some(s1[i])
            && e2.account.active_limit_orders@ == s1.remove(i);
    if i < n {
        assert(s1[i] == s0[i]);
        assert(s0[i].id < e0.next_order_id);
    }
    assert(i == n);
    assert(s1.remove(n) =~= s0);
}

/// Position round trip: a market buy of `q` followed by a market sell of
/// `q` against an unchanged book returns the position to its size. From a
/// flat position the wallet then differs by the profit and loss of buying
/// at the ask and selling at the bid, less both taker fees.
pub proof fn lemma_market_round_trip(
    e0: Exchange,
    buy: Order,
    r1: Order,
    e1: Exchange,
    sell: Order,
    r2: Order,
    e2: Exchange,
)
    requires
        e0.wf(),
        buy.order_type == OrderType::Market,
        sell.order_type == OrderType::Market,
        buy.side == Side::Buy,
        sell.side == Side::Sell,
        sell.quantity == buy.quantity,
        Exchange::submitted(e0, buy, Ok(r1), e1),
        Exchange::submitted(e1, sell, Ok(r2), e2),
        -BOUND <= e0.account.position.size.raw <= BOUND,
        buy.quantity.raw <= BOUND,
        -BOUND <= e0.account.position.size.raw + buy.quantity.raw <= BOUND,
    ensures
        e2.account.position.size == e0.account.position.size,
        e2.market_state == e0.market_state,
        e0.account.position.size.raw == 0 ==> {
            let q = buy.quantity.raw as int;
            let ask = e0.market_state.ask.raw as int;
            let bid = e0.market_state.bid.raw as int;
            let rate = e0.config.fee_taker.raw as int;
            e2.account.margin.wallet_balance.raw == sub_spec(
                add_spec(
                    sub_spec(
                        e0.account.margin.wallet_balance.raw as int,
                        fee_spec(e0.account, q, ask, rate),
                    ),
                    pnl_spec(e0.account.futures_type, ask, bid, q),
                ),
                fee_spec(e1.account, q, bid, rate),
            )
        },
{
    let q = buy.quantity.raw as int;
    let s0 = e0.account.position.size.raw as int;
    assert(buy.quantity.raw > 0);
    assert(e1.account.position.size.raw == s0 + q);
    if s0 == 0 {
        assert(e1.account.position.entry_price.raw == e0.market_state.ask.raw);
    }
}

/// What holds after every entry point: the available balance is the wallet
/// less both margins (exactly, while no subtraction saturates), the resting
/// orders respect the cap, and the cached open sizes are the sums of the
/// resting quantities of each side.
pub proof fn lemma_exchange_invariants(e: Exchange)
    requires
        e.wf(),
    ensures
        e.account.available_spec() == sub_spec(
            sub_spec(
                e.account.margin.wallet_balance.raw as int,
                e.account.margin.position_margin.raw as int,
            ),
            e.account.margin.order_margin.raw as int,
        ),
        ({
            let w = e.account.margin.wallet_balance.raw as int;
            let pm = e.account.margin.position_margin.raw as int;
            let om = e.account.margin.order_margin.raw as int;
            -BOUND <= w <= BOUND && -BOUND <= pm <= BOUND && -BOUND <= om <= BOUND && -BOUND <= w
                - pm <= BOUND && -BOUND <= w - pm - om <= BOUND
                ==> e.account.available_spec() == w - pm - om
        }),
        e.account.active_limit_orders@.len() <= e.config.max_num_open_orders,
        e.account.open_limit_buy_size.raw == side_size(e.account.active_limit_orders@, Side::Buy),
        e.account.open_limit_sell_size.raw == side_size(e.account.active_limit_orders@, Side::Sell),
{
}

/// The leveraged futures exchange: one account trading against an external
/// top of book.
#[derive(Clone, Debug)]
pub struct Exchange {
    pub config: Config,
    pub account: Account,
    pub validator: Validator,
    pub execution_engine: ExecutionEngine,
    pub market_state: MarketState,
    pub next_order_id: u64,
    pub step: u64,
}

impl Exchange {
    /// The exchange's invariant: its parts agree with the configuration, the
    /// cap on resting orders holds, and every resting order has an id below
    /// the next one to be handed out.
    pub open spec fn wf(self) -> bool {
        &&& self.config.wf()
        &&& self.account.wf()
        &&& self.account.futures_type == self.config.futures_type
        &&& self.account.fee_maker == self.config.fee_maker
        &&& self.account.position.leverage == self.config.leverage
        &&& self.validator.fee_maker == self.config.fee_maker
        &&& self.validator.fee_taker == self.config.fee_taker
        &&& self.validator.max_num_open_orders == self.config.max_num_open_orders
        &&& self.market_state.wf()
        &&& self.validator.bid == self.market_state.bid
        &&& self.validator.ask == self.market_state.ask
        &&& self.execution_engine == (ExecutionEngine {
            fee_maker: self.config.fee_maker,
            fee_taker: self.config.fee_taker,
        })
        &&& self.account.active_limit_orders@.len() <= self.config.max_num_open_orders
        &&& forall|i: int|
            0 <= i < self.account.active_limit_orders@.len()
                ==> #[trigger] self.account.active_limit_orders@[i].id < self.next_order_id
    }

    /// `o` with the id and timestamp that the exchange would stamp on it.
    pub open spec fn stamped(self, o: Order) -> Order {
        Order { id: self.next_order_id, timestamp: self.step, ..o }
    }

    /// What `submit_order` does: `new` and `r` follow from `prev` and `o`.
    pub open spec fn submitted(prev: Exchange, o: Order, r: Result<Order, OrderError>, new: Exchange) -> bool {
        let s = prev.stamped(o);
        &&& new.config == prev.config
        &&& new.validator == prev.validator
        &&& new.execution_engine == prev.execution_engine
        &&& new.market_state == prev.market_state
        &&& new.step == prev.step
        &&& if o.quantity.raw <= 0 {
            r == Err::<Order, OrderError>(OrderError::OrderSizeMustBePositive) && new == prev
        } else if o.order_type == OrderType::Limit && o.limit_price.raw <= 0 {
            r == Err::<Order, OrderError>(OrderError::LimitPriceTooLow) && new == prev
        } else if o.order_type == OrderType::Market {
            match prev.validator.market_result(s, prev.account) {
                Err(e) => r == Err::<Order, OrderError>(e) && new == prev,
                Ok(_) => {
                    let price = prev.validator.taker_price(o.side);
                    &&& r == Ok::<Order, OrderError>(filled(s))
                    &&& new.next_order_id == prev.next_order_id + 1
                    &&& is_fill(
                        new.account,
                        prev.account,
                        o.side,
                        o.quantity.raw as int,
                        price,
                        fee_spec(
                            prev.account,
                            o.quantity.raw as int,
                            price,
                            prev.config.fee_taker.raw as int,
                        ),
                    )
                },
            }
        } else {
            match prev.validator.limit_result(s, prev.account) {
                Err(e) => r == Err::<Order, OrderError>(e) && new == prev,
                Ok(_) => {
                    &&& r == Ok::<Order, OrderError>(s)
                    &&& new.next_order_id == prev.next_order_id + 1
                    &&& new.account.active_limit_orders@ == prev.account.active_limit_orders@.push(s)
                    &&& new.account.position == prev.account.position
                    &&& new.account.margin.wallet_balance == prev.account.margin.wallet_balance
                    &&& new.account.margin.position_margin == prev.account.margin.position_margin
                },
            }
        }
    }

    /// What `cancel_order` does: `new` and `r` follow from `prev` and `id`.
    pub open spec fn cancelled(prev: Exchange, id: u64, r: Option<Order>, new: Exchange) -> bool {
        let old_orders = prev.account.active_limit_orders@;
        &&& new.config == prev.config
        &&& new.validator == prev.validator
        &&& new.execution_engine == prev.execution_engine
        &&& new.market_state == prev.market_state
        &&& new.step == prev.step
        &&& new.next_order_id == prev.next_order_id
        &&& new.account.position == prev.account.position
        &&& new.account.margin.wallet_balance == prev.account.margin.wallet_balance
        &&& new.account.margin.position_margin == prev.account.margin.position_margin
        &&& (has_id(old_orders, id) <==> r.is_some())
        &&& r.is_none() ==> new.account.active_limit_orders@ == old_orders
            && new.account.margin == prev.account.margin
        &&& r.is_some() ==> exists|i: int|
            0 <= i < old_orders.len() && old_orders[i].id == id && r == Some(old_orders[i])
                && new.account.active_limit_orders@ == old_orders.remove(i)
    }

    /// A new exchange with a fresh account.
    pub fn new(config: Config) -> (r: Exchange)
        requires
            config.wf(),
        ensures
            r.wf(),
            r.config == config,
            r.account.position.size.raw == 0,
            r.account.margin.wallet_balance == config.starting_balance,
            r.account.active_limit_orders@.len() == 0,
            r.next_order_id == 0,
            r.step == 0,
            r.market_state == (MarketState {
                bid: Dec { raw: 0 },
                ask: Dec { raw: 0 },
                high: Dec { raw: 0 },
                low: Dec { raw: 0 },
                timestamp: 0,
            }),
    {
        let account = Account::new(
            config.leverage,
            config.starting_balance,
            config.futures_type,
            config.fee_maker,
        );
        let validator = Validator::new(config.fee_maker, config.fee_taker, config.max_num_open_orders);
        let execution_engine = ExecutionEngine::new(config.fee_maker, config.fee_taker);
        Exchange {
            config,
            account,
            validator,
            execution_engine,
            market_state: MarketState {
                bid: Dec::zero(),
                ask: Dec::zero(),
                high: Dec::zero(),
                low: Dec::zero(),
                timestamp: 0,
            },
            next_order_id: 0,
            step: 0,
        }
    }

    pub fn config(&self) -> (r: &Config)
        ensures
            *r == self.config,
    {
        &self.config
    }

    pub fn bid(&self) -> (r: Dec)
        ensures
            r == self.market_state.bid,
    {
        self.market_state.bid
    }

    pub fn ask(&self) -> (r: Dec)
        ensures
            r == self.market_state.ask,
    {
        self.market_state.ask
    }

    pub fn account(&self) -> (r: &Account)
        ensures
            *r == self.account,
    {
        &self.account
    }

    /// The account, to be changed by the caller, who then answers for the
    /// exchange's invariant.
    pub fn account_mut(&mut self) -> (r: &mut Account)
        ensures
            *r == old(self).account,
            *final(self) == (Exchange { account: *final(r), ..*old(self) }),
    {
        &mut self.account
    }

    /// Replaces the account. It must agree with the configuration, and its
    /// resting orders must respect the cap and carry ids that the exchange
    /// has already handed out.
    pub fn set_account(&mut self, account: Account)
        requires
            old(self).wf(),
            account.wf(),
            account.futures_type == old(self).config.futures_type,
            account.fee_maker == old(self).config.fee_maker,
            account.position.leverage == old(self).config.leverage,
            account.active_limit_orders@.len() <= old(self).config.max_num_open_orders,
            forall|i: int|
                0 <= i < account.active_limit_orders@.len()
                    ==> #[trigger] account.active_limit_orders@[i].id < old(self).next_order_id,
        ensures
            final(self).wf(),
            *final(self) == (Exchange { account, ..*old(self) }),
    {
        self.account = account;
    }

    /// Submits an order. A market order executes at once at the top of book;
    /// a limit order rests and its order margin is charged. Returns the order
    /// with its id and timestamp, or why it was refused; a refused order
    /// changes nothing.
    pub fn submit_order(&mut self, order: Order) -> (r: Result<Order, OrderError>)
        requires
            old(self).wf(),
            old(self).next_order_id < u64::MAX,
        ensures
            final(self).wf(),
            Exchange::submitted(*old(self), order, r, *final(self)),
    {
        if order.quantity.raw <= 0 {
            return Err(OrderError::OrderSizeMustBePositive);
        }
        if order.order_type == OrderType::Limit && order.limit_price.raw <= 0 {
            return Err(OrderError::LimitPriceTooLow);
        }
        let mut order = order;
        order.set_id(self.next_order_id);
        order.set_timestamp(self.step);
        match order.order_type {
            OrderType::Market => {
                match self.validator.validate_market_order(&order, &self.account) {
                    Err(e) => {
                        return Err(e);
                    },
                    Ok(()) => {},
                }
                self.next_order_id = self.next_order_id + 1;
                let order = self.execution_engine.execute_market_order(
                    &mut self.account,
                    &self.market_state,
                    order,
                );
                Ok(order)
            },
            OrderType::Limit => {
                match self.validator.validate_limit_order(&order, &self.account) {
                    Err(e) => {
                        return Err(e);
                    },
                    Ok(_) => {},
                }
                proof {
                    let s = self.account.active_limit_orders@;
                    assert forall|i: int| 0 <= i < s.len() implies s[i].id != order.id by {
                        assert(s[i].id < self.next_order_id);
                    }
                }
                self.account.append_limit_order(order);
                self.next_order_id = self.next_order_id + 1;
                proof {
                    let s = self.account.active_limit_orders@;
                    assert forall|i: int| 0 <= i < s.len() implies #[trigger] s[i].id
                        < self.next_order_id by {
                        if i < s.len() - 1 {
                            assert(s[i] == old(self).account.active_limit_orders@[i]);
                        }
                    }
                }
                Ok(order)
            },
        }
    }

    /// Takes in new market data: `bid` and `ask` are the top of book, `high`
    /// and `low` the range traded since the last update. Liquidates the
    /// account if it can no longer carry its position; otherwise fills, in
    /// the order in which they were placed, the resting orders that the
    /// range reaches. Returns the filled orders and whether a liquidation
    /// took place.
    pub fn update_state(
        &mut self,
        bid: Dec,
        ask: Dec,
        timestamp: u64,
        high: Dec,
        low: Dec,
    ) -> (r: (Vec<Order>, bool))
        requires
            old(self).wf(),
            old(self).step < u64::MAX,
            low.raw <= bid.raw,
            bid.raw <= ask.raw,
            ask.raw <= high.raw,
        ensures
            final(self).wf(),
            final(self).market_state == (MarketState { bid, ask, high, low, timestamp }),
            final(self).config == old(self).config,
            final(self).next_order_id == old(self).next_order_id,
            r.1 == liquidation_due(old(self).account, bid.raw as int, ask.raw as int),
            r.1 ==> r.0@.len() == 0 && final(self).step == old(self).step && liquidated(
                final(self).account,
                old(self).account,
                bid.raw as int,
                ask.raw as int,
                old(self).config.fee_taker.raw as int,
            ),
            !r.1 ==> {
                let orders = old(self).account.active_limit_orders@;
                let fills = triggered_orders(orders, high.raw as int, low.raw as int);
                let acc = old(self).account;
                let (size, entry, wallet) = after_fills(
                    acc,
                    acc.position.size.raw as int,
                    acc.position.entry_price.raw as int,
                    acc.margin.wallet_balance.raw as int,
                    fills,
                );
                &&& r.0@ == fills_of(fills)
                &&& final(self).account.active_limit_orders@ == untriggered_orders(
                    orders,
                    high.raw as int,
                    low.raw as int,
                )
                &&& final(self).account.position.size.raw == size
                &&& final(self).account.position.entry_price.raw == entry
                &&& final(self).account.margin.wallet_balance.raw == wallet
                &&& final(self).step == old(self).step + 1
            },
    {
        self.market_state = MarketState { bid, ask, high, low, timestamp };
        self.validator.update(bid, ask);

        if self.check_liquidation() {
            self.liquidate();
            return (Vec::new(), true);
        }
        let executed = self.check_orders();
        self.step = self.step + 1;
        (executed, false)
    }

    /// Whether the account must be liquidated at the current quotes.
    fn check_liquidation(&self) -> (r: bool)
        ensures
            r == liquidation_due(self.account, self.market_state.bid.raw as int, self.market_state.ask.raw as int),
    {
        let size = self.account.position.size;
        let close = if size.raw > 0 {
            self.market_state.bid
        } else {
            self.market_state.ask
        };
        let upnl = pnl(self.account.futures_type, self.account.position.entry_price, close, size);
        self.account.available_balance().add(upnl).raw < 0
    }

    /// Cancels every resting order and closes the position at the opposite
    /// top of book.
    fn liquidate(&mut self)
        requires
            old(self).wf(),
        ensures
            final(self).wf(),
            liquidated(
                final(self).account,
                old(self).account,
                old(self).market_state.bid.raw as int,
                old(self).market_state.ask.raw as int,
                old(self).config.fee_taker.raw as int,
            ),
            final(self).config == old(self).config,
            final(self).market_state == old(self).market_state,
            final(self).validator == old(self).validator,
            final(self).execution_engine == old(self).execution_engine,
            final(self).next_order_id == old(self).next_order_id,
            final(self).step == old(self).step,
    {
        self.account.clear_limit_orders();
        let size = self.account.position.size;
        if size.raw > 0 {
            self.execution_engine.execute_market_sell(&mut self.account, &self.market_state, size);
        } else if size.raw < 0 {
            self.execution_engine.execute_market_buy(
                &mut self.account,
                &self.market_state,
                size.neg(),
            );
        }
    }

    /// Fills, in order, the resting orders that the current range reaches,
    /// and returns them.
    fn check_orders(&mut self) -> (r: Vec<Order>)
        requires
            old(self).wf(),
        ensures
            final(self).wf(),
            final(self).config == old(self).config,
            final(self).market_state == old(self).market_state,
            final(self).validator == old(self).validator,
            final(self).execution_engine == old(self).execution_engine,
            final(self).next_order_id == old(self).next_order_id,
            final(self).step == old(self).step,
            ({
                let orders = old(self).account.active_limit_orders@;
                let high = old(self).market_state.high.raw as int;
                let low = old(self).market_state.low.raw as int;
                let fills = triggered_orders(orders, high, low);
                let acc = old(self).account;
                let (size, entry, wallet) = after_fills(
                    acc,
                    acc.position.size.raw as int,
                    acc.position.entry_price.raw as int,
                    acc.margin.wallet_balance.raw as int,
                    fills,
                );
                &&& r@ == fills_of(fills)
                &&& final(self).account.active_limit_orders@ == untriggered_orders(orders, high, low)
                &&& final(self).account.position.size.raw == size
                &&& final(self).account.position.entry_price.raw == entry
                &&& final(self).account.margin.wallet_balance.raw == wallet
            }),
    {
        let ghost orig = self.account.active_limit_orders@;
        let ghost start = self.account;
        let high = self.market_state.high;
        let low = self.market_state.low;
        let mut executed: Vec<Order> = Vec::new();
        let mut i: usize = 0;
        let ghost mut k: int = 0;
        proof {
            assert(orig.take(0) =~= Seq::<Order>::empty());
            assert(orig.skip(0) =~= orig);
            assert(untriggered_orders(orig.take(0), high.raw as int, low.raw as int) + orig.skip(0)
                =~= orig);
            assert(executed@ =~= fills_of(triggered_orders(orig.take(0), high.raw as int, low.raw as int)));
        }
        while i < self.account.active_limit_orders.len()
            invariant
                self.wf(),
                self.config == old(self).config,
                self.market_state == old(self).market_state,
                self.validator == old(self).validator,
                self.execution_engine == old(self).execution_engine,
                self.next_order_id == old(self).next_order_id,
                self.step == old(self).step,
                high == self.market_state.high,
                low == self.market_state.low,
                start == old(self).account,
                start.futures_type == self.config.futures_type,
                start.fee_maker == self.config.fee_maker,
                orig == start.active_limit_orders@,
                0 <= k <= orig.len(),
                self.account.active_limit_orders@ == untriggered_orders(
                    orig.take(k),
                    high.raw as int,
                    low.raw as int,
                ) + orig.skip(k),
                i == untriggered_orders(orig.take(k), high.raw as int, low.raw as int).len(),
                executed@ == fills_of(triggered_orders(orig.take(k), high.raw as int, low.raw as int)),
                ({
                    let (size, entry, wallet) = after_fills(
                        start,
                        start.position.size.raw as int,
                        start.position.entry_price.raw as int,
                        start.margin.wallet_balance.raw as int,
                        triggered_orders(orig.take(k), high.raw as int, low.raw as int),
                    );
                    &&& self.account.position.size.raw == size
                    &&& self.account.position.entry_price.raw == entry
                    &&& self.account.margin.wallet_balance.raw == wallet
                }),
            decreases self.account.active_limit_orders@.len() - i,
        {
            let ghost rest = untriggered_orders(orig.take(k), high.raw as int, low.raw as int);
            let ghost cur = self.account.active_limit_orders@;
            let o = self.account.active_limit_orders[i];
            proof {
                assert(orig.skip(k)[0] == orig[k]);
                assert(o == orig[k]);
                assert(orig.take(k + 1).drop_last() =~= orig.take(k));
                assert(orig.take(k + 1).last() == orig[k]);
            }
            let hit = match o.side {
                Side::Buy => low.raw <= o.limit_price.raw,
                Side::Sell => high.raw >= o.limit_price.raw,
            };
            if hit {
                let removed = self.account.remove_limit_order(i);
                proof {
                    let s = self.account.active_limit_orders@;
                    assert(s =~= rest + orig.skip(k + 1));
                    assert forall|j: int| 0 <= j < s.len() implies #[trigger] s[j].id
                        < self.next_order_id by {
                        if j < i {
                            assert(s[j] == cur[j]);
                        } else {
                            assert(s[j] == cur[j + 1]);
                        }
                    }
                }
                match o.side {
                    Side::Buy => self.execution_engine.execute_limit_buy(
                        &mut self.account,
                        o.quantity,
                        o.limit_price,
                    ),
                    Side::Sell => self.execution_engine.execute_limit_sell(
                        &mut self.account,
                        o.quantity,
                        o.limit_price,
                    ),
                }
                let mut f = removed;
                f.mark_filled();
                executed.push(f);
                proof {
                    let t = triggered_orders(orig.take(k), high.raw as int, low.raw as int);
                    let t2 = triggered_orders(orig.take(k + 1), high.raw as int, low.raw as int);
                    assert(t2 == t.push(o));
                    assert(t2.drop_last() =~= t);
                    assert(t2.last() == o);
                    k = k + 1;
                    assert(executed@ =~= fills_of(
                        triggered_orders(orig.take(k), high.raw as int, low.raw as int),
                    ));
                }
            } else {
                proof {
                    assert(cur =~= untriggered_orders(orig.take(k + 1), high.raw as int, low.raw as int)
                        + orig.skip(k + 1));
                    k = k + 1;
                }
                i = i + 1;
            }
        }
        proof {
            assert(orig.take(k) =~= orig);
        }
        executed
    }

    /// Cancels the resting order with id `id`, if there is one.
    pub fn cancel_order(&mut self, id: u64) -> (r: Option<Order>)
        requires
            old(self).wf(),
        ensures
            final(self).wf(),
            Exchange::cancelled(*old(self), id, r, *final(self)),
    {
        let r = self.account.cancel_limit_order(id);
        proof {
            let o = old(self).account.active_limit_orders@;
            let s = self.account.active_limit_orders@;
            if r.is_some() {
                let i = choose|i: int|
                    0 <= i < o.len() && o[i].id == id && r == Some(o[i]) && s == o.remove(i);
                assert forall|j: int| 0 <= j < s.len() implies #[trigger] s[j].id
                    < self.next_order_id by {
                    if j < i {
                        assert(s[j] == o[j]);
                    } else {
                        assert(s[j] == o[j + 1]);
                    }
                }
            }
        }
        r
    }
}

} // verus!
