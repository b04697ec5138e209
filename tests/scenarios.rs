use lfest::{
    order_margin, BaseCurrency, Config, Dec, Error, Exchange, FuturesType, MarginCurrency, Order,
    OrderError, QuoteCurrency, Side,
};

fn d(x: f64) -> Dec {
    // the shortest decimal form of `x`, read digit by digit
    let text = format!("{}", x);
    let negative = text.starts_with('-');
    let digits = text.trim_start_matches('-');
    let (whole, frac) = match digits.split_once('.') {
        Some((w, f)) => (w, f),
        None => (digits, ""),
    };
    let mut raw: i128 = whole.parse::<i128>().unwrap();
    let mut n = 0;
    for c in frac.chars().take(16) {
        raw = raw * 10 + c.to_digit(10).unwrap() as i128;
        n += 1;
    }
    while n < 16 {
        raw *= 10;
        n += 1;
    }
    Dec { raw: if negative { -raw } else { raw } }
}

fn plain_exchange(leverage: f64, max_orders: usize) -> Exchange {
    let config =
        Config::new(d(0.0), d(0.0), d(1000.0), d(leverage), FuturesType::Linear, max_orders).unwrap();
    Exchange::new(config)
}

#[test]
fn buy_limit_fill() {
    let mut e = plain_exchange(1.0, 10);
    let _ = e.update_state(d(99.0), d(100.0), 0, d(100.0), d(99.0));
    let placed = e.submit_order(Order::limit(Side::Buy, d(98.0), d(5.0)).unwrap()).unwrap();
    assert_eq!(e.account().margin.order_margin, d(490.0));
    let (executed, liquidated) = e.update_state(d(96.0), d(97.0), 1, d(97.0), d(96.0));
    assert!(!liquidated);
    let mut expected = placed;
    expected.mark_filled();
    assert_eq!(executed, vec![expected]);
    assert_eq!(e.account().position.size, d(5.0));
    assert_eq!(e.account().position.entry_price, d(98.0));
    assert_eq!(e.account().margin.position_margin, d(490.0));
    assert_eq!(e.account().margin.order_margin, d(0.0));
    assert_eq!(e.account().available_balance(), d(510.0));
}

#[test]
fn sell_limit_fill_opens_short() {
    let mut e = plain_exchange(1.0, 10);
    let _ = e.update_state(d(99.0), d(100.0), 0, d(100.0), d(99.0));
    e.submit_order(Order::limit(Side::Sell, d(100.0), d(9.0)).unwrap()).unwrap();
    assert_eq!(e.account().margin.order_margin, d(900.0));
    let (executed, liquidated) = e.update_state(d(101.0), d(102.0), 1, d(102.0), d(101.0));
    assert!(!liquidated);
    assert_eq!(executed.len(), 1);
    assert!(executed[0].filled);
    assert_eq!(e.account().position.size, d(-9.0));
    assert_eq!(e.account().position.entry_price, d(100.0));
    assert_eq!(e.account().margin.position_margin, d(900.0));
    assert_eq!(e.account().available_balance(), d(100.0));
}

#[test]
fn reject_limit_sell_below_bid() {
    let mut e = plain_exchange(1.0, 10);
    let _ = e.update_state(d(99.0), d(100.0), 0, d(100.0), d(99.0));
    // a sell is refused only strictly below the bid, so the price sits below
    // it; a sell at the bid itself rests like any other
    let before = e.account().margin;
    let r = e.submit_order(Order::limit(Side::Sell, d(98.5), d(9.0)).unwrap());
    assert_eq!(r, Err(OrderError::LimitPriceLowerThanBid));
    assert_eq!(e.account().margin, before);
    assert!(e.account().active_limit_orders.is_empty());
    assert!(e.submit_order(Order::limit(Side::Sell, d(99.0), d(9.0)).unwrap()).is_ok());
}

#[test]
fn reject_limit_buy_above_ask() {
    let mut e = plain_exchange(1.0, 10);
    let _ = e.update_state(d(99.0), d(100.0), 0, d(100.0), d(99.0));
    let r = e.submit_order(Order::limit(Side::Buy, d(100.5), d(1.0)).unwrap());
    assert_eq!(r, Err(OrderError::LimitPriceLargerThanAsk));
}

#[test]
fn over_cap_reject() {
    let mut e = plain_exchange(1.0, 10);
    let _ = e.update_state(d(99.0), d(100.0), 0, d(100.0), d(99.0));
    e.submit_order(Order::limit(Side::Buy, d(100.0), d(5.0)).unwrap()).unwrap();
    e.submit_order(Order::limit(Side::Buy, d(100.0), d(4.0)).unwrap()).unwrap();
    assert_eq!(e.account().margin.order_margin, d(900.0));
    // with no fees the last 100 of available balance still covers an order
    // of 1 at 100 (a refusal needs the cost to exceed it); the order after
    // that is refused
    assert!(e.submit_order(Order::limit(Side::Buy, d(100.0), d(1.0)).unwrap()).is_ok());
    assert_eq!(e.account().available_balance(), d(0.0));
    let before = e.account().margin;
    let r = e.submit_order(Order::limit(Side::Buy, d(100.0), d(0.5)).unwrap());
    assert_eq!(r, Err(OrderError::NotEnoughAvailableBalance));
    assert_eq!(e.account().margin, before);
    assert_eq!(e.account().active_limit_orders.len(), 3);
}

#[test]
fn hedged_pair_needs_no_extra_margin() {
    let mut e = plain_exchange(1.0, 10);
    let _ = e.update_state(d(100.0), d(100.0), 0, d(100.0), d(100.0));
    e.submit_order(Order::limit(Side::Buy, d(100.0), d(5.0)).unwrap()).unwrap();
    assert_eq!(e.account().margin.order_margin, d(500.0));
    e.submit_order(Order::limit(Side::Sell, d(100.0), d(5.0)).unwrap()).unwrap();
    assert_eq!(e.account().margin.order_margin, d(500.0));
    assert_eq!(e.account().open_limit_buy_size, d(5.0));
    assert_eq!(e.account().open_limit_sell_size, d(5.0));
}

#[test]
fn inverse_order_margin_without_position() {
    let buy = vec![Order::limit(Side::Buy, d(100.0), d(100.0)).unwrap()];
    assert_eq!(order_margin(&buy, d(0.0), FuturesType::Inverse, d(1.0), d(0.0)), d(1.0));
    let sells = vec![
        Order::limit(Side::Sell, d(100.0), d(100.0)).unwrap(),
        Order::limit(Side::Sell, d(100.0), d(100.0)).unwrap(),
        Order::limit(Side::Sell, d(100.0), d(100.0)).unwrap(),
    ];
    assert_eq!(order_margin(&sells, d(0.0), FuturesType::Inverse, d(1.0), d(0.0)), d(3.0));
}

#[test]
fn order_margin_includes_maker_fees_of_the_chosen_side() {
    let orders = vec![
        Order::limit(Side::Buy, d(100.0), d(2.0)).unwrap(),
        Order::limit(Side::Sell, d(110.0), d(1.0)).unwrap(),
    ];
    // buy side: 2 * 100 / 2 + 2 * 100 * 0.001
    assert_eq!(order_margin(&orders, d(0.0), FuturesType::Linear, d(2.0), d(0.001)), d(100.2));
    // sell side, weighted price 110: 1 * 110 + 0.11
    let orders = vec![
        Order::limit(Side::Buy, d(100.0), d(1.0)).unwrap(),
        Order::limit(Side::Sell, d(110.0), d(3.0)).unwrap(),
    ];
    assert_eq!(order_margin(&orders, d(1.0), FuturesType::Linear, d(1.0), d(0.001)), d(220.33));
}

#[test]
fn liquidation_closes_position_and_cancels_orders() {
    let mut e = plain_exchange(10.0, 10);
    let _ = e.update_state(d(100.0), d(100.0), 0, d(100.0), d(100.0));
    e.submit_order(Order::market(Side::Buy, d(100.0)).unwrap()).unwrap();
    assert_eq!(e.account().position.size, d(100.0));
    assert_eq!(e.account().margin.position_margin, d(1000.0));
    e.submit_order(Order::limit(Side::Sell, d(101.0), d(50.0)).unwrap()).unwrap();
    assert_eq!(e.account().active_limit_orders.len(), 1);
    let (executed, liquidated) = e.update_state(d(99.0), d(99.5), 1, d(99.5), d(99.0));
    assert!(liquidated);
    assert!(executed.is_empty());
    assert_eq!(e.account().position.size, d(0.0));
    assert_eq!(e.account().active_limit_orders.len(), 0);
    assert_eq!(e.account().margin.order_margin, d(0.0));
    // closed at the bid: 100 * (99 - 100)
    assert_eq!(e.account().margin.wallet_balance, d(900.0));
}

#[test]
fn market_round_trip_restores_position() {
    let config = Config::new(d(0.0), d(0.001), d(1000.0), d(1.0), FuturesType::Linear, 10).unwrap();
    let mut e = Exchange::new(config);
    let _ = e.update_state(d(99.0), d(100.0), 0, d(100.0), d(99.0));
    e.submit_order(Order::market(Side::Buy, d(2.0)).unwrap()).unwrap();
    assert_eq!(e.account().position.size, d(2.0));
    e.submit_order(Order::market(Side::Sell, d(2.0)).unwrap()).unwrap();
    assert_eq!(e.account().position.size, d(0.0));
    // fees 0.2 and 0.198, slippage 2 * (99 - 100)
    assert_eq!(e.account().margin.wallet_balance, d(997.602));
}

#[test]
fn limit_then_cancel_restores_margins() {
    let mut e = plain_exchange(2.0, 10);
    let _ = e.update_state(d(99.0), d(100.0), 0, d(100.0), d(99.0));
    e.submit_order(Order::limit(Side::Sell, d(100.0), d(3.0)).unwrap()).unwrap();
    let om = e.account().margin.order_margin;
    let available = e.account().available_balance();
    let placed = e.submit_order(Order::limit(Side::Buy, d(95.0), d(4.0)).unwrap()).unwrap();
    assert_ne!(e.account().margin.order_margin, om);
    assert_eq!(e.cancel_order(placed.id), Some(placed));
    assert_eq!(e.account().margin.order_margin, om);
    assert_eq!(e.account().available_balance(), available);
    assert_eq!(e.cancel_order(placed.id), None);
}

#[test]
fn resting_orders_are_capped() {
    let mut e = plain_exchange(1.0, 2);
    let _ = e.update_state(d(99.0), d(100.0), 0, d(100.0), d(99.0));
    e.submit_order(Order::limit(Side::Buy, d(90.0), d(1.0)).unwrap()).unwrap();
    e.submit_order(Order::limit(Side::Buy, d(90.0), d(1.0)).unwrap()).unwrap();
    let r = e.submit_order(Order::limit(Side::Buy, d(90.0), d(1.0)).unwrap());
    assert_eq!(r, Err(OrderError::MaxActiveOrders));
}

#[test]
fn fills_follow_placement_order() {
    let mut e = plain_exchange(1.0, 10);
    let _ = e.update_state(d(99.0), d(100.0), 0, d(100.0), d(99.0));
    let a = e.submit_order(Order::limit(Side::Buy, d(95.0), d(1.0)).unwrap()).unwrap();
    let b = e.submit_order(Order::limit(Side::Buy, d(90.0), d(1.0)).unwrap()).unwrap();
    let c = e.submit_order(Order::limit(Side::Buy, d(97.0), d(1.0)).unwrap()).unwrap();
    let (executed, _) = e.update_state(d(94.0), d(95.0), 1, d(95.0), d(94.0));
    let ids: Vec<u64> = executed.iter().map(|o| o.id).collect();
    assert_eq!(ids, vec![a.id, c.id]);
    assert_eq!(e.account().active_limit_orders, vec![b]);
    assert_eq!(e.account().open_limit_buy_size, d(1.0));
    assert_eq!(e.account().position.size, d(2.0));
    assert_eq!(e.account().position.entry_price, d(96.0));
}

#[test]
fn turnaround_realizes_pnl_and_reenters() {
    let mut e = plain_exchange(1.0, 10);
    let _ = e.update_state(d(100.0), d(100.0), 0, d(100.0), d(100.0));
    e.submit_order(Order::market(Side::Buy, d(2.0)).unwrap()).unwrap();
    let _ = e.update_state(d(110.0), d(110.0), 1, d(110.0), d(110.0));
    e.submit_order(Order::market(Side::Sell, d(5.0)).unwrap()).unwrap();
    assert_eq!(e.account().position.size, d(-3.0));
    assert_eq!(e.account().position.entry_price, d(110.0));
    assert_eq!(e.account().margin.wallet_balance, d(1020.0));
    assert_eq!(e.account().margin.position_margin, d(330.0));
}

#[test]
fn invalid_orders_are_refused() {
    assert_eq!(Order::market(Side::Buy, d(0.0)), Err(OrderError::OrderSizeMustBePositive));
    assert_eq!(Order::limit(Side::Buy, d(0.0), d(1.0)), Err(OrderError::LimitPriceTooLow));
    assert_eq!(Order::limit(Side::Buy, d(1.0), d(-1.0)), Err(OrderError::OrderSizeMustBePositive));
    let mut e = plain_exchange(1.0, 10);
    let mut o = Order::market(Side::Buy, d(1.0)).unwrap();
    o.quantity = d(0.0);
    assert_eq!(e.submit_order(o), Err(OrderError::OrderSizeMustBePositive));
}

#[test]
fn market_order_needs_balance() {
    let mut e = plain_exchange(1.0, 10);
    let _ = e.update_state(d(99.0), d(100.0), 0, d(100.0), d(99.0));
    let r = e.submit_order(Order::market(Side::Buy, d(10.5)).unwrap());
    assert_eq!(r, Err(OrderError::NotEnoughAvailableBalance));
    assert!(e.submit_order(Order::market(Side::Buy, d(10.0)).unwrap()).is_ok());
}

#[test]
fn config_errors() {
    let lt = FuturesType::Linear;
    assert_eq!(Config::new(d(0.0), d(0.0), d(1000.0), d(0.5), lt, 1), Err(Error::ConfigWrongLeverage));
    assert_eq!(Config::new(d(0.0), d(0.0), d(0.0), d(1.0), lt, 1), Err(Error::ConfigWrongStartingBalance));
    assert_eq!(Config::new(d(-0.1), d(0.0), d(10.0), d(1.0), lt, 1), Err(Error::ConfigWrongFee));
    assert_eq!(Config::new(d(0.0), d(0.0), d(10.0), d(1.0), lt, 0), Err(Error::InvalidMaxNumOpenOrders));
    assert!(Config::new(d(0.0), d(0.0), d(10.0), d(1.0), lt, 1).is_ok());
}

#[test]
fn decimal_arithmetic() {
    assert_eq!(Dec::new(5, 1), d(0.5));
    assert_eq!(Dec::from_int(3).mul(d(0.5)), d(1.5));
    let bound: i128 = 1_000_000_000_000_000_000_000_000_000_000;
    assert_eq!(Dec::one().div(Dec::from_int(3)), Dec { raw: 3_333_333_333_333_333 });
    assert_eq!(Dec::one().neg().div(Dec::from_int(3)), Dec { raw: -3_333_333_333_333_333 });
    assert_eq!(Dec::one().div(Dec::zero()), Dec { raw: bound });
    assert_eq!(Dec { raw: bound }.add(Dec::one()), Dec { raw: bound });
    assert_eq!(Dec { raw: i128::MIN }.neg(), Dec { raw: bound });
    // products of eight-digit numbers are exact
    assert_eq!(d(0.00000001).mul(d(1.5)), Dec { raw: 150_000_000 });
    assert_eq!(d(0.00000003).mul(d(1.5)), d(0.000000045));
    assert_eq!(d(12345.6789).mul(d(0.00000001)), d(0.000123456789));
    assert_eq!(d(100000000.0).mul(d(100000000.0)), Dec { raw: bound });
    assert_eq!(d(7.0).div(d(0.5)), d(14.0));
    assert_eq!(d(2.5).sub(d(4.0)).abs(), d(1.5));
}

#[test]
fn inverse_pnl() {
    assert_eq!(QuoteCurrency::pnl(d(100.0), d(110.0), d(2.0)), d(20.0));
    assert_eq!(QuoteCurrency::pnl(d(100.0), d(110.0), d(-2.0)), d(-20.0));
    assert_eq!(BaseCurrency::pnl(d(100.0), d(200.0), d(100.0)), d(0.5));
    assert_eq!(BaseCurrency::pnl(d(100.0), d(200.0), d(-100.0)), d(-0.5));
}

#[test]
fn order_margin_keeps_product_digits() {
    // two buys of 1e-8 at 1.5 and 2.5: weighted price 2, margin 4e-8
    let orders = vec![
        Order::limit(Side::Buy, d(1.5), d(0.00000001)).unwrap(),
        Order::limit(Side::Buy, d(2.5), d(0.00000001)).unwrap(),
    ];
    assert_eq!(order_margin(&orders, d(0.0), FuturesType::Linear, d(1.0), d(0.0)), d(0.00000004));
    // doubling the size and the leverage needs the same margin
    let one = vec![Order::limit(Side::Buy, d(1.5), d(0.00000003)).unwrap()];
    let two = vec![Order::limit(Side::Buy, d(1.5), d(0.00000006)).unwrap()];
    let m1 = order_margin(&one, d(0.0), FuturesType::Linear, d(1.0), d(0.0));
    let m2 = order_margin(&two, d(0.0), FuturesType::Linear, d(2.0), d(0.0));
    assert_eq!(m1, d(0.000000045));
    assert_eq!(m1, m2);
}

#[test]
fn offset_orders_keep_order_margin() {
    // a sell fully offset by the long position needs no margin
    let resting = vec![Order::limit(Side::Buy, d(90.0), d(2.0)).unwrap()];
    let before = order_margin(&resting, d(5.0), FuturesType::Linear, d(1.0), d(0.0));
    assert_eq!(before, d(180.0));
    let mut more = resting.clone();
    more.push(Order::limit(Side::Sell, d(110.0), d(3.0)).unwrap());
    assert_eq!(order_margin(&more, d(5.0), FuturesType::Linear, d(1.0), d(0.0)), before);
    // a buy hedged by a larger resting sell
    let resting = vec![Order::limit(Side::Sell, d(110.0), d(4.0)).unwrap()];
    let before = order_margin(&resting, d(0.0), FuturesType::Linear, d(1.0), d(0.0));
    assert_eq!(before, d(440.0));
    let mut more = resting.clone();
    more.push(Order::limit(Side::Buy, d(90.0), d(3.0)).unwrap());
    assert_eq!(order_margin(&more, d(0.0), FuturesType::Linear, d(1.0), d(0.0)), before);
}

#[test]
fn position_sign_follows_fills() {
    let mut e = plain_exchange(1.0, 10);
    let _ = e.update_state(d(100.0), d(100.0), 0, d(100.0), d(100.0));
    e.submit_order(Order::market(Side::Sell, d(3.0)).unwrap()).unwrap();
    assert!(e.account().position.size.raw < 0);
    e.submit_order(Order::market(Side::Buy, d(3.0)).unwrap()).unwrap();
    assert_eq!(e.account().position.size, d(0.0));
    e.submit_order(Order::market(Side::Buy, d(1.0)).unwrap()).unwrap();
    assert!(e.account().position.size.raw > 0);
}
