use drift_ws::account_event::{
    can_price_fill, map_drift_event_for_account, try_map_drift_event_for_account, AccountEvent,
    Channel, OrderWithDecimals, Side,
};
use drift_ws::decimal::Decimal;
use drift_ws::exchange::{
    get_market_decimals, DriftEvent, Market, MarketConfig, MarketType, Order, OrderType,
    PositionDirection, ProgramData, Pubkey,
};

fn dec(mantissa: i128, scale: u32) -> Decimal {
    Decimal { mantissa, scale }
}

fn key(text: &str) -> Pubkey {
    Pubkey { text: text.to_string() }
}

fn market(market_index: u16, market_type: MarketType, decimals: u32) -> MarketConfig {
    MarketConfig { market: Market { market_index, market_type }, decimals }
}

fn program_data() -> ProgramData {
    ProgramData {
        markets: vec![
            market(0, MarketType::Spot, 6),
            market(0, MarketType::Perp, 9),
            market(1, MarketType::Spot, 29),
            market(0, MarketType::Perp, 3),
        ],
    }
}

fn fill_event(base: u64, quote: u64) -> DriftEvent {
    DriftEvent::OrderFill {
        maker: Some(key("maker")),
        maker_fee: -500,
        maker_order_id: 11,
        maker_side: Some(PositionDirection::Short),
        taker: Some(key("taker")),
        taker_fee: 1_200_000,
        taker_order_id: 22,
        taker_side: Some(PositionDirection::Long),
        base_asset_amount_filled: base,
        quote_asset_amount_filled: quote,
        oracle_price: 24_500_000,
        market_index: 0,
        market_type: MarketType::Perp,
        signature: "sig".to_string(),
        tx_idx: 4,
        ts: 1_700_000_000,
    }
}

fn order() -> Order {
    Order {
        slot: 55,
        price: 21_350_000,
        base_asset_amount: 1_500_000_000,
        base_asset_amount_filled: 0,
        trigger_price: 20_000_000,
        auction_start_price: -10_000,
        auction_end_price: 123_456,
        max_ts: -3,
        oracle_price_offset: -70_000,
        order_id: 9,
        market_index: 0,
        order_type: OrderType::TriggerLimit,
        market_type: MarketType::Perp,
        user_order_id: 7,
        direction: PositionDirection::Short,
        reduce_only: true,
        post_only: false,
        immediate_or_cancel: true,
        auction_duration: 12,
    }
}

#[test]
fn maker_is_told_of_a_fill() {
    let event = fill_event(2_000_000_000, 49_000_000);
    let (channel, told) = map_drift_event_for_account(&program_data(), &event, &key("maker"));
    assert_eq!(channel, Channel::Fills);
    match told {
        Some(AccountEvent::Fill {
            side,
            fee,
            amount,
            price,
            oracle_price,
            order_id,
            market_index,
            market_type,
            ts,
            tx_idx,
            signature,
            maker,
            maker_order_id,
            maker_fee,
            taker,
            taker_order_id,
            taker_fee,
        }) => {
            assert_eq!(side, Side::Sell);
            assert_eq!(fee, dec(-5, 4));
            assert_eq!(amount, dec(2, 0));
            assert_eq!(price, dec(245, 1));
            assert_eq!(oracle_price, dec(245, 1));
            assert_eq!(order_id, 11);
            assert_eq!(market_index, 0);
            assert_eq!(market_type, MarketType::Perp);
            assert_eq!(ts, 1_700_000_000);
            assert_eq!(tx_idx, 4);
            assert_eq!(signature, "sig");
            assert_eq!(maker, Some("maker".to_string()));
            assert_eq!(maker_order_id, Some(11));
            assert_eq!(maker_fee, Some(dec(-500, 6)));
            assert_eq!(taker, Some("taker".to_string()));
            assert_eq!(taker_order_id, Some(22));
            assert_eq!(taker_fee, Some(dec(1_200_000, 6)));
        }
        other => panic!("{:?}", other),
    }
}

#[test]
fn taker_is_told_of_the_same_trade() {
    let event = fill_event(2_000_000_000, 49_000_000);
    let (_, told) = map_drift_event_for_account(&program_data(), &event, &key("taker"));
    match told {
        Some(AccountEvent::Fill { side, fee, amount, price, order_id, maker_fee, taker_fee, .. }) => {
            assert_eq!(side, Side::Buy);
            assert_eq!(fee, dec(12, 1));
            assert_eq!(amount, dec(2, 0));
            assert_eq!(price, dec(245, 1));
            assert_eq!(order_id, 22);
            assert_eq!(maker_fee, Some(dec(-500, 6)));
            assert_eq!(taker_fee, Some(dec(1_200_000, 6)));
        }
        other => panic!("{:?}", other),
    }
}

#[test]
fn others_are_not_told_of_a_fill() {
    let event = fill_event(2_000_000_000, 49_000_000);
    let (channel, told) = map_drift_event_for_account(&program_data(), &event, &key("other"));
    assert_eq!(channel, Channel::Fills);
    assert!(told.is_none());
    // an amount of zero needs no price where no one is told
    let event = fill_event(0, 49_000_000);
    let mapped = try_map_drift_event_for_account(&program_data(), &event, &key("other"));
    assert!(matches!(mapped, Some((Channel::Fills, None))));
}

#[test]
fn who_is_maker_and_taker_is_told_as_maker() {
    let mut event = fill_event(1_000_000_000, 1_000_000);
    if let DriftEvent::OrderFill { taker, .. } = &mut event {
        *taker = Some(key("maker"));
    }
    match map_drift_event_for_account(&program_data(), &event, &key("maker")).1 {
        Some(AccountEvent::Fill { side, order_id, .. }) => {
            assert_eq!(side, Side::Sell);
            assert_eq!(order_id, 11);
        }
        other => panic!("{:?}", other),
    }
}

#[test]
fn price_is_rounded_at_its_last_digit() {
    let event = fill_event(3_000_000_000, 1_000_000);
    match map_drift_event_for_account(&program_data(), &event, &key("maker")).1 {
        Some(AccountEvent::Fill { price, amount, .. }) => {
            assert_eq!(price, dec(3333333333333333333333333333, 28));
            assert_eq!(amount, dec(3, 0));
        }
        other => panic!("{:?}", other),
    }
}

#[test]
fn exact_price_times_amount_gives_the_quote() {
    for (base, quote) in [
        (4_000_000_000u64, 10_000_000u64),
        (1, 1),
        (1_250_000_000, 24_500_001),
        (u64::MAX, 7),
        (640, 3),
        (512_000_000, u64::MAX),
    ] {
        let event = fill_event(base, quote);
        match try_map_drift_event_for_account(&program_data(), &event, &key("taker")) {
            Some((_, Some(AccountEvent::Fill { price, amount, .. }))) => {
                let product = price.mantissa * amount.mantissa * 10i128.pow(6);
                let scale = price.scale + amount.scale;
                assert_eq!(product, quote as i64 as i128 * 10i128.pow(scale));
            }
            other => panic!("{:?}", other),
        }
    }
    match map_drift_event_for_account(
        &program_data(),
        &fill_event(4_000_000_000, 10_000_000),
        &key("maker"),
    )
    .1
    {
        Some(AccountEvent::Fill { price, .. }) => assert_eq!(price, dec(25, 1)),
        other => panic!("{:?}", other),
    }
}

#[test]
fn amounts_are_read_as_signed() {
    let event = fill_event(u64::MAX, 1_000_000);
    match map_drift_event_for_account(&program_data(), &event, &key("maker")).1 {
        Some(AccountEvent::Fill { price, amount, .. }) => {
            assert_eq!(amount, dec(-1, 9));
            assert_eq!(price, dec(-1_000_000_000, 0));
        }
        other => panic!("{:?}", other),
    }
}

#[test]
fn fill_at_a_given_price() {
    let event = AccountEvent::fill_at(
        dec(2500, 2),
        PositionDirection::Long,
        10,
        7_000,
        5_000_000,
        1,
        2,
        3,
        &"sig".to_string(),
        0,
        0,
        MarketType::Spot,
        None,
        None,
        None,
        None,
        None,
        Some(-1),
    );
    match event {
        AccountEvent::Fill { side, price, amount, fee, oracle_price, maker_fee, taker_fee, .. } => {
            assert_eq!(side, Side::Buy);
            assert_eq!(price, dec(25, 0));
            assert_eq!(amount, dec(7, 0));
            assert_eq!(fee, dec(1, 5));
            assert_eq!(oracle_price, dec(5, 0));
            assert_eq!(maker_fee, None);
            assert_eq!(taker_fee, Some(dec(-1, 6)));
        }
        other => panic!("{:?}", other),
    }
}

#[test]
fn fills_without_figures() {
    let data = program_data();
    assert!(try_map_drift_event_for_account(&data, &fill_event(0, 5), &key("maker")).is_none());
    // a side that is not given
    let mut event = fill_event(1, 1);
    if let DriftEvent::OrderFill { maker_side, .. } = &mut event {
        *maker_side = None;
    }
    assert!(try_map_drift_event_for_account(&data, &event, &key("maker")).is_none());
    assert!(try_map_drift_event_for_account(&data, &event, &key("taker")).is_some());
    // a market that is not known, and one with too many decimals
    let mut event = fill_event(1, 1);
    if let DriftEvent::OrderFill { market_index, .. } = &mut event {
        *market_index = 77;
    }
    assert!(try_map_drift_event_for_account(&data, &event, &key("other")).is_none());
    let mut event = fill_event(1, 1);
    if let DriftEvent::OrderFill { market_index, market_type, .. } = &mut event {
        *market_index = 1;
        *market_type = MarketType::Spot;
    }
    assert!(try_map_drift_event_for_account(&data, &event, &key("maker")).is_none());
    assert!(try_map_drift_event_for_account(&data, &event, &key("other")).is_some());
}

#[test]
fn which_fills_have_a_price() {
    assert!(can_price_fill(1, u64::MAX / 2, 15));
    assert!(can_price_fill(u64::MAX, u64::MAX, 15));
    assert!(!can_price_fill(0, 1, 9));
    assert!(!can_price_fill(1, u64::MAX / 2, 28));
    assert!(can_price_fill(1, 0, 28));
    assert!(!can_price_fill(1, 0, 29));
}

#[test]
fn cancelled_orders() {
    let event = DriftEvent::OrderCancel {
        taker: Some(key("taker")),
        maker: Some(key("maker")),
        taker_order_id: 2,
        maker_order_id: 1,
        signature: "s".to_string(),
        tx_idx: 8,
        ts: 9,
    };
    for (who, id) in [("maker", 1), ("taker", 2), ("other", 2)] {
        let (channel, told) = map_drift_event_for_account(&program_data(), &event, &key(who));
        assert_eq!(channel, Channel::Orders);
        match told {
            Some(AccountEvent::OrderCancel { order_id, ts, signature, tx_idx }) => {
                assert_eq!((order_id, ts, tx_idx), (id, 9, 8));
                assert_eq!(signature, "s");
            }
            other => panic!("{:?}", other),
        }
    }
}

#[test]
fn missing_orders() {
    let event =
        DriftEvent::OrderCancelMissing { user_order_id: 3, order_id: 4, signature: "s".to_string() };
    match map_drift_event_for_account(&program_data(), &event, &key("other")) {
        (
            Channel::Orders,
            Some(AccountEvent::OrderCancelMissing { user_order_id, order_id, signature }),
        ) => {
            assert_eq!((user_order_id, order_id), (3, 4));
            assert_eq!(signature, "s");
        }
        other => panic!("{:?}", other),
    }
}

#[test]
fn expired_orders() {
    let expire = |fee: u64| DriftEvent::OrderExpire {
        order_id: 5,
        fee,
        ts: 6,
        signature: "s".to_string(),
    };
    match map_drift_event_for_account(&program_data(), &expire(10_000), &key("other")) {
        (Channel::Orders, Some(AccountEvent::OrderExpire { order_id, fee, ts, signature })) => {
            assert_eq!((order_id, ts), (5, 6));
            assert_eq!(fee, dec(-10_000, 6));
            assert_eq!(signature, "s");
        }
        other => panic!("{:?}", other),
    }
    let data = program_data();
    assert!(try_map_drift_event_for_account(&data, &expire(1 << 63), &key("other")).is_none());
    match try_map_drift_event_for_account(&data, &expire(u64::MAX), &key("other")) {
        Some((_, Some(AccountEvent::OrderExpire { fee, .. }))) => assert_eq!(fee, dec(1, 6)),
        other => panic!("{:?}", other),
    }
}

#[test]
fn created_orders() {
    let event =
        DriftEvent::OrderCreate { order: order(), ts: 1, signature: "s".to_string(), tx_idx: 2 };
    match map_drift_event_for_account(&program_data(), &event, &key("other")) {
        (Channel::Orders, Some(AccountEvent::OrderCreate { order, ts, signature, tx_idx })) => {
            assert_eq!((ts, tx_idx), (1, 2));
            assert_eq!(signature, "s");
            assert_eq!(order.amount, dec(15, 1));
        }
        other => panic!("{:?}", other),
    }
    let mut unknown = order();
    unknown.market_index = 77;
    let event =
        DriftEvent::OrderCreate { order: unknown, ts: 1, signature: "s".to_string(), tx_idx: 2 };
    assert!(try_map_drift_event_for_account(&program_data(), &event, &key("other")).is_none());
}

#[test]
fn orders_in_figures() {
    let told = OrderWithDecimals::from_order(order(), 9);
    assert_eq!(told.slot, 55);
    assert_eq!(told.price, dec(2135, 2));
    assert_eq!(told.amount, dec(15, 1));
    assert_eq!(told.filled, dec(0, 0));
    assert_eq!(told.trigger_price, dec(20, 0));
    assert_eq!(told.auction_start_price, dec(-1, 2));
    assert_eq!(told.auction_end_price, dec(123_456, 6));
    assert_eq!(told.max_ts, -3);
    assert_eq!(told.oracle_price_offset, dec(-7, 2));
    assert_eq!(told.order_id, 9);
    assert_eq!(told.market_index, 0);
    assert_eq!(told.order_type, OrderType::TriggerLimit);
    assert_eq!(told.market_type, MarketType::Perp);
    assert_eq!(told.user_order_id, 7);
    assert_eq!(told.direction, PositionDirection::Short);
    assert!(told.reduce_only && !told.post_only && told.immediate_or_cancel);
    assert_eq!(told.auction_duration, 12);
}

#[test]
fn funding_payments() {
    let event = DriftEvent::FundingPayment {
        amount: -2_500_000,
        market_index: 3,
        ts: 4,
        signature: "s".to_string(),
        tx_idx: 5,
    };
    match map_drift_event_for_account(&program_data(), &event, &key("other")) {
        (
            Channel::Funding,
            Some(AccountEvent::FundingPayment { amount, market_index, ts, signature, tx_idx }),
        ) => {
            assert_eq!(amount, dec(-25, 1));
            assert_eq!((market_index, ts, tx_idx), (3, 4, 5));
            assert_eq!(signature, "s");
        }
        other => panic!("{:?}", other),
    }
}

#[test]
fn decimals_of_markets() {
    let data = program_data();
    assert_eq!(get_market_decimals(&data, Market::new(0, MarketType::Perp)), 9);
    assert_eq!(get_market_decimals(&data, Market::new(0, MarketType::Spot)), 6);
    assert_eq!(data.market_decimals(Market::new(1, MarketType::Spot)), Some(29));
    assert_eq!(data.market_decimals(Market::new(1, MarketType::Perp)), None);
}
