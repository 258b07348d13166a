use drift_ws::account_event::{AccountEvent, Channel};
use drift_ws::decimal::Decimal;
use drift_ws::exchange::{
    DriftEvent, L2Level, L2Orderbook, Market, MarketConfig, MarketType, ProgramData, Pubkey,
};
use drift_ws::feed::{
    AccountFeed, AccountFeedAction, AccountFeedEvent, BookFeedAction, BookFeedEvent,
    BookFeedPhase, OrderBookEvent, OrderBookFeed, PriceLevel,
};

fn dec(mantissa: i128, scale: u32) -> Decimal {
    Decimal { mantissa, scale }
}

fn program_data() -> ProgramData {
    let market = Market { market_index: 0, market_type: MarketType::Perp };
    ProgramData { markets: vec![MarketConfig { market, decimals: 9 }] }
}

fn level(price: i64, size: i64) -> L2Level {
    L2Level { price, size }
}

fn book(bids: Vec<L2Level>, asks: Vec<L2Level>) -> L2Orderbook {
    L2Orderbook { slot: 77, bids, asks }
}

fn feed() -> OrderBookFeed {
    OrderBookFeed::new(
        &program_data(),
        Market { market_index: 0, market_type: MarketType::Perp },
        "SOL-PERP".to_string(),
    )
}

fn connects(action: BookFeedAction) -> bool {
    match action {
        BookFeedAction::Connect(name) => name == "sol-perp",
        _ => false,
    }
}

fn full_book() -> L2Orderbook {
    book(
        vec![level(21_350_000, 4_000_000_000), level(21_340_000, 1)],
        vec![level(21_360_000, -5), level(21_370_000, 2)],
    )
}

#[test]
fn levels_in_figures() {
    assert_eq!(
        PriceLevel::from_level(&level(21_350_000, 4_000_000_000), 9),
        PriceLevel { price: dec(21_350_000, 6), size: dec(4_000_000_000, 9) }
    );
}

#[test]
fn books_in_figures() {
    let symbol = "SOL-PERP".to_string();
    match OrderBookEvent::from_book(&full_book(), &symbol, 9) {
        Some(event) => {
            assert_eq!(event.best_bid.price, dec(21_350_000, 6));
            assert_eq!(event.best_bid.size, dec(4_000_000_000, 9));
            assert_eq!(event.best_ask.price, dec(21_360_000, 6));
            assert_eq!(event.best_ask.size, dec(-5, 9));
            assert_eq!(event.symbol, "SOL-PERP");
            assert_eq!(event.slot, 77);
        }
        None => panic!("no event"),
    }
    assert!(OrderBookEvent::from_book(&book(vec![], vec![level(1, 1)]), &symbol, 29).is_none());
    assert!(OrderBookEvent::from_book(&book(vec![level(1, 1)], vec![]), &symbol, 9).is_none());
}

#[test]
fn book_feed_sends_and_reconnects() {
    let mut feed = feed();
    assert_eq!(feed.decimals, 9);
    assert!(connects(feed.step(BookFeedEvent::Start)));
    assert!(matches!(feed.step(BookFeedEvent::Connected), BookFeedAction::Wait));
    match feed.step(BookFeedEvent::Book(full_book())) {
        BookFeedAction::Send(event) => {
            assert_eq!(event.channel, Channel::OrderBook);
            assert_eq!(event.sub_account_id, None);
            assert_eq!(event.data.best_bid.price, dec(21_350_000, 6));
        }
        other => panic!("{:?}", other),
    }
    assert!(matches!(feed.step(BookFeedEvent::Sent), BookFeedAction::Wait));
    let empty = book(vec![], vec![]);
    assert!(matches!(feed.step(BookFeedEvent::Book(empty)), BookFeedAction::Wait));
    assert!(connects(feed.step(BookFeedEvent::BookFailed)));
    assert!(matches!(feed.step(BookFeedEvent::Connected), BookFeedAction::Wait));
    assert!(connects(feed.step(BookFeedEvent::StreamEnded)));
    assert_eq!(feed.phase, BookFeedPhase::Connecting);
}

#[test]
fn book_feed_ends_when_the_client_is_gone() {
    let mut feed = feed();
    feed.step(BookFeedEvent::Start);
    feed.step(BookFeedEvent::Connected);
    feed.step(BookFeedEvent::Book(full_book()));
    assert!(matches!(feed.step(BookFeedEvent::SendFailed), BookFeedAction::End));
    assert_eq!(feed.phase, BookFeedPhase::Ended);
}

#[test]
fn book_feed_reports_a_failed_connection_and_ends() {
    for last in [BookFeedEvent::Sent, BookFeedEvent::SendFailed] {
        let mut feed = feed();
        feed.step(BookFeedEvent::Start);
        match feed.step(BookFeedEvent::ConnectFailed("refused".to_string())) {
            BookFeedAction::Report(reply) => {
                assert_eq!(reply.error, "couldn't subscribe to SOL-PERP orderbook");
                assert_eq!(reply.reason, "refused");
            }
            other => panic!("{:?}", other),
        }
        assert_eq!(feed.phase, BookFeedPhase::Reporting);
        assert!(matches!(feed.step(last), BookFeedAction::End));
        assert_eq!(feed.phase, BookFeedPhase::Ended);
    }
}

#[test]
fn names_are_sent_in_lower_case() {
    let mut feed = feed();
    feed.symbol = "1M\u{c9}-Perp".to_string();
    match feed.step(BookFeedEvent::Start) {
        BookFeedAction::Connect(name) => assert_eq!(name, "1m\u{e9}-perp"),
        other => panic!("{:?}", other),
    }
}

fn fill(maker: &str) -> AccountFeedEvent {
    AccountFeedEvent::Update(DriftEvent::OrderFill {
        maker: Some(Pubkey { text: maker.to_string() }),
        maker_fee: 0,
        maker_order_id: 1,
        maker_side: None,
        taker: None,
        taker_fee: 0,
        taker_order_id: 2,
        taker_side: None,
        base_asset_amount_filled: 1,
        quote_asset_amount_filled: 1,
        oracle_price: 1,
        market_index: 0,
        market_type: MarketType::Perp,
        signature: String::new(),
        tx_idx: 0,
        ts: 0,
    })
}

#[test]
fn account_feed_sends_what_the_account_is_told() {
    let feed = AccountFeed { sub_account_id: 6, address: Pubkey { text: "me".to_string() } };
    let update = AccountFeedEvent::Update(DriftEvent::OrderCancelMissing {
        user_order_id: 1,
        order_id: 2,
        signature: "s".to_string(),
    });
    match feed.step(&program_data(), &update) {
        Some(AccountFeedAction::Send(event)) => {
            assert_eq!(event.channel, Channel::Orders);
            assert_eq!(event.sub_account_id, Some(6));
            assert!(matches!(event.data, AccountEvent::OrderCancelMissing { order_id: 2, .. }));
        }
        other => panic!("{:?}", other),
    }
    let data = program_data();
    assert!(matches!(feed.step(&data, &fill("other")), Some(AccountFeedAction::Wait)));
    assert!(feed.step(&data, &fill("me")).is_none());
    let step = |event: AccountFeedEvent| feed.step(&data, &event);
    assert!(matches!(step(AccountFeedEvent::Sent), Some(AccountFeedAction::Wait)));
    assert!(matches!(step(AccountFeedEvent::SendFailed), Some(AccountFeedAction::End)));
    assert!(matches!(step(AccountFeedEvent::StreamEnded), Some(AccountFeedAction::End)));
}
