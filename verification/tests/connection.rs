use drift_ws::connection::{
    handle_inbound, handle_request, writer_step, Action, Inbound, WriterAction, WriterEvent,
};
use drift_ws::exchange::{Market, MarketType};
use drift_ws::reply::ErrorReply;
use drift_ws::subscription::{Method, MarketTypeSerde, Subscriptions, WsRequest, WsSubscription};

fn account(sub_account_id: u8) -> WsSubscription {
    WsSubscription::SubAccount { sub_account_id }
}

fn book(market_index: u16, market_type: MarketTypeSerde, symbol: &str) -> WsSubscription {
    WsSubscription::OrderBook { market_index, market_type, symbol: symbol.to_string() }
}

fn subscribe(subscription: WsSubscription) -> Inbound {
    Inbound::Request(WsRequest { method: Method::Subscribe, subscription })
}

fn unsubscribe(subscription: WsSubscription) -> Inbound {
    Inbound::Request(WsRequest { method: Method::Unsubscribe, subscription })
}

fn is_reply(action: Action<u32>, error: &str, reason: &str) -> bool {
    match action {
        Action::Reply(reply) => reply.error == error && reply.reason == reason,
        _ => false,
    }
}

#[test]
fn subscriptions_are_started_once() {
    let mut subs: Subscriptions<u32> = Subscriptions::new();
    match handle_inbound(&mut subs, subscribe(account(3))) {
        Action::StartAccount { subscription, sub_account_id } => {
            assert_eq!(sub_account_id, 3);
            assert_eq!(subscription, account(3));
            assert_eq!(subs.insert(subscription, 100), None);
        }
        other => panic!("{:?}", other),
    }
    let again = handle_inbound(&mut subs, subscribe(account(3)));
    assert!(is_reply(again, "bad request", "subscription already exists"));
    assert!(subs.contains_key(&account(3)));
    assert!(matches!(
        handle_inbound(&mut subs, subscribe(account(4))),
        Action::StartAccount { sub_account_id: 4, .. }
    ));
}

#[test]
fn order_books_are_started() {
    let mut subs: Subscriptions<u32> = Subscriptions::new();
    let asked = book(2, MarketTypeSerde::Spot, "SOL");
    match handle_request(
        &mut subs,
        WsRequest { method: Method::Subscribe, subscription: asked.clone() },
    ) {
        Action::StartOrderBook { subscription, market, symbol } => {
            assert_eq!(subscription, asked);
            assert_eq!(market, Market { market_index: 2, market_type: MarketType::Spot });
            assert_eq!(symbol, "SOL");
            subs.insert(subscription, 1);
        }
        other => panic!("{:?}", other),
    }
    // the symbol and the market type are part of what is subscribed to
    assert!(!subs.contains_key(&book(2, MarketTypeSerde::Perp, "SOL")));
    assert!(!subs.contains_key(&book(2, MarketTypeSerde::Spot, "sol")));
    assert!(!subs.contains_key(&book(1, MarketTypeSerde::Spot, "SOL")));
    assert!(subs.contains_key(&asked));
}

#[test]
fn unsubscribing_stops_the_task() {
    let mut subs: Subscriptions<u32> = Subscriptions::new();
    for id in 0..5 {
        subs.insert(account(id), 10 + id as u32);
    }
    assert!(matches!(
        handle_inbound(&mut subs, unsubscribe(account(1))),
        Action::Stop(Some(11))
    ));
    assert!(matches!(handle_inbound(&mut subs, unsubscribe(account(1))), Action::Stop(None)));
    for id in [0, 2, 3, 4] {
        assert!(subs.contains_key(&account(id)));
    }
    assert!(matches!(
        handle_inbound(&mut subs, subscribe(account(1))),
        Action::StartAccount { sub_account_id: 1, .. }
    ));
}

#[test]
fn tasks_are_entered_and_struck_out() {
    let mut subs: Subscriptions<u32> = Subscriptions::new();
    assert_eq!(subs.remove(&account(0)), None);
    assert_eq!(subs.insert(account(0), 1), None);
    assert_eq!(subs.insert(account(1), 2), None);
    assert_eq!(subs.insert(account(0), 3), Some(1));
    assert_eq!(subs.remove(&account(0)), Some(3));
    assert_eq!(subs.remove(&account(0)), None);
    assert_eq!(subs.remove(&account(1)), Some(2));
}

#[test]
fn other_messages() {
    let mut subs: Subscriptions<u32> = Subscriptions::new();
    subs.insert(account(0), 1);
    let action = handle_inbound(&mut subs, Inbound::Malformed("expected value".to_string()));
    assert!(is_reply(action, "bad request", "expected value"));
    assert!(matches!(handle_inbound(&mut subs, Inbound::Close), Action::Close));
    assert!(matches!(handle_inbound(&mut subs, Inbound::Other), Action::Ignore));
    assert!(matches!(handle_inbound(&mut subs, Inbound::Gone), Action::Leave));
    assert!(subs.contains_key(&account(0)));
}

#[test]
fn market_types_as_clients_write_them() {
    assert_eq!(MarketType::from(MarketTypeSerde::Perp), MarketType::Perp);
    assert_eq!(MarketType::from(MarketTypeSerde::Spot), MarketType::Spot);
}

#[test]
fn writing_ends_with_a_close_or_a_failure() {
    assert_eq!(writer_step(WriterEvent::Message { is_close: false }), WriterAction::Write);
    assert_eq!(writer_step(WriterEvent::Message { is_close: true }), WriterAction::CloseAndStop);
    assert_eq!(writer_step(WriterEvent::Written), WriterAction::Wait);
    assert_eq!(writer_step(WriterEvent::WriteFailed), WriterAction::Stop);
    assert_eq!(writer_step(WriterEvent::NoMore), WriterAction::Stop);
}

#[test]
fn replies_as_text() {
    assert_eq!(
        ErrorReply::already_subscribed().to_json(),
        r#"{"error":"bad request","reason":"subscription already exists"}"#
    );
    assert_eq!(
        ErrorReply::no_order_book(&"SOL-PERP".to_string(), "gone".to_string()).to_json(),
        r#"{"error":"couldn't subscribe to SOL-PERP orderbook","reason":"gone"}"#
    );
}

#[test]
fn replies_escape_their_reason() {
    let reason = "a\"b\\c\u{8}\t\n\u{c}\r\u{1}\u{1f}\u{7f}\u{e9}\u{1f600}/".to_string();
    assert_eq!(
        ErrorReply::bad_request(reason).to_json(),
        "{\"error\":\"bad request\",\"reason\":\"a\\\"b\\\\c\\b\\t\\n\\f\\r\\u0001\\u001f\u{7f}\u{e9}\u{1f600}/\"}"
    );
}

#[test]
fn replies_that_differ_have_texts_that_differ() {
    let a = ErrorReply::bad_request("x\",\"reason\":\"y".to_string()).to_json();
    let b = ErrorReply::bad_request("x\\\",\\\"reason\\\":\\\"y".to_string()).to_json();
    assert_ne!(a, b);
}
