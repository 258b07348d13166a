//! The feeds that run for a client's subscriptions: the events of a sub-account
//! and the order book of a market.
use vstd::prelude::*;

use crate::account_event::{try_map_drift_event_for_account, AccountEvent, Channel};
use crate::decimal::{Decimal, MAX_SCALE};
use crate::exchange::{
    get_market_decimals, DriftEvent, L2Level, L2Orderbook, Market, ProgramData, Pubkey,
    PRICE_DECIMALS,
};
use crate::reply::ErrorReply;

verus! {

/// An event as it goes to a client.
#[derive(Debug)]
pub struct WsEvent<T> {
    pub data: T,
    pub channel: Channel,
    pub sub_account_id: Option<u8>,
}

/// A level of an order book in the figures that clients read.
#[derive(Clone, Copy, Debug, PartialEq, Eq, Structural)]
pub struct PriceLevel {
    pub price: Decimal,
    pub size: Decimal,
}

/// The best levels of an order book.
#[derive(Debug)]
pub struct OrderBookEvent {
    pub best_bid: PriceLevel,
    pub best_ask: PriceLevel,
    pub symbol: String,
    pub slot: u64,
}

impl PriceLevel {
    /// A level in figures: the price in `PRICE_DECIMALS` digits behind the
    /// point, the size in `decimals`.
    pub open spec fn of_level(level: L2Level, decimals: u32) -> PriceLevel {
        PriceLevel {
            price: Decimal { mantissa: level.price as i128, scale: PRICE_DECIMALS },
            size: Decimal { mantissa: level.size as i128, scale: decimals },
        }
    }

    /// The level in the figures of a market of `decimals`.
    pub fn from_level(level: &L2Level, decimals: u32) -> (result: PriceLevel)
        requires
            decimals <= MAX_SCALE,
        ensures
            result == PriceLevel::of_level(*level, decimals),
    {
        let price = Decimal::new(level.price, PRICE_DECIMALS);
        let size = Decimal::new(level.size, decimals);
        PriceLevel { price, size }
    }
}

impl OrderBookEvent {
    /// What is told of `book`: its best levels, where it has a bid and an ask.
    pub open spec fn of_book(book: L2Orderbook, symbol: String, decimals: u32) -> Option<
        OrderBookEvent,
    > {
        if book.bids@.len() > 0 && book.asks@.len() > 0 {
            Some(
                OrderBookEvent {
                    best_bid: PriceLevel::of_level(book.bids@[0], decimals),
                    best_ask: PriceLevel::of_level(book.asks@[0], decimals),
                    symbol,
                    slot: book.slot,
                },
            )
        } else {
            None
        }
    }

    /// What is told of `book`, in the figures of a market of `decimals`:
    /// nothing where it lacks bids or asks.
    pub fn from_book(book: &L2Orderbook, symbol: &String, decimals: u32) -> (event: Option<
        OrderBookEvent,
    >)
        requires
            book.bids@.len() > 0 ==> decimals <= MAX_SCALE,
        ensures
            event == OrderBookEvent::of_book(*book, *symbol, decimals),
    {
        if book.bids.len() == 0 {
            return None;
        }
        let best_bid = PriceLevel::from_level(&book.bids[0], decimals);
        if book.asks.len() == 0 {
            return None;
        }
        let best_ask = PriceLevel::from_level(&book.asks[0], decimals);
        Some(OrderBookEvent { best_bid, best_ask, symbol: symbol.clone(), slot: book.slot })
    }
}

/// What happens to an account's feed.
#[derive(Debug)]
pub enum AccountFeedEvent {
    /// The exchange reports an event.
    Update(DriftEvent),
    /// What was to be sent was sent.
    Sent,
    /// What was to be sent could not be.
    SendFailed,
    /// The exchange reports no more events.
    StreamEnded,
}

/// What an account's feed does next.
#[derive(Debug)]
pub enum AccountFeedAction {
    /// Wait for the next event of the exchange.
    Wait,
    /// Send the event to the client.
    Send(WsEvent<AccountEvent>),
    /// End, and strike out the subscription.
    End,
}

/// The feed of a sub-account's events.
#[derive(Debug)]
pub struct AccountFeed {
    pub sub_account_id: u8,
    pub address: Pubkey,
}

impl AccountFeed {
    /// What the feed does next: it sends on what the account is told of an
    /// event of the exchange, waits where that is nothing, and ends when
    /// nothing more can be sent or reported. `None` where an event cannot be put
    /// in figures for the account.
    pub open spec fn next(self, program_data: ProgramData, event: AccountFeedEvent) -> Option<
        AccountFeedAction,
    > {
        match event {
            AccountFeedEvent::Update(update) => if update.has_figures(program_data, self.address) {
                match update.for_account(program_data, self.address) {
                    Some(data) => Some(
                        AccountFeedAction::Send(
                            WsEvent {
                                data,
                                channel: update.channel(),
                                sub_account_id: Some(self.sub_account_id),
                            },
                        ),
                    ),
                    None => Some(AccountFeedAction::Wait),
                }
            } else {
                None
            },
            AccountFeedEvent::Sent => Some(AccountFeedAction::Wait),
            AccountFeedEvent::SendFailed => Some(AccountFeedAction::End),
            AccountFeedEvent::StreamEnded => Some(AccountFeedAction::End),
        }
    }

    /// What the feed does next, `None` where an event cannot be put in figures
    /// for the account.
    pub fn step(&self, program_data: &ProgramData, event: &AccountFeedEvent) -> (action: Option<
        AccountFeedAction,
    >)
        ensures
            action == self.next(*program_data, *event),
            (event matches AccountFeedEvent::Update(update) ==> update.is_complete(
                *program_data,
                self.address,
            ) && update.price_fits(*program_data, self.address)) ==> action is Some,
            action is Some ==> (event matches AccountFeedEvent::Update(update)
                ==> update.amounts_to_price(*program_data, self.address) matches Some(
                (base, quote, decimals),
            ) ==> crate::account_event::price_is_quote_per_base(base, quote, decimals)),
    {
        match event {
            AccountFeedEvent::Update(update) => {
                match try_map_drift_event_for_account(program_data, update, &self.address) {
                    Some((channel, Some(data))) => Some(
                        AccountFeedAction::Send(
                            WsEvent { data, channel, sub_account_id: Some(self.sub_account_id) },
                        ),
                    ),
                    Some((_, None)) => Some(AccountFeedAction::Wait),
                    None => None,
                }
            },
            AccountFeedEvent::Sent => Some(AccountFeedAction::Wait),
            AccountFeedEvent::SendFailed => Some(AccountFeedAction::End),
            AccountFeedEvent::StreamEnded => Some(AccountFeedAction::End),
        }
    }
}

/// A text in lower case.
pub uninterp spec fn lowercase(s: Seq<char>) -> Seq<char>;

/// `str::to_lowercase`: the lower case of a text, which depends on the text
/// alone.
#[verifier::external_body]
fn to_lowercase(s: &str) -> (result: String)
    ensures
        result@ == lowercase(s@),
{
    s.to_lowercase()
}

/// Where an order book's feed stands.
#[derive(Clone, Copy, Debug, PartialEq, Eq, Structural)]
pub enum BookFeedPhase {
    /// Not started.
    New,
    /// Connecting to the order book server.
    Connecting,
    /// Waiting for a book.
    Streaming,
    /// Sending what is told of a book.
    Sending,
    /// Telling the client that there is no connection.
    Reporting,
    /// Over.
    Ended,
}

/// What happens to an order book's feed.
#[derive(Debug)]
pub enum BookFeedEvent {
    Start,
    Connected,
    /// There is no connection, and why.
    ConnectFailed(String),
    Book(L2Orderbook),
    /// A book could not be received.
    BookFailed,
    /// There are no more books from this connection.
    StreamEnded,
    /// What was to be sent was sent.
    Sent,
    /// What was to be sent could not be.
    SendFailed,
}

/// What an order book's feed does next.
#[derive(Debug)]
pub enum BookFeedAction {
    /// Connect to the order book server for the market of that name.
    Connect(String),
    /// Wait for the next book.
    Wait,
    /// Send the event to the client.
    Send(WsEvent<OrderBookEvent>),
    /// Send the reply to the client.
    Report(ErrorReply),
    /// End, and strike out the subscription.
    End,
}

/// The feed of a market's order book.
#[derive(Debug)]
pub struct OrderBookFeed {
    pub symbol: String,
    pub decimals: u32,
    pub phase: BookFeedPhase,
}

impl BookFeedPhase {
    /// The event can happen in this phase.
    pub open spec fn admits(self, event: BookFeedEvent) -> bool {
        match event {
            BookFeedEvent::Start => self is New,
            BookFeedEvent::Connected => self is Connecting,
            BookFeedEvent::ConnectFailed(_) => self is Connecting,
            BookFeedEvent::Book(_) => self is Streaming,
            BookFeedEvent::BookFailed => self is Streaming,
            BookFeedEvent::StreamEnded => self is Streaming,
            BookFeedEvent::Sent => self is Sending || self is Reporting,
            BookFeedEvent::SendFailed => self is Sending || self is Reporting,
        }
    }

    /// The phase after an event. A broken or finished stream is connected anew;
    /// only a connection that fails and a client that is gone end the feed.
    pub open spec fn after(self, event: BookFeedEvent) -> BookFeedPhase {
        match event {
            BookFeedEvent::Start => BookFeedPhase::Connecting,
            BookFeedEvent::Connected => BookFeedPhase::Streaming,
            BookFeedEvent::ConnectFailed(_) => BookFeedPhase::Reporting,
            BookFeedEvent::Book(book) => if book.bids@.len() > 0 && book.asks@.len() > 0 {
                BookFeedPhase::Sending
            } else {
                BookFeedPhase::Streaming
            },
            BookFeedEvent::BookFailed => BookFeedPhase::Connecting,
            BookFeedEvent::StreamEnded => BookFeedPhase::Connecting,
            BookFeedEvent::Sent => if self is Sending {
                BookFeedPhase::Streaming
            } else {
                BookFeedPhase::Ended
            },
            BookFeedEvent::SendFailed => BookFeedPhase::Ended,
        }
    }
}

impl OrderBookFeed {
    /// `action` is what the feed does about `event`: it connects while there is
    /// no connection, sends on what is told of a book, reports why there is no
    /// connection, waits where there is nothing to tell, and ends when its phase
    /// does.
    pub open spec fn leads_to(self, event: BookFeedEvent, action: BookFeedAction) -> bool {
        match self.phase.after(event) {
            BookFeedPhase::Connecting => action matches BookFeedAction::Connect(name) && name@
                == lowercase(self.symbol@),
            BookFeedPhase::Reporting => event matches BookFeedEvent::ConnectFailed(reason)
                && action matches BookFeedAction::Report(reply) && reply.says(
                "couldn't subscribe to "@ + self.symbol@ + " orderbook"@,
                reason@,
            ),
            BookFeedPhase::Sending => event matches BookFeedEvent::Book(book)
                && OrderBookEvent::of_book(book, self.symbol, self.decimals) matches Some(data)
                && action == BookFeedAction::Send(
                WsEvent { data, channel: Channel::OrderBook, sub_account_id: None },
            ),
            BookFeedPhase::Streaming => action is Wait,
            BookFeedPhase::Ended => action is End,
            BookFeedPhase::New => false,
        }
    }

    /// The feed of `market`, not started.
    pub fn new(program_data: &ProgramData, market: Market, symbol: String) -> (feed: OrderBookFeed)
        requires
            program_data.decimals(market) is Some,
        ensures
            feed.symbol == symbol,
            Some(feed.decimals) == program_data.decimals(market),
            feed.phase is New,
    {
        let decimals = get_market_decimals(program_data, market);
        OrderBookFeed { symbol, decimals, phase: BookFeedPhase::New }
    }

    /// What the feed does next.
    pub fn step(&mut self, event: BookFeedEvent) -> (action: BookFeedAction)
        requires
            old(self).phase.admits(event),
            event matches BookFeedEvent::Book(book) ==> book.bids@.len() > 0 ==> old(self).decimals
                <= MAX_SCALE,
        ensures
            final(self).symbol == old(self).symbol,
            final(self).decimals == old(self).decimals,
            final(self).phase == old(self).phase.after(event),
            old(self).leads_to(event, action),
    {
        match event {
            BookFeedEvent::Start | BookFeedEvent::BookFailed | BookFeedEvent::StreamEnded => {
                self.phase = BookFeedPhase::Connecting;
                BookFeedAction::Connect(to_lowercase(self.symbol.as_str()))
            },
            BookFeedEvent::Connected => {
                self.phase = BookFeedPhase::Streaming;
                BookFeedAction::Wait
            },
            BookFeedEvent::ConnectFailed(reason) => {
                self.phase = BookFeedPhase::Reporting;
                BookFeedAction::Report(ErrorReply::no_order_book(&self.symbol, reason))
            },
            BookFeedEvent::Book(book) => {
                match OrderBookEvent::from_book(&book, &self.symbol, self.decimals) {
                    Some(data) => {
                        self.phase = BookFeedPhase::Sending;
                        BookFeedAction::Send(
                            WsEvent { data, channel: Channel::OrderBook, sub_account_id: None },
                        )
                    },
                    None => BookFeedAction::Wait,
                }
            },
            BookFeedEvent::Sent => {
                if self.phase == BookFeedPhase::Sending {
                    self.phase = BookFeedPhase::Streaming;
                    BookFeedAction::Wait
                } else {
                    self.phase = BookFeedPhase::Ended;
                    BookFeedAction::End
                }
            },
            BookFeedEvent::SendFailed => {
                self.phase = BookFeedPhase::Ended;
                BookFeedAction::End
            },
        }
    }
}

impl BookFeedPhase {
    /// The phase of a new feed after `events`.
    pub open spec fn after_all(events: Seq<BookFeedEvent>) -> BookFeedPhase
        decreases events.len(),
    {
        if events.len() == 0 {
            BookFeedPhase::New
        } else {
            BookFeedPhase::after_all(events.drop_last()).after(events.last())
        }
    }

    /// `events` can happen to a new feed one after the other.
    pub open spec fn admits_all(events: Seq<BookFeedEvent>) -> bool
        decreases events.len(),
    {
        events.len() > 0 ==> {
            &&& BookFeedPhase::admits_all(events.drop_last())
            &&& BookFeedPhase::after_all(events.drop_last()).admits(events.last())
        }
    }
}

/// However long it runs, an order book's feed does not end as long as every
/// connection succeeds and all that is sent gets through: streams that break or
/// finish do not end it.
pub proof fn book_feed_outlives_its_streams(events: Seq<BookFeedEvent>)
    requires
        BookFeedPhase::admits_all(events),
        forall|i: int|
            0 <= i < events.len() ==> !((#[trigger] events[i]) is ConnectFailed)
                && !(events[i] is SendFailed),
    ensures
        !(BookFeedPhase::after_all(events) is Ended),
        !(BookFeedPhase::after_all(events) is Reporting),
    decreases events.len(),
{
    if events.len() > 0 {
        let before = events.drop_last();
        assert forall|i: int| 0 <= i < before.len() implies !((#[trigger] before[i])
            is ConnectFailed) && !(before[i] is SendFailed) by {
            assert(before[i] == events[i]);
        }
        book_feed_outlives_its_streams(before);
        assert(events.last() == events[events.len() - 1]);
    }
}

/// Nothing happens to a feed that has ended.
pub proof fn ended_book_feed_is_over(event: BookFeedEvent)
    ensures
        !BookFeedPhase::Ended.admits(event),
{
}

/// A feed that loses its stream asks for the connection it asked for at first.
pub proof fn lost_stream_is_connected_anew(
    feed: OrderBookFeed,
    event: BookFeedEvent,
    action: BookFeedAction,
)
    requires
        event is BookFailed || event is StreamEnded,
        feed.leads_to(event, action),
    ensures
        action matches BookFeedAction::Connect(name) && name@ == lowercase(feed.symbol@),
{
}

/// A client is told of a book if and only if the book has a bid and an ask, and
/// what it is told has the values of the first of each.
pub proof fn books_are_told_by_their_best_levels(
    feed: OrderBookFeed,
    book: L2Orderbook,
    action: BookFeedAction,
)
    requires
        feed.leads_to(BookFeedEvent::Book(book), action),
    ensures
        action is Send <==> book.bids@.len() > 0 && book.asks@.len() > 0,
        action matches BookFeedAction::Send(event) ==> {
            &&& event.data.best_bid == PriceLevel::of_level(book.bids@[0], feed.decimals)
            &&& event.data.best_ask == PriceLevel::of_level(book.asks@[0], feed.decimals)
            &&& event.data.slot == book.slot
            &&& event.data.symbol == feed.symbol
            &&& event.sub_account_id is None
        },
        !(action is Send) ==> action is Wait,
{
}

/// An account's feed ends if and only if an event could not be sent or the
/// exchange reports no more, and what it sends bears the sub-account's id.
pub proof fn account_feed_ends_with_its_streams(
    feed: AccountFeed,
    program_data: ProgramData,
    event: AccountFeedEvent,
)
    ensures
        feed.next(program_data, event) == Some(AccountFeedAction::End) <==> event is SendFailed
            || event is StreamEnded,
        feed.next(program_data, event) matches Some(AccountFeedAction::Send(sent))
            ==> sent.sub_account_id == Some(feed.sub_account_id),
{
}

/// A level's price and size are told in the whole units that they have in the
/// book: the price with `PRICE_DECIMALS` of its digits behind the point, the size
/// with as many as its market's decimals.
pub proof fn level_keeps_its_units(level: L2Level, decimals: u32)
    ensures
        PriceLevel::of_level(level, decimals).price.mantissa == level.price,
        PriceLevel::of_level(level, decimals).price.scale == PRICE_DECIMALS,
        PriceLevel::of_level(level, decimals).size.mantissa == level.size,
        PriceLevel::of_level(level, decimals).size.scale == decimals,
        PriceLevel::of_level(level, decimals).price.stands_for(
            level.price as int,
            PRICE_DECIMALS as int,
        ),
        PriceLevel::of_level(level, decimals).size.stands_for(level.size as int, decimals as int),
{
}

/// There is something to tell of a book if and only if it has a bid and an ask:
/// the first of each, in whole units, with the book's slot and the symbol.
pub proof fn book_is_told_by_its_first_levels(book: L2Orderbook, symbol: String, decimals: u32)
    ensures
        OrderBookEvent::of_book(book, symbol, decimals) is Some <==> book.bids@.len() > 0
            && book.asks@.len() > 0,
        OrderBookEvent::of_book(book, symbol, decimals) matches Some(told) ==> {
            &&& told.best_bid.price.mantissa == book.bids@[0].price
            &&& told.best_bid.price.scale == PRICE_DECIMALS
            &&& told.best_bid.size.mantissa == book.bids@[0].size
            &&& told.best_bid.size.scale == decimals
            &&& told.best_ask.price.mantissa == book.asks@[0].price
            &&& told.best_ask.price.scale == PRICE_DECIMALS
            &&& told.best_ask.size.mantissa == book.asks@[0].size
            &&& told.best_ask.size.scale == decimals
            &&& told.symbol@ == symbol@
            &&& told.slot == book.slot
        },
{
}

/// The feed of a market tells sizes in the decimals that are listed for that
/// market, and tells them on the channel of order books, for no sub-account.
pub proof fn book_feed_goes_by_its_market(
    program_data: ProgramData,
    market: Market,
    feed: OrderBookFeed,
    book: L2Orderbook,
    action: BookFeedAction,
)
    requires
        program_data.decimals(market) == Some(feed.decimals),
        feed.leads_to(BookFeedEvent::Book(book), action),
    ensures
        action is Send <==> book.bids@.len() > 0 && book.asks@.len() > 0,
        action matches BookFeedAction::Send(sent) ==> {
            &&& sent.channel is OrderBook
            &&& sent.sub_account_id is None
            &&& sent.data.symbol@ == feed.symbol@
            &&& sent.data.slot == book.slot
            &&& sent.data.best_bid.price.stands_for(
                book.bids@[0].price as int,
                PRICE_DECIMALS as int,
            )
            &&& sent.data.best_bid.price.scale == PRICE_DECIMALS
            &&& sent.data.best_bid.size.mantissa == book.bids@[0].size
            &&& Some(sent.data.best_bid.size.scale) == program_data.decimals(market)
            &&& sent.data.best_ask.price.stands_for(
                book.asks@[0].price as int,
                PRICE_DECIMALS as int,
            )
            &&& sent.data.best_ask.price.scale == PRICE_DECIMALS
            &&& sent.data.best_ask.size.mantissa == book.asks@[0].size
            &&& Some(sent.data.best_ask.size.scale) == program_data.decimals(market)
        },
{
}

/// What can happen to an order book's feed: it is started once; a connection
/// that is being made comes about or fails; a stream gives a book, fails or
/// ends; what is being sent gets through or does not.
pub proof fn events_come_in_their_phase(phase: BookFeedPhase, event: BookFeedEvent)
    ensures
        phase is New ==> (phase.admits(event) <==> event is Start),
        phase is Connecting ==> (phase.admits(event) <==> event is Connected
            || event is ConnectFailed),
        phase is Streaming ==> (phase.admits(event) <==> event is Book || event is BookFailed
            || event is StreamEnded),
        phase is Sending || phase is Reporting ==> (phase.admits(event) <==> event is Sent
            || event is SendFailed),
        phase is Ended ==> !phase.admits(event),
{
}

/// What an order book's feed does about what happens to it. It connects, under
/// the lower case of its symbol, when it starts and when it has lost its stream;
/// it reports, once, why a connection failed; it sends what there is to tell of a
/// book; it ends after a report and when its client is gone; else it waits. Its
/// phase is that of what it does.
pub proof fn book_feed_answers_what_happens(
    feed: OrderBookFeed,
    event: BookFeedEvent,
    action: BookFeedAction,
)
    requires
        feed.phase.admits(event),
        feed.leads_to(event, action),
    ensures
        action is Connect <==> event is Start || event is BookFailed || event is StreamEnded,
        action matches BookFeedAction::Connect(name) ==> name@ == lowercase(feed.symbol@),
        action is Report <==> event is ConnectFailed,
        action matches BookFeedAction::Report(reply) ==> reply.error@ == "couldn't subscribe to "@
            + feed.symbol@ + " orderbook"@ && (event matches BookFeedEvent::ConnectFailed(reason)
            ==> reply.reason@ == reason@),
        action is Send <==> (event matches BookFeedEvent::Book(book) && book.bids@.len() > 0
            && book.asks@.len() > 0),
        action is End <==> event is SendFailed || (event is Sent && feed.phase is Reporting),
        feed.phase.after(event) is Connecting <==> action is Connect,
        feed.phase.after(event) is Reporting <==> action is Report,
        feed.phase.after(event) is Sending <==> action is Send,
        feed.phase.after(event) is Ended <==> action is End,
        feed.phase.after(event) is Streaming <==> action is Wait,
{
}

/// An account's feed sends on an event that can be put in figures if and only if
/// the account is told of it: a fill that it made or took, or anything else. What
/// it sends is what the account is told, on the channel of the event's kind and
/// under the sub-account's id. What the account is not told of is passed over.
pub proof fn account_feed_sends_what_is_told(
    feed: AccountFeed,
    program_data: ProgramData,
    update: DriftEvent,
)
    ensures
        feed.next(program_data, AccountFeedEvent::Update(update)) is Some <==> update.has_figures(
            program_data,
            feed.address,
        ),
        feed.next(program_data, AccountFeedEvent::Update(update)) matches Some(action) ==> {
            let made = update->OrderFill_maker matches Some(key) && key.text@
                == feed.address.text@;
            let took = update->OrderFill_taker matches Some(key) && key.text@
                == feed.address.text@;
            &&& action is Send <==> (update is OrderFill ==> made || took)
            &&& action is Wait <==> update is OrderFill && !made && !took
            &&& action matches AccountFeedAction::Send(sent) ==> {
                &&& update.for_account(program_data, feed.address) == Some(sent.data)
                &&& sent.channel is Fills <==> update is OrderFill
                &&& sent.channel is Funding <==> update is FundingPayment
                &&& sent.channel is Orders <==> !(update is OrderFill)
                    && !(update is FundingPayment)
                &&& sent.sub_account_id == Some(feed.sub_account_id)
            }
        },
{
}

/// An account's feed waits for the next event once one is sent, and ends when one
/// could not be sent or the exchange reports no more.
pub proof fn account_feed_goes_on_after_sending(feed: AccountFeed, program_data: ProgramData)
    ensures
        feed.next(program_data, AccountFeedEvent::Sent) matches Some(action) && action is Wait,
        feed.next(program_data, AccountFeedEvent::SendFailed) matches Some(action)
            && action is End,
        feed.next(program_data, AccountFeedEvent::StreamEnded) matches Some(action)
            && action is End,
{
}

} // verus!
