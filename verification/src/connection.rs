//! One client's connection: what each message from it leads to, and how the
//! messages to it are written.
use vstd::prelude::*;

use crate::exchange::{Market, MarketType};
use crate::reply::ErrorReply;
use crate::subscription::{Method, Subscriptions, Topic, WsRequest, WsSubscription};

verus! {

/// What comes from a client.
#[derive(Debug)]
pub enum Inbound {
    /// A text that is a request.
    Request(WsRequest),
    /// A text that is no request, and why.
    Malformed(String),
    /// The client closes the connection.
    Close,
    /// A message of another kind.
    Other,
    /// The connection is gone or broken.
    Gone,
}

/// What is to be done about it.
#[derive(Debug)]
pub enum Action<T> {
    /// Send the reply.
    Reply(ErrorReply),
    /// Start the feed of a sub-account and enter its task.
    StartAccount { subscription: WsSubscription, sub_account_id: u8 },
    /// Start the feed of a market's order book and enter its task.
    StartOrderBook { subscription: WsSubscription, market: Market, symbol: String },
    /// Abort the task, if there is one.
    Stop(Option<T>),
    /// Send the close on to the client, then leave the connection.
    Close,
    /// Nothing.
    Ignore,
    /// Leave the connection.
    Leave,
}

impl Inbound {
    /// The message asks for `subscription` under `method`.
    pub open spec fn asks(self, method: Method, subscription: WsSubscription) -> bool {
        self == Inbound::Request(WsRequest { method, subscription })
    }

    /// What runs once the message is dealt with, `tasks` being what ran before:
    /// a message starts nothing of itself, and ends only what it unsubscribes.
    pub open spec fn tasks_after<T>(
        self,
        tasks: Map<Topic, T>,
    ) -> Map<Topic, T> {
        match self {
            Inbound::Request(WsRequest { method: Method::Unsubscribe, subscription }) => {
                tasks.remove(subscription@)
            },
            _ => tasks,
        }
    }

    /// `action` is what the message leads to where `tasks` run.
    pub open spec fn leads_to<T>(
        self,
        tasks: Map<Topic, T>,
        action: Action<T>,
    ) -> bool {
        match self {
            Inbound::Request(WsRequest { method: Method::Subscribe, subscription }) => {
                if tasks.contains_key(subscription@) {
                    action matches Action::Reply(reply) && reply.says(
                        "bad request"@,
                        "subscription already exists"@,
                    )
                } else {
                    match subscription {
                        WsSubscription::SubAccount { sub_account_id } => {
                            action == Action::<T>::StartAccount { subscription, sub_account_id }
                        },
                        WsSubscription::OrderBook { market_index, market_type, symbol } => {
                            action == Action::<T>::StartOrderBook {
                                subscription,
                                market: Market {
                                    market_index,
                                    market_type: market_type.market_type(),
                                },
                                symbol,
                            }
                        },
                    }
                }
            },
            Inbound::Request(WsRequest { method: Method::Unsubscribe, subscription }) => {
                action == Action::Stop(tasks.get(subscription@))
            },
            Inbound::Malformed(reason) => action matches Action::Reply(reply) && reply.says(
                "bad request"@,
                reason@,
            ),
            Inbound::Close => action is Close,
            Inbound::Other => action is Ignore,
            Inbound::Gone => action is Leave,
        }
    }
}

/// Deal with a message from a client.
pub fn handle_inbound<T>(
    subscriptions: &mut Subscriptions<T>,
    message: Inbound,
) -> (action: Action<T>)
    requires
        old(subscriptions).wf(),
    ensures
        final(subscriptions).wf(),
        final(subscriptions)@ == message.tasks_after(old(subscriptions)@),
        message.leads_to(old(subscriptions)@, action),
{
    match message {
        Inbound::Request(request) => handle_request(subscriptions, request),
        Inbound::Malformed(reason) => Action::Reply(ErrorReply::bad_request(reason)),
        Inbound::Close => Action::Close,
        Inbound::Other => Action::Ignore,
        Inbound::Gone => Action::Leave,
    }
}

/// Deal with a request.
pub fn handle_request<T>(
    subscriptions: &mut Subscriptions<T>,
    request: WsRequest,
) -> (action: Action<T>)
    requires
        old(subscriptions).wf(),
    ensures
        final(subscriptions).wf(),
        final(subscriptions)@ == Inbound::Request(request).tasks_after(old(subscriptions)@),
        Inbound::Request(request).leads_to(old(subscriptions)@, action),
{
    let subscription = request.subscription;
    match request.method {
        Method::Subscribe => {
            if subscriptions.contains_key(&subscription) {
                return Action::Reply(ErrorReply::already_subscribed());
            }
            let copy = subscription.clone();
            match copy {
                WsSubscription::SubAccount { sub_account_id } => Action::StartAccount {
                    subscription,
                    sub_account_id,
                },
                WsSubscription::OrderBook { market_index, market_type, symbol } => {
                    let market_type: MarketType = MarketType::from(market_type);
                    Action::StartOrderBook {
                        subscription,
                        market: Market::new(market_index, market_type),
                        symbol,
                    }
                },
            }
        },
        Method::Unsubscribe => Action::Stop(subscriptions.remove(&subscription)),
    }
}

/// What happens to the side of a connection that writes to the client.
#[derive(Clone, Copy, Debug, PartialEq, Eq, Structural)]
pub enum WriterEvent {
    /// There is a message to write, a close or another.
    Message { is_close: bool },
    /// The message was written.
    Written,
    /// The message could not be written.
    WriteFailed,
    /// There will be no more messages.
    NoMore,
}

#[derive(Clone, Copy, Debug, PartialEq, Eq, Structural)]
pub enum WriterAction {
    /// Wait for the next message.
    Wait,
    /// Write the message.
    Write,
    /// Close the connection and stop.
    CloseAndStop,
    /// Stop.
    Stop,
}

/// What the writing side does next: it writes message after message until one
/// is a close, one cannot be written, or there are no more.
pub fn writer_step(event: WriterEvent) -> (action: WriterAction)
    ensures
        action is Write <==> event == (WriterEvent::Message { is_close: false }),
        action is CloseAndStop <==> event == (WriterEvent::Message { is_close: true }),
        action is Wait <==> event is Written,
        action is Stop <==> event is WriteFailed || event is NoMore,
{
    match event {
        WriterEvent::Message { is_close } => if is_close {
            WriterAction::CloseAndStop
        } else {
            WriterAction::Write
        },
        WriterEvent::Written => WriterAction::Wait,
        WriterEvent::WriteFailed => WriterAction::Stop,
        WriterEvent::NoMore => WriterAction::Stop,
    }
}

/// While a task runs for a subscription, asking for it again is refused, and
/// the task runs on.
pub proof fn second_subscription_is_refused<T>(
    message: Inbound,
    subscription: WsSubscription,
    tasks: Map<Topic, T>,
    action: Action<T>,
)
    requires
        message.asks(Method::Subscribe, subscription),
        tasks.contains_key(subscription@),
        message.leads_to(tasks, action),
    ensures
        action matches Action::Reply(reply) && reply.says(
            "bad request"@,
            "subscription already exists"@,
        ),
        message.tasks_after(tasks) == tasks,
{
}

/// Unsubscribing undoes subscribing: it stops the task that was entered for the
/// subscription and leaves what ran before.
pub proof fn unsubscribing_undoes_subscribing<T>(
    message: Inbound,
    subscription: WsSubscription,
    tasks: Map<Topic, T>,
    task: T,
    action: Action<T>,
)
    requires
        message.asks(Method::Unsubscribe, subscription),
        !tasks.contains_key(subscription@),
        message.leads_to(tasks.insert(subscription@, task), action),
    ensures
        action == Action::Stop(Some(task)),
        message.tasks_after(tasks.insert(subscription@, task)) == tasks,
{
    assert(tasks.insert(subscription@, task).remove(subscription@) =~= tasks);
}

/// Unsubscribing from what does not run changes nothing and stops nothing.
pub proof fn unsubscribing_from_nothing<T>(
    message: Inbound,
    subscription: WsSubscription,
    tasks: Map<Topic, T>,
    action: Action<T>,
)
    requires
        message.asks(Method::Unsubscribe, subscription),
        !tasks.contains_key(subscription@),
        message.leads_to(tasks, action),
    ensures
        action == Action::<T>::Stop(None),
        message.tasks_after(tasks) == tasks,
{
    assert(tasks.remove(subscription@) =~= tasks);
}

/// After unsubscribing, the same subscription can be had again.
pub proof fn unsubscribed_can_subscribe_again<T>(
    leave: Inbound,
    join: Inbound,
    subscription: WsSubscription,
    tasks: Map<Topic, T>,
    action: Action<T>,
)
    requires
        leave.asks(Method::Unsubscribe, subscription),
        join.asks(Method::Subscribe, subscription),
        join.leads_to(leave.tasks_after(tasks), action),
    ensures
        action is StartAccount || action is StartOrderBook,
{
}

/// No message touches a subscription other than the one it names.
pub proof fn other_subscriptions_run_on<T>(
    message: Inbound,
    tasks: Map<Topic, T>,
    topic: Topic,
)
    requires
        message matches Inbound::Request(request) ==> request.subscription@ != topic,
    ensures
        message.tasks_after(tasks).get(topic) == tasks.get(topic),
{
}

/// A task is started only for a subscription that has none, and none comes up
/// while the task is being started (tasks can only end meanwhile): entering the
/// task replaces nothing.
pub proof fn started_task_replaces_none<T>(
    message: Inbound,
    tasks: Map<Topic, T>,
    action: Action<T>,
    meanwhile: Map<Topic, T>,
)
    requires
        message.leads_to(tasks, action),
        action is StartAccount || action is StartOrderBook,
        meanwhile.submap_of(message.tasks_after(tasks)),
    ensures
        message matches Inbound::Request(request) && request.method is Subscribe && (match action {
            Action::StartAccount { subscription, .. } => subscription == request.subscription,
            Action::StartOrderBook { subscription, .. } => subscription == request.subscription,
            _ => false,
        }) && !meanwhile.contains_key(request.subscription@),
{
    let topic = message->Request_0.subscription@;
    assert(meanwhile.dom().contains(topic) ==> tasks.dom().contains(topic));
}

/// Feeds are started as they were asked for. A feed is started if and only if a
/// client subscribes to what does not run, and it is that of the sub-account or
/// the market that the subscription names: the market has the index and the type
/// that were written, and the symbol is the one that was written.
pub proof fn feeds_are_started_as_asked<T>(
    message: Inbound,
    tasks: Map<Topic, T>,
    action: Action<T>,
)
    requires
        message.leads_to(tasks, action),
    ensures
        action is StartAccount <==> (message matches Inbound::Request(request)
            && request.method is Subscribe && request.subscription is SubAccount
            && !tasks.contains_key(request.subscription@)),
        action is StartOrderBook <==> (message matches Inbound::Request(request)
            && request.method is Subscribe && request.subscription is OrderBook
            && !tasks.contains_key(request.subscription@)),
        message matches Inbound::Request(request) ==> {
            let asked = request.subscription;
            &&& action matches Action::StartAccount { subscription, sub_account_id } ==> {
                &&& subscription@ == asked@
                &&& sub_account_id == asked->sub_account_id
            }
            &&& action matches Action::StartOrderBook { subscription, market, symbol } ==> {
                &&& subscription@ == asked@
                &&& market.market_index == asked->market_index
                &&& market.market_type is Perp <==> asked->market_type is Perp
                &&& market.market_type is Spot <==> asked->market_type is Spot
                &&& symbol@ == asked->symbol@
            }
        },
{
}

/// What a message leads to if it starts no feed. Unsubscribing stops the task that
/// runs for the subscription, if one does. A client is answered, with "bad
/// request", if and only if its text is no request, and told why, or it
/// subscribes to what runs already. The connection is closed when the client
/// closes it and left when it is gone; other messages are passed over.
pub proof fn messages_lead_to_their_answers<T>(
    message: Inbound,
    tasks: Map<Topic, T>,
    action: Action<T>,
)
    requires
        message.leads_to(tasks, action),
    ensures
        action is Stop <==> (message matches Inbound::Request(request)
            && request.method is Unsubscribe),
        action matches Action::Stop(task) ==> {
            let topic = message->Request_0.subscription@;
            &&& task is Some <==> tasks.contains_key(topic)
            &&& task matches Some(stopped) ==> stopped == tasks[topic]
        },
        action is Reply <==> message is Malformed || (message matches Inbound::Request(request)
            && request.method is Subscribe && tasks.contains_key(request.subscription@)),
        action matches Action::Reply(reply) ==> {
            &&& reply.error@ == "bad request"@
            &&& message matches Inbound::Malformed(reason) ==> reply.reason@ == reason@
            &&& message is Request ==> reply.reason@ == "subscription already exists"@
        },
        action is Close <==> message is Close,
        action is Ignore <==> message is Other,
        action is Leave <==> message is Gone,
{
}

/// A message strikes out what it unsubscribes from and nothing else, and enters
/// nothing.
pub proof fn only_unsubscribing_strikes_out<T>(
    message: Inbound,
    tasks: Map<Topic, T>,
    topic: Topic,
)
    ensures
        message.tasks_after(tasks).contains_key(topic) <==> tasks.contains_key(topic) && !(
        message matches Inbound::Request(request) && request.method is Unsubscribe
            && request.subscription@ == topic),
        message.tasks_after(tasks).contains_key(topic) ==> message.tasks_after(tasks)[topic]
            == tasks[topic],
{
}

} // verus!
