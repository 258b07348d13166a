//! What clients ask for, and the record of what runs for them.
use vstd::prelude::*;

use crate::exchange::MarketType;

verus! {

#[derive(Clone, Copy, Debug, PartialEq, Eq, Structural)]
pub enum Method {
    Subscribe,
    Unsubscribe,
}

/// The market type as clients write it.
#[derive(Clone, Copy, Debug, PartialEq, Eq, Structural)]
pub enum MarketTypeSerde {
    Perp,
    Spot,
}

impl MarketTypeSerde {
    /// The market type that is meant.
    pub open spec fn market_type(self) -> MarketType {
        match self {
            MarketTypeSerde::Perp => MarketType::Perp,
            MarketTypeSerde::Spot => MarketType::Spot,
        }
    }
}

impl From<MarketTypeSerde> for MarketType {
    fn from(value: MarketTypeSerde) -> (result: MarketType) {
        match value {
            MarketTypeSerde::Perp => MarketType::Perp,
            MarketTypeSerde::Spot => MarketType::Spot,
        }
    }
}

impl vstd::std_specs::convert::FromSpecImpl<MarketTypeSerde> for MarketType {
    open spec fn obeys_from_spec() -> bool {
        true
    }

    open spec fn from_spec(value: MarketTypeSerde) -> MarketType {
        value.market_type()
    }
}

/// What a client can be subscribed to.
#[derive(Debug)]
pub enum WsSubscription {
    SubAccount { sub_account_id: u8 },
    OrderBook { market_index: u16, market_type: MarketTypeSerde, symbol: String },
}

/// A subscription by its contents.
pub enum Topic {
    SubAccount { sub_account_id: u8 },
    OrderBook { market_index: u16, market_type: MarketTypeSerde, symbol: Seq<char> },
}

impl View for WsSubscription {
    type V = Topic;

    open spec fn view(&self) -> Topic {
        match *self {
            WsSubscription::SubAccount { sub_account_id } => Topic::SubAccount { sub_account_id },
            WsSubscription::OrderBook { market_index, market_type, symbol } => Topic::OrderBook {
                market_index,
                market_type,
                symbol: symbol@,
            },
        }
    }
}

/// A market type that clients write as perp is perp, and one that they write as
/// spot is spot.
pub proof fn market_types_are_as_written(written: MarketTypeSerde)
    ensures
        written.market_type() is Perp <==> written is Perp,
        written.market_type() is Spot <==> written is Spot,
{
}

/// Subscriptions are one if and only if they agree in all that they name: the
/// id of a sub-account; or the index, the type and the symbol of a market.
pub proof fn subscriptions_are_told_apart(a: WsSubscription, b: WsSubscription)
    ensures
        a is SubAccount && b is SubAccount ==> (a@ == b@ <==> a->sub_account_id
            == b->sub_account_id),
        a is OrderBook && b is OrderBook ==> (a@ == b@ <==> a->market_index == b->market_index
            && a->market_type == b->market_type && a->symbol@ == b->symbol@),
        a is SubAccount && b is OrderBook ==> a@ != b@,
{
}

impl PartialEq for WsSubscription {
    fn eq(&self, other: &WsSubscription) -> (result: bool) {
        match (self, other) {
            (
                WsSubscription::SubAccount { sub_account_id: a },
                WsSubscription::SubAccount { sub_account_id: b },
            ) => *a == *b,
            (
                WsSubscription::OrderBook { market_index: i, market_type: t, symbol: s },
                WsSubscription::OrderBook { market_index: j, market_type: u, symbol: r },
            ) => *i == *j && *t == *u && *s == *r,
            _ => false,
        }
    }
}

impl vstd::std_specs::cmp::PartialEqSpecImpl for WsSubscription {
    open spec fn obeys_eq_spec() -> bool {
        true
    }

    open spec fn eq_spec(&self, other: &WsSubscription) -> bool {
        self@ == other@
    }
}

impl Eq for WsSubscription {

}

impl Clone for WsSubscription {
    fn clone(&self) -> (result: WsSubscription)
        ensures
            result == *self,
    {
        match self {
            WsSubscription::SubAccount { sub_account_id } => WsSubscription::SubAccount {
                sub_account_id: *sub_account_id,
            },
            WsSubscription::OrderBook { market_index, market_type, symbol } =>
            WsSubscription::OrderBook {
                market_index: *market_index,
                market_type: *market_type,
                symbol: symbol.clone(),
            },
        }
    }
}

#[derive(Debug)]
pub struct WsRequest {
    pub method: Method,
    pub subscription: WsSubscription,
}

/// What runs for one client: at most one task for each subscription.
pub struct Subscriptions<T> {
    entries: Vec<(WsSubscription, T)>,
}

impl<T> View for Subscriptions<T> {
    type V = Map<Topic, T>;

    /// The task of each subscription.
    closed spec fn view(&self) -> Map<Topic, T> {
        Map::new(
            |topic: Topic| self.has(topic),
            |topic: Topic| self.entries@[self.index_of(topic)].1,
        )
    }
}

impl<T> Subscriptions<T> {
    spec fn is_index_of(&self, i: int, topic: Topic) -> bool {
        0 <= i < self.entries@.len() && self.entries@[i].0@ == topic
    }

    spec fn has(&self, topic: Topic) -> bool {
        exists|i: int| self.is_index_of(i, topic)
    }

    spec fn index_of(&self, topic: Topic) -> int {
        choose|i: int| self.is_index_of(i, topic)
    }

    /// No subscription is entered twice.
    pub closed spec fn wf(&self) -> bool {
        forall|i: int, j: int|
            0 <= i < j < self.entries@.len() ==> (#[trigger] self.entries@[i]).0@ != (
            #[trigger] self.entries@[j]).0@
    }

    proof fn lemma_index(&self, i: int)
        requires
            self.wf(),
            0 <= i < self.entries@.len(),
        ensures
            self@.contains_key(self.entries@[i].0@),
            self@[self.entries@[i].0@] == self.entries@[i].1,
    {
        let topic = self.entries@[i].0@;
        assert(self.is_index_of(i, topic));
        let j = self.index_of(topic);
        assert(self.is_index_of(j, topic));
        assert(i == j);
    }

    /// Nothing runs.
    pub fn new() -> (result: Self)
        ensures
            result.wf(),
            result@ == Map::<Topic, T>::empty(),
    {
        let result = Subscriptions { entries: Vec::new() };
        assert(result@ =~= Map::<Topic, T>::empty());
        result
    }

    fn position(&self, subscription: &WsSubscription) -> (result: Option<usize>)
        requires
            self.wf(),
        ensures
            match result {
                Some(i) => self.is_index_of(i as int, subscription@) && self@.contains_key(
                    subscription@,
                ) && self@[subscription@] == self.entries@[i as int].1,
                None => !self@.contains_key(subscription@),
            },
    {
        let mut i: usize = 0;
        while i < self.entries.len()
            invariant
                self.wf(),
                i <= self.entries@.len(),
                forall|j: int| 0 <= j < i ==> (#[trigger] self.entries@[j]).0@ != subscription@,
            decreases self.entries@.len() - i,
        {
            if self.entries[i].0 == *subscription {
                proof {
                    self.lemma_index(i as int);
                }
                return Some(i);
            }
            i += 1;
        }
        None
    }

    /// Whether a task runs for the subscription.
    pub fn contains_key(&self, subscription: &WsSubscription) -> (result: bool)
        requires
            self.wf(),
        ensures
            result == self@.contains_key(subscription@),
    {
        self.position(subscription).is_some()
    }

    /// Enter the task of a subscription; what ran for it before is handed back.
    pub fn insert(&mut self, subscription: WsSubscription, task: T) -> (before: Option<T>)
        requires
            old(self).wf(),
        ensures
            final(self).wf(),
            final(self)@ == old(self)@.insert(subscription@, task),
            before == old(self)@.get(subscription@),
    {
        let before = self.remove(&subscription);
        let ghost removed = *self;
        self.entries.push((subscription, task));
        proof {
            let n = removed.entries@.len() as int;
            assert forall|i: int| 0 <= i < n implies (#[trigger] self.entries@[i]).0@
                != subscription@ by {
                removed.lemma_index(i);
            }
            assert(self.wf());
            let expected = old(self)@.insert(subscription@, task);
            assert forall|topic: Topic| #![trigger self@.dom().contains(topic)]
                #![trigger expected.dom().contains(topic)]
                self@.dom().contains(topic) == expected.dom().contains(topic) && (
                self@.dom().contains(topic) ==> self@[topic] == expected[topic]) by {
                if topic == subscription@ {
                    self.lemma_index(n);
                } else if removed@.contains_key(topic) {
                    let i = removed.index_of(topic);
                    assert(removed.is_index_of(i, topic));
                    self.lemma_index(i);
                    removed.lemma_index(i);
                } else if self@.contains_key(topic) {
                    let i = self.index_of(topic);
                    assert(self.is_index_of(i, topic));
                    removed.lemma_index(i);
                }
            }
            assert(self@ =~= expected);
        }
        before
    }

    /// Strike out a subscription and hand back its task, if one runs.
    pub fn remove(&mut self, subscription: &WsSubscription) -> (task: Option<T>)
        requires
            old(self).wf(),
        ensures
            final(self).wf(),
            final(self)@ == old(self)@.remove(subscription@),
            task == old(self)@.get(subscription@),
    {
        match self.position(subscription) {
            Some(at) => {
                let (_, task) = self.entries.remove(at);
                proof {
                    let at = at as int;
                    let expected = old(self)@.remove(subscription@);
                    assert forall|topic: Topic| #![trigger self@.dom().contains(topic)]
                        #![trigger expected.dom().contains(topic)]
                        self@.dom().contains(topic) == expected.dom().contains(topic) && (
                        self@.dom().contains(topic) ==> self@[topic] == expected[topic]) by {
                        if self@.contains_key(topic) {
                            let i = self.index_of(topic);
                            assert(self.is_index_of(i, topic));
                            old(self).lemma_index(if i < at { i } else { i + 1 });
                            self.lemma_index(i);
                        } else if old(self)@.contains_key(topic) && topic != subscription@ {
                            let i = old(self).index_of(topic);
                            assert(old(self).is_index_of(i, topic));
                            self.lemma_index(if i < at { i } else { i - 1 });
                        }
                    }
                    assert(self@ =~= expected);
                }
                Some(task)
            },
            None => {
                assert(self@ =~= old(self)@.remove(subscription@));
                None
            },
        }
    }
}

} // verus!
