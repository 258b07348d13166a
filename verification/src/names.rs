//! The words that stand for order types, directions and market types in what
//! clients send and read.
use vstd::prelude::*;
use vstd::string::StringExecFns;

use crate::exchange::{MarketType, OrderType, PositionDirection};

verus! {

/// The word for an order type.
pub open spec fn order_type_name(x: OrderType) -> Seq<char> {
    match x {
        OrderType::Limit => "limit"@,
        OrderType::Market => "market"@,
        OrderType::Oracle => "oracle"@,
        OrderType::TriggerLimit => "triggerLimit"@,
        OrderType::TriggerMarket => "triggerMarket"@,
    }
}

/// The word for a direction.
pub open spec fn position_direction_name(x: PositionDirection) -> Seq<char> {
    match x {
        PositionDirection::Long => "buy"@,
        PositionDirection::Short => "sell"@,
    }
}

/// The word for a market type.
pub open spec fn market_type_name(x: MarketType) -> Seq<char> {
    match x {
        MarketType::Perp => "perp"@,
        MarketType::Spot => "spot"@,
    }
}

/// The order type that a word stands for.
pub open spec fn order_type_of(s: Seq<char>) -> Option<OrderType> {
    if s == order_type_name(OrderType::Limit) {
        Some(OrderType::Limit)
    } else if s == order_type_name(OrderType::Market) {
        Some(OrderType::Market)
    } else if s == order_type_name(OrderType::Oracle) {
        Some(OrderType::Oracle)
    } else if s == order_type_name(OrderType::TriggerLimit) {
        Some(OrderType::TriggerLimit)
    } else if s == order_type_name(OrderType::TriggerMarket) {
        Some(OrderType::TriggerMarket)
    } else {
        None
    }
}

/// The direction that a word stands for.
pub open spec fn position_direction_of(s: Seq<char>) -> Option<PositionDirection> {
    if s == position_direction_name(PositionDirection::Long) {
        Some(PositionDirection::Long)
    } else if s == position_direction_name(PositionDirection::Short) {
        Some(PositionDirection::Short)
    } else {
        None
    }
}

/// The market type that a word stands for.
pub open spec fn market_type_of(s: Seq<char>) -> Option<MarketType> {
    if s == market_type_name(MarketType::Perp) {
        Some(MarketType::Perp)
    } else if s == market_type_name(MarketType::Spot) {
        Some(MarketType::Spot)
    } else {
        None
    }
}

/// Whether `s` is the word `name`.
fn is_word(s: &String, name: &str) -> (result: bool)
    ensures
        result == (s@ == name@),
{
    let word = name.to_owned();
    *s == word
}

/// `what`, then the word that is not known.
fn unknown(what: &str, s: &String) -> (message: String)
    ensures
        message@ == what@ + s@,
{
    let mut message = what.to_owned();
    message.append(s.as_str());
    message
}

/// The word for an order type.
pub fn ser_order_type(x: &OrderType) -> (name: &'static str)
    ensures
        name@ == order_type_name(*x),
{
    match x {
        OrderType::Limit => "limit",
        OrderType::Market => "market",
        OrderType::Oracle => "oracle",
        OrderType::TriggerLimit => "triggerLimit",
        OrderType::TriggerMarket => "triggerMarket",
    }
}

/// The order type that a word stands for, else a message that says which word
/// is not known.
pub fn de_order_type(s: &String) -> (result: Result<OrderType, String>)
    ensures
        match order_type_of(s@) {
            Some(x) => result == Ok::<OrderType, String>(x),
            None => result matches Err(message) && message@ == "unknown order type: "@ + s@,
        },
{
    if is_word(s, "limit") {
        Ok(OrderType::Limit)
    } else if is_word(s, "market") {
        Ok(OrderType::Market)
    } else if is_word(s, "oracle") {
        Ok(OrderType::Oracle)
    } else if is_word(s, "triggerLimit") {
        Ok(OrderType::TriggerLimit)
    } else if is_word(s, "triggerMarket") {
        Ok(OrderType::TriggerMarket)
    } else {
        Err(unknown("unknown order type: ", s))
    }
}

/// The word for a direction.
pub fn ser_position_direction(x: &PositionDirection) -> (name: &'static str)
    ensures
        name@ == position_direction_name(*x),
{
    match x {
        PositionDirection::Long => "buy",
        PositionDirection::Short => "sell",
    }
}

/// The direction that a word stands for, else a message that says which word is
/// not known.
pub fn de_position_direction(s: &String) -> (result: Result<PositionDirection, String>)
    ensures
        match position_direction_of(s@) {
            Some(x) => result == Ok::<PositionDirection, String>(x),
            None => result matches Err(message) && message@ == "unknown position direction: "@ + s@,
        },
{
    if is_word(s, "buy") {
        Ok(PositionDirection::Long)
    } else if is_word(s, "sell") {
        Ok(PositionDirection::Short)
    } else {
        Err(unknown("unknown position direction: ", s))
    }
}

/// The word for a market type.
pub fn ser_market_type(x: &MarketType) -> (name: &'static str)
    ensures
        name@ == market_type_name(*x),
{
    match x {
        MarketType::Perp => "perp",
        MarketType::Spot => "spot",
    }
}

/// The market type that a word stands for, else a message that says which word
/// is not known.
pub fn de_market_type(s: &String) -> (result: Result<MarketType, String>)
    ensures
        match market_type_of(s@) {
            Some(x) => result == Ok::<MarketType, String>(x),
            None => result matches Err(message) && message@ == "unknown market type: "@ + s@,
        },
{
    if is_word(s, "perp") {
        Ok(MarketType::Perp)
    } else if is_word(s, "spot") {
        Ok(MarketType::Spot)
    } else {
        Err(unknown("unknown market type: ", s))
    }
}

/// Reading back the word of an order type gives that order type, and no other
/// word stands for it.
pub proof fn order_type_reads_back(x: OrderType, s: Seq<char>)
    ensures
        order_type_of(order_type_name(x)) == Some(x),
        order_type_of(s) == Some(x) <==> s == order_type_name(x),
{
    reveal_strlit("limit");
    reveal_strlit("market");
    reveal_strlit("oracle");
    reveal_strlit("triggerLimit");
    reveal_strlit("triggerMarket");
    assert("limit"@.len() == 5 && "triggerLimit"@.len() == 12 && "triggerMarket"@.len() == 13);
    assert("market"@.len() == 6 && "oracle"@.len() == 6);
    assert("market"@[0] != "oracle"@[0]);
}

/// Reading back the word of a direction gives that direction, and no other word
/// stands for it.
pub proof fn position_direction_reads_back(x: PositionDirection, s: Seq<char>)
    ensures
        position_direction_of(position_direction_name(x)) == Some(x),
        position_direction_of(s) == Some(x) <==> s == position_direction_name(x),
{
    reveal_strlit("buy");
    reveal_strlit("sell");
    assert("buy"@.len() != "sell"@.len());
}

/// Reading back the word of a market type gives that market type, and no other
/// word stands for it.
pub proof fn market_type_reads_back(x: MarketType, s: Seq<char>)
    ensures
        market_type_of(market_type_name(x)) == Some(x),
        market_type_of(s) == Some(x) <==> s == market_type_name(x),
{
    reveal_strlit("perp");
    reveal_strlit("spot");
    assert("perp"@[0] != "spot"@[0]);
}

/// Each order type is read from one word and written as that word.
pub proof fn order_types_have_their_words(s: Seq<char>)
    ensures
        order_type_of(s) == Some(OrderType::Limit) <==> s == "limit"@,
        order_type_of(s) == Some(OrderType::Market) <==> s == "market"@,
        order_type_of(s) == Some(OrderType::Oracle) <==> s == "oracle"@,
        order_type_of(s) == Some(OrderType::TriggerLimit) <==> s == "triggerLimit"@,
        order_type_of(s) == Some(OrderType::TriggerMarket) <==> s == "triggerMarket"@,
        order_type_of(s) matches Some(x) ==> order_type_name(x) == s,
{
    order_type_reads_back(OrderType::Limit, s);
    order_type_reads_back(OrderType::Market, s);
    order_type_reads_back(OrderType::Oracle, s);
    order_type_reads_back(OrderType::TriggerLimit, s);
    order_type_reads_back(OrderType::TriggerMarket, s);
}

/// Each direction is read from one word and written as that word: to go long is
/// to buy, to go short is to sell.
pub proof fn directions_have_their_words(s: Seq<char>)
    ensures
        position_direction_of(s) == Some(PositionDirection::Long) <==> s == "buy"@,
        position_direction_of(s) == Some(PositionDirection::Short) <==> s == "sell"@,
        position_direction_of(s) matches Some(x) ==> position_direction_name(x) == s,
{
    position_direction_reads_back(PositionDirection::Long, s);
    position_direction_reads_back(PositionDirection::Short, s);
}

/// Each market type is read from one word and written as that word.
pub proof fn market_types_have_their_words(s: Seq<char>)
    ensures
        market_type_of(s) == Some(MarketType::Perp) <==> s == "perp"@,
        market_type_of(s) == Some(MarketType::Spot) <==> s == "spot"@,
        market_type_of(s) matches Some(x) ==> market_type_name(x) == s,
{
    market_type_reads_back(MarketType::Perp, s);
    market_type_reads_back(MarketType::Spot, s);
}

} // verus!
