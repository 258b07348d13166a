//! Exchange events as one account is told of them.
use vstd::prelude::*;

use crate::decimal::{Decimal, MAX_SCALE};
use crate::exchange::{
    account_is_at, account_text, get_market_decimals, DriftEvent, Market, MarketType, Order,
    OrderType, PositionDirection, ProgramData, Pubkey, PRICE_DECIMALS,
};

verus! {

/// What an event is about.
#[derive(Clone, Copy, Debug, PartialEq, Eq, Structural)]
pub enum Channel {
    Fills,
    Orders,
    Funding,
    OrderBook,
}

#[derive(Clone, Copy, Debug, PartialEq, Eq, Structural)]
pub enum Side {
    Buy,
    Sell,
}

/// An event as an account is told of it.
#[derive(Debug)]
pub enum AccountEvent {
    Fill {
        side: Side,
        fee: Decimal,
        amount: Decimal,
        price: Decimal,
        oracle_price: Decimal,
        order_id: u32,
        market_index: u16,
        market_type: MarketType,
        ts: u64,
        /// The index of the event in the transaction
        tx_idx: usize,
        signature: String,
        maker: Option<String>,
        maker_order_id: Option<u32>,
        maker_fee: Option<Decimal>,
        taker: Option<String>,
        taker_order_id: Option<u32>,
        taker_fee: Option<Decimal>,
    },
    OrderCreate { order: OrderWithDecimals, ts: u64, signature: String, tx_idx: usize },
    OrderCancel { order_id: u32, ts: u64, signature: String, tx_idx: usize },
    OrderCancelMissing { user_order_id: u8, order_id: u32, signature: String },
    OrderExpire { order_id: u32, fee: Decimal, ts: u64, signature: String },
    FundingPayment {
        amount: Decimal,
        market_index: u16,
        ts: u64,
        signature: String,
        tx_idx: usize,
    },
}

/// An order in the figures that clients read.
#[derive(Clone, Copy, Debug)]
pub struct OrderWithDecimals {
    /// The slot the order was placed
    pub slot: u64,
    /// The limit price for the order (can be 0 for market orders)
    /// For orders with an auction, this price isn't used until the auction is complete
    pub price: Decimal,
    /// The size of the order
    pub amount: Decimal,
    /// The amount of the order filled
    pub filled: Decimal,
    /// At what price the order will be triggered. Only relevant for trigger orders
    pub trigger_price: Decimal,
    /// The start price for the auction. Only relevant for market/oracle orders
    pub auction_start_price: Decimal,
    /// The end price for the auction. Only relevant for market/oracle orders
    pub auction_end_price: Decimal,
    /// The time when the order will expire
    pub max_ts: i64,
    /// If set, the order limit price is the oracle price + this offset
    pub oracle_price_offset: Decimal,
    /// The id for the order. Each users has their own order id space
    pub order_id: u32,
    /// The perp/spot market index
    pub market_index: u16,
    /// The type of order
    pub order_type: OrderType,
    /// Whether market is spot or perp
    pub market_type: MarketType,
    /// User generated order id. Can make it easier to place/cancel orders
    pub user_order_id: u8,
    pub direction: PositionDirection,
    /// Whether the order is allowed to only reduce position size
    pub reduce_only: bool,
    /// Whether the order must be a maker
    pub post_only: bool,
    /// Whether the order must be canceled the same slot it is placed
    pub immediate_or_cancel: bool,
    /// How many slots the auction lasts
    pub auction_duration: u8,
}

/// The 64 bits of `x` read as a signed number: amounts of `2^63` and more come
/// out negative.
pub open spec fn signed(x: u64) -> i64 {
    if x <= i64::MAX {
        x as i64
    } else {
        (x - 0x1_0000_0000_0000_0000) as i64
    }
}

/// The 64 bits of `x` read as a signed number.
fn to_signed(x: u64) -> (result: i64)
    ensures
        result == signed(x),
{
    assert(x <= 0x7fff_ffff_ffff_ffff ==> (x as i64) as int == x as int) by (bit_vector);
    assert(x > 0x7fff_ffff_ffff_ffff ==> (x as i64) as int == x - 0x1_0000_0000_0000_0000)
        by (bit_vector);
    x as i64
}

/// `units / 10^decimals`.
pub open spec fn figure(units: i64, decimals: u32) -> Decimal {
    Decimal { mantissa: units as i128, scale: decimals }
}

/// The side of an order of that direction.
pub open spec fn side_of(direction: PositionDirection) -> Side {
    match direction {
        PositionDirection::Long => Side::Buy,
        PositionDirection::Short => Side::Sell,
    }
}

/// A fee in whole units as a price figure.
pub open spec fn fee_figure(fee: Option<i64>) -> Option<Decimal> {
    match fee {
        Some(units) => Some(figure(units, PRICE_DECIMALS)),
        None => None,
    }
}

fn fee_decimal(fee: Option<i64>) -> (result: Option<Decimal>)
    ensures
        result == fee_figure(fee),
{
    match fee {
        Some(units) => Some(Decimal::new(units, PRICE_DECIMALS)),
        None => None,
    }
}

/// The quote amount per unit of the base amount, before zeros are dropped;
/// `None` where there is no such number.
pub open spec fn fill_price(base_amount: u64, quote_amount: u64, decimals: u32) -> Option<Decimal> {
    figure(signed(quote_amount), PRICE_DECIMALS).quotient(
        figure(signed(base_amount), decimals),
    )
}

/// The price of a fill of those amounts is the quote amount per unit of the base
/// amount: exactly where a number is that, else to the last digit that there is
/// room for, and off by at most half a unit in its last digit.
pub open spec fn price_is_quote_per_base(
    base_amount: u64,
    quote_amount: u64,
    decimals: u32,
) -> bool {
    let quote = figure(signed(quote_amount), PRICE_DECIMALS);
    let base = figure(signed(base_amount), decimals);
    &&& fill_price(base_amount, quote_amount, decimals) matches Some(price)
    &&& price.wf()
    &&& price.is_quotient(quote, base)
    &&& price.is_exact_where_possible(quote, base)
    &&& price.has_all_digits(quote, base)
}

/// A fill of those amounts can be put in figures: the amount in `decimals`
/// digits behind the point, and the price.
pub open spec fn fill_has_figures(base_amount: u64, quote_amount: u64, decimals: u32) -> bool {
    decimals <= MAX_SCALE && fill_price(base_amount, quote_amount, decimals) is Some
}

/// The price of a fill of those amounts is no larger than the largest number.
pub open spec fn fill_price_fits(base_amount: u64, quote_amount: u64, decimals: u32) -> bool {
    figure(signed(quote_amount), PRICE_DECIMALS).quotient_fits(
        figure(signed(base_amount), decimals),
    )
}

/// Whether a fill of those amounts can be put in figures. It cannot where the
/// base amount is zero; else it can wherever the price is no larger than the
/// largest number.
pub fn can_price_fill(base_amount: u64, quote_amount: u64, decimals: u32) -> (result: bool)
    ensures
        result == fill_has_figures(base_amount, quote_amount, decimals),
        base_amount == 0 ==> !result,
        base_amount != 0 && decimals <= MAX_SCALE && fill_price_fits(
            base_amount,
            quote_amount,
            decimals,
        ) ==> result,
{
    if decimals > MAX_SCALE {
        return false;
    }
    let base = Decimal::new(to_signed(base_amount), decimals);
    let quote = Decimal::new(to_signed(quote_amount), PRICE_DECIMALS);
    quote.checked_div(&base).is_some()
}

impl AccountEvent {
    /// A fill as one of its parties is told of it, at a price that was worked
    /// out from the whole units.
    pub open spec fn filled_at(
        price: Decimal,
        side: PositionDirection,
        fee: i64,
        base_amount: u64,
        oracle_price: i64,
        order_id: u32,
        ts: u64,
        decimals: u32,
        signature: String,
        tx_idx: usize,
        market_index: u16,
        market_type: MarketType,
        maker: Option<String>,
        maker_order_id: Option<u32>,
        maker_fee: Option<i64>,
        taker: Option<String>,
        taker_order_id: Option<u32>,
        taker_fee: Option<i64>,
    ) -> AccountEvent {
        AccountEvent::Fill {
            side: side_of(side),
            fee: figure(fee, PRICE_DECIMALS).normal_form(),
            amount: figure(signed(base_amount), decimals).normal_form(),
            price: price.normal_form(),
            oracle_price: figure(oracle_price, PRICE_DECIMALS).normal_form(),
            order_id,
            market_index,
            market_type,
            ts,
            tx_idx,
            signature,
            maker,
            maker_order_id,
            maker_fee: fee_figure(maker_fee),
            taker,
            taker_order_id,
            taker_fee: fee_figure(taker_fee),
        }
    }

    /// A fill as one of its parties is told of it, at the given price.
    pub fn fill_at(
        price: Decimal,
        side: PositionDirection,
        fee: i64,
        base_amount: u64,
        oracle_price: i64,
        order_id: u32,
        ts: u64,
        decimals: u32,
        signature: &String,
        tx_idx: usize,
        market_index: u16,
        market_type: MarketType,
        maker: Option<String>,
        maker_order_id: Option<u32>,
        maker_fee: Option<i64>,
        taker: Option<String>,
        taker_order_id: Option<u32>,
        taker_fee: Option<i64>,
    ) -> (event: AccountEvent)
        requires
            price.wf(),
            decimals <= MAX_SCALE,
        ensures
            event == AccountEvent::filled_at(
                price,
                side,
                fee,
                base_amount,
                oracle_price,
                order_id,
                ts,
                decimals,
                *signature,
                tx_idx,
                market_index,
                market_type,
                maker,
                maker_order_id,
                maker_fee,
                taker,
                taker_order_id,
                taker_fee,
            ),
    {
        AccountEvent::Fill {
            side: match side {
                PositionDirection::Long => Side::Buy,
                PositionDirection::Short => Side::Sell,
            },
            price: price.normalize(),
            oracle_price: Decimal::new(oracle_price, PRICE_DECIMALS).normalize(),
            fee: Decimal::new(fee, PRICE_DECIMALS).normalize(),
            order_id,
            amount: Decimal::new(to_signed(base_amount), decimals).normalize(),
            ts,
            signature: signature.clone(),
            market_index,
            market_type,
            tx_idx,
            maker,
            maker_order_id,
            maker_fee: fee_decimal(maker_fee),
            taker,
            taker_order_id,
            taker_fee: fee_decimal(taker_fee),
        }
    }

    /// A fill as one of its parties is told of it, from whole units. Its price
    /// is the quote amount per unit of the base amount.
    pub fn fill(
        side: PositionDirection,
        fee: i64,
        base_amount: u64,
        quote_amount: u64,
        oracle_price: i64,
        order_id: u32,
        ts: u64,
        decimals: u32,
        signature: &String,
        tx_idx: usize,
        market_index: u16,
        market_type: MarketType,
        maker: Option<String>,
        maker_order_id: Option<u32>,
        maker_fee: Option<i64>,
        taker: Option<String>,
        taker_order_id: Option<u32>,
        taker_fee: Option<i64>,
    ) -> (event: AccountEvent)
        requires
            fill_has_figures(base_amount, quote_amount, decimals),
        ensures
            event == AccountEvent::filled_at(
                fill_price(base_amount, quote_amount, decimals).unwrap(),
                side,
                fee,
                base_amount,
                oracle_price,
                order_id,
                ts,
                decimals,
                *signature,
                tx_idx,
                market_index,
                market_type,
                maker,
                maker_order_id,
                maker_fee,
                taker,
                taker_order_id,
                taker_fee,
            ),
            price_is_quote_per_base(base_amount, quote_amount, decimals),
    {
        let base = Decimal::new(to_signed(base_amount), decimals);
        let quote = Decimal::new(to_signed(quote_amount), PRICE_DECIMALS);
        let price = quote.checked_div(&base).unwrap();
        AccountEvent::fill_at(
            price,
            side,
            fee,
            base_amount,
            oracle_price,
            order_id,
            ts,
            decimals,
            signature,
            tx_idx,
            market_index,
            market_type,
            maker,
            maker_order_id,
            maker_fee,
            taker,
            taker_order_id,
            taker_fee,
        )
    }
}

impl OrderWithDecimals {
    /// An order in figures: prices in `PRICE_DECIMALS` digits behind the point
    /// and amounts in `decimals`, without zeros at their ends.
    pub open spec fn of_order(order: Order, decimals: u32) -> OrderWithDecimals {
        OrderWithDecimals {
            slot: order.slot,
            price: figure(signed(order.price), PRICE_DECIMALS).normal_form(),
            amount: figure(signed(order.base_asset_amount), decimals).normal_form(),
            filled: figure(signed(order.base_asset_amount_filled), decimals).normal_form(),
            trigger_price: figure(signed(order.trigger_price), PRICE_DECIMALS).normal_form(),
            auction_start_price: figure(
                order.auction_start_price,
                PRICE_DECIMALS,
            ).normal_form(),
            auction_end_price: figure(order.auction_end_price, PRICE_DECIMALS).normal_form(),
            max_ts: order.max_ts,
            oracle_price_offset: figure(
                order.oracle_price_offset as i64,
                PRICE_DECIMALS,
            ).normal_form(),
            order_id: order.order_id,
            market_index: order.market_index,
            order_type: order.order_type,
            market_type: order.market_type,
            user_order_id: order.user_order_id,
            direction: order.direction,
            reduce_only: order.reduce_only,
            post_only: order.post_only,
            immediate_or_cancel: order.immediate_or_cancel,
            auction_duration: order.auction_duration,
        }
    }

    /// The order in the figures of a market of `decimals`.
    pub fn from_order(value: Order, decimals: u32) -> (order: OrderWithDecimals)
        requires
            decimals <= MAX_SCALE,
        ensures
            order == OrderWithDecimals::of_order(value, decimals),
    {
        OrderWithDecimals {
            slot: value.slot,
            price: Decimal::new(to_signed(value.price), PRICE_DECIMALS).normalize(),
            amount: Decimal::new(to_signed(value.base_asset_amount), decimals).normalize(),
            filled: Decimal::new(to_signed(value.base_asset_amount_filled), decimals).normalize(),
            trigger_price: Decimal::new(
                to_signed(value.trigger_price),
                PRICE_DECIMALS,
            ).normalize(),
            auction_start_price: Decimal::new(
                value.auction_start_price,
                PRICE_DECIMALS,
            ).normalize(),
            auction_end_price: Decimal::new(value.auction_end_price, PRICE_DECIMALS).normalize(),
            oracle_price_offset: Decimal::new(
                value.oracle_price_offset as i64,
                PRICE_DECIMALS,
            ).normalize(),
            max_ts: value.max_ts,
            order_id: value.order_id,
            market_index: value.market_index,
            order_type: value.order_type,
            market_type: value.market_type,
            user_order_id: value.user_order_id,
            direction: value.direction,
            reduce_only: value.reduce_only,
            post_only: value.post_only,
            immediate_or_cancel: value.immediate_or_cancel,
            auction_duration: value.auction_duration,
        }
    }
}

impl DriftEvent {
    /// The event says what the account at `address` is to be told: its market
    /// is known where figures depend on it, the side of the account is given,
    /// and no whole number is out of range.
    pub open spec fn is_complete(self, program_data: ProgramData, address: Pubkey) -> bool {
        match self {
            DriftEvent::OrderFill {
                maker,
                maker_side,
                taker,
                taker_side,
                market_index,
                market_type,
                ..
            } => {
                &&& program_data.decimals(Market { market_index, market_type }) is Some
                &&& if Pubkey::is_at(maker, address) {
                    maker_side is Some
                } else {
                    Pubkey::is_at(taker, address) ==> taker_side is Some
                }
            },
            DriftEvent::OrderExpire { fee, .. } => fee != 0x8000_0000_0000_0000,
            DriftEvent::OrderCreate { order, .. } => {
                &&& program_data.decimals(
                    Market { market_index: order.market_index, market_type: order.market_type },
                ) matches Some(decimals)
                &&& decimals <= MAX_SCALE
            },
            _ => true,
        }
    }

    /// The base amount, the quote amount and the decimals of a fill to which
    /// the account at `address` is a party.
    pub open spec fn amounts_to_price(self, program_data: ProgramData, address: Pubkey) -> Option<
        (u64, u64, u32),
    > {
        match self {
            DriftEvent::OrderFill {
                maker,
                taker,
                base_asset_amount_filled,
                quote_asset_amount_filled,
                market_index,
                market_type,
                ..
            } => if Pubkey::is_at(maker, address) || Pubkey::is_at(taker, address) {
                Some(
                    (
                        base_asset_amount_filled,
                        quote_asset_amount_filled,
                        program_data.decimals(Market { market_index, market_type }).unwrap(),
                    ),
                )
            } else {
                None
            },
            _ => None,
        }
    }

    /// The event can be put in figures for the account at `address`.
    pub open spec fn has_figures(self, program_data: ProgramData, address: Pubkey) -> bool {
        &&& self.is_complete(program_data, address)
        &&& self.amounts_to_price(program_data, address) matches Some((base, quote, decimals))
            ==> fill_has_figures(base, quote, decimals)
    }

    /// A fill to which the account at `address` is a party is of an amount
    /// other than zero, and its price is no larger than the largest number.
    pub open spec fn price_fits(self, program_data: ProgramData, address: Pubkey) -> bool {
        self.amounts_to_price(program_data, address) matches Some((base, quote, decimals)) ==> base
            != 0 && decimals <= MAX_SCALE && fill_price_fits(base, quote, decimals)
    }

    /// What the event is about.
    pub open spec fn channel(self) -> Channel {
        match self {
            DriftEvent::OrderFill { .. } => Channel::Fills,
            DriftEvent::FundingPayment { .. } => Channel::Funding,
            _ => Channel::Orders,
        }
    }

    /// The event as the account at `address` is told of it. A fill is told to
    /// its maker and its taker only; who is both is told of the maker's side.
    pub open spec fn for_account(self, program_data: ProgramData, address: Pubkey) -> Option<
        AccountEvent,
    > {
        match self {
            DriftEvent::OrderFill {
                maker,
                maker_fee,
                maker_order_id,
                maker_side,
                taker,
                taker_fee,
                taker_order_id,
                taker_side,
                base_asset_amount_filled,
                quote_asset_amount_filled,
                oracle_price,
                market_index,
                market_type,
                signature,
                tx_idx,
                ts,
            } => {
                let as_maker = Pubkey::is_at(maker, address);
                let decimals = program_data.decimals(
                    Market { market_index, market_type },
                ).unwrap();
                if as_maker || Pubkey::is_at(taker, address) {
                    Some(
                        AccountEvent::filled_at(
                            fill_price(
                                base_asset_amount_filled,
                                quote_asset_amount_filled,
                                decimals,
                            ).unwrap(),
                            if as_maker {
                                maker_side.unwrap()
                            } else {
                                taker_side.unwrap()
                            },
                            if as_maker {
                                maker_fee
                            } else {
                                signed(taker_fee)
                            },
                            base_asset_amount_filled,
                            oracle_price,
                            if as_maker {
                                maker_order_id
                            } else {
                                taker_order_id
                            },
                            ts,
                            decimals,
                            signature,
                            tx_idx,
                            market_index,
                            market_type,
                            Pubkey::text_of(maker),
                            Some(maker_order_id),
                            Some(maker_fee),
                            Pubkey::text_of(taker),
                            Some(taker_order_id),
                            Some(signed(taker_fee)),
                        ),
                    )
                } else {
                    None
                }
            },
            DriftEvent::OrderCancel {
                maker,
                taker_order_id,
                maker_order_id,
                signature,
                tx_idx,
                ts,
                ..
            } => Some(
                AccountEvent::OrderCancel {
                    order_id: if Pubkey::is_at(maker, address) {
                        maker_order_id
                    } else {
                        taker_order_id
                    },
                    ts,
                    signature,
                    tx_idx,
                },
            ),
            DriftEvent::OrderCancelMissing { user_order_id, order_id, signature } => Some(
                AccountEvent::OrderCancelMissing { user_order_id, order_id, signature },
            ),
            DriftEvent::OrderExpire { order_id, fee, ts, signature } => Some(
                AccountEvent::OrderExpire {
                    order_id,
                    fee: figure((-signed(fee)) as i64, PRICE_DECIMALS),
                    ts,
                    signature,
                },
            ),
            DriftEvent::OrderCreate { order, ts, signature, tx_idx } => Some(
                AccountEvent::OrderCreate {
                    order: OrderWithDecimals::of_order(
                        order,
                        program_data.decimals(
                            Market {
                                market_index: order.market_index,
                                market_type: order.market_type,
                            },
                        ).unwrap(),
                    ),
                    ts,
                    signature,
                    tx_idx,
                },
            ),
            DriftEvent::FundingPayment { amount, market_index, ts, signature, tx_idx } => Some(
                AccountEvent::FundingPayment {
                    amount: figure(amount, PRICE_DECIMALS).normal_form(),
                    market_index,
                    ts,
                    signature,
                    tx_idx,
                },
            ),
        }
    }
}

/// Map drift-program events into gateway friendly types for events to the specific UserAccount
pub fn map_drift_event_for_account(
    program_data: &ProgramData,
    event: &DriftEvent,
    sub_account_address: &Pubkey,
) -> (mapped: (Channel, Option<AccountEvent>))
    requires
        event.has_figures(*program_data, *sub_account_address),
    ensures
        mapped.0 == event.channel(),
        mapped.1 == event.for_account(*program_data, *sub_account_address),
        event.amounts_to_price(*program_data, *sub_account_address) matches Some(
            (base, quote, decimals),
        ) ==> price_is_quote_per_base(base, quote, decimals),
{
    match event {
        DriftEvent::OrderFill {
            maker,
            maker_fee,
            maker_order_id,
            maker_side,
            taker,
            taker_fee,
            taker_order_id,
            taker_side,
            base_asset_amount_filled,
            quote_asset_amount_filled,
            oracle_price,
            market_index,
            market_type,
            signature,
            tx_idx,
            ts,
        } => {
            let decimals = get_market_decimals(
                program_data,
                Market::new(*market_index, *market_type),
            );
            let fill = if account_is_at(maker, sub_account_address) {
                Some(
                    AccountEvent::fill(
                        maker_side.unwrap(),
                        *maker_fee,
                        *base_asset_amount_filled,
                        *quote_asset_amount_filled,
                        *oracle_price,
                        *maker_order_id,
                        *ts,
                        decimals,
                        signature,
                        *tx_idx,
                        *market_index,
                        *market_type,
                        account_text(maker),
                        Some(*maker_order_id),
                        Some(*maker_fee),
                        account_text(taker),
                        Some(*taker_order_id),
                        Some(to_signed(*taker_fee)),
                    ),
                )
            } else if account_is_at(taker, sub_account_address) {
                Some(
                    AccountEvent::fill(
                        taker_side.unwrap(),
                        to_signed(*taker_fee),
                        *base_asset_amount_filled,
                        *quote_asset_amount_filled,
                        *oracle_price,
                        *taker_order_id,
                        *ts,
                        decimals,
                        signature,
                        *tx_idx,
                        *market_index,
                        *market_type,
                        account_text(maker),
                        Some(*maker_order_id),
                        Some(*maker_fee),
                        account_text(taker),
                        Some(*taker_order_id),
                        Some(to_signed(*taker_fee)),
                    ),
                )
            } else {
                None
            };
            (Channel::Fills, fill)
        },
        DriftEvent::OrderCancel {
            taker: _,
            maker,
            taker_order_id,
            maker_order_id,
            signature,
            tx_idx,
            ts,
        } => {
            let order_id = if account_is_at(maker, sub_account_address) {
                maker_order_id
            } else {
                taker_order_id
            };
            (
                Channel::Orders,
                Some(
                    AccountEvent::OrderCancel {
                        order_id: *order_id,
                        ts: *ts,
                        signature: signature.clone(),
                        tx_idx: *tx_idx,
                    },
                ),
            )
        },
        DriftEvent::OrderCancelMissing { order_id, user_order_id, signature } => (
            Channel::Orders,
            Some(
                AccountEvent::OrderCancelMissing {
                    user_order_id: *user_order_id,
                    order_id: *order_id,
                    signature: signature.clone(),
                },
            ),
        ),
        DriftEvent::OrderExpire { order_id, fee, ts, signature } => (
            Channel::Orders,
            Some(
                AccountEvent::OrderExpire {
                    order_id: *order_id,
                    fee: Decimal::new(-to_signed(*fee), PRICE_DECIMALS),
                    ts: *ts,
                    signature: signature.clone(),
                },
            ),
        ),
        DriftEvent::OrderCreate { order, ts, signature, tx_idx } => {
            let decimals = get_market_decimals(
                program_data,
                Market::new(order.market_index, order.market_type),
            );
            (
                Channel::Orders,
                Some(
                    AccountEvent::OrderCreate {
                        order: OrderWithDecimals::from_order(*order, decimals),
                        ts: *ts,
                        signature: signature.clone(),
                        tx_idx: *tx_idx,
                    },
                ),
            )
        },
        DriftEvent::FundingPayment { amount, market_index, ts, tx_idx, signature } => (
            Channel::Funding,
            Some(
                AccountEvent::FundingPayment {
                    amount: Decimal::new(*amount, PRICE_DECIMALS).normalize(),
                    market_index: *market_index,
                    ts: *ts,
                    signature: signature.clone(),
                    tx_idx: *tx_idx,
                },
            ),
        ),
    }
}

/// Whether an event can be put in figures for the account at
/// `sub_account_address`.
fn can_map(
    program_data: &ProgramData,
    event: &DriftEvent,
    sub_account_address: &Pubkey,
) -> (result: bool)
    ensures
        result == event.has_figures(*program_data, *sub_account_address),
        event.is_complete(*program_data, *sub_account_address) && event.price_fits(
            *program_data,
            *sub_account_address,
        ) ==> result,
{
    match event {
        DriftEvent::OrderFill {
            maker,
            maker_side,
            taker,
            taker_side,
            base_asset_amount_filled,
            quote_asset_amount_filled,
            market_index,
            market_type,
            ..
        } => {
            let market = Market::new(*market_index, *market_type);
            match program_data.market_decimals(market) {
                Some(decimals) => {
                    let side = if account_is_at(maker, sub_account_address) {
                        maker_side
                    } else if account_is_at(taker, sub_account_address) {
                        taker_side
                    } else {
                        return true;
                    };
                    side.is_some() && can_price_fill(
                        *base_asset_amount_filled,
                        *quote_asset_amount_filled,
                        decimals,
                    )
                },
                None => false,
            }
        },
        DriftEvent::OrderExpire { fee, .. } => *fee != 0x8000_0000_0000_0000,
        DriftEvent::OrderCreate { order, .. } => {
            match program_data.market_decimals(Market::new(order.market_index, order.market_type)) {
                Some(decimals) => decimals <= MAX_SCALE,
                None => false,
            }
        },
        _ => true,
    }
}

/// Map an event for an account, or nothing where it cannot be put in figures: a
/// market that is not known, a side that is not given, an amount of zero to
/// price, or a number out of range.
pub fn try_map_drift_event_for_account(
    program_data: &ProgramData,
    event: &DriftEvent,
    sub_account_address: &Pubkey,
) -> (mapped: Option<(Channel, Option<AccountEvent>)>)
    ensures
        mapped == if event.has_figures(*program_data, *sub_account_address) {
            Some((event.channel(), event.for_account(*program_data, *sub_account_address)))
        } else {
            None
        },
        event.is_complete(*program_data, *sub_account_address) && event.price_fits(
            *program_data,
            *sub_account_address,
        ) ==> mapped is Some,
        mapped is Some ==> (event.amounts_to_price(
            *program_data,
            *sub_account_address,
        ) matches Some((base, quote, decimals)) ==> price_is_quote_per_base(
            base,
            quote,
            decimals,
        )),
{
    if can_map(program_data, event, sub_account_address) {
        Some(map_drift_event_for_account(program_data, event, sub_account_address))
    } else {
        None
    }
}

/// A fill is told to its maker and its taker and to no one else; every other
/// event is told to whoever asks.
pub proof fn fills_are_told_to_their_parties(
    event: DriftEvent,
    program_data: ProgramData,
    address: Pubkey,
)
    ensures
        event.for_account(program_data, address) is Some <==> (event matches DriftEvent::OrderFill {
            maker,
            taker,
            ..
        } ==> Pubkey::is_at(maker, address) || Pubkey::is_at(taker, address)),
{
}

/// The maker and the taker of a fill are told of one trade: one price, one
/// amount, one oracle price, the same parties, order ids and fees of both. What
/// differs is the side, the order id and the fee that is each one's own.
pub proof fn parties_are_told_of_one_trade(
    event: DriftEvent,
    program_data: ProgramData,
    maker_address: Pubkey,
    taker_address: Pubkey,
)
    requires
        event matches DriftEvent::OrderFill { maker, taker, .. } && Pubkey::is_at(
            maker,
            maker_address,
        ) && Pubkey::is_at(taker, taker_address) && !Pubkey::is_at(maker, taker_address),
    ensures
        event.for_account(program_data, maker_address) matches Some(told_maker)
            && event.for_account(program_data, taker_address) matches Some(told_taker)
            && told_maker is Fill && told_taker is Fill && told_taker == (AccountEvent::Fill {
            side: side_of(event->taker_side.unwrap()),
            order_id: event->OrderFill_taker_order_id,
            fee: figure(signed(event->taker_fee), PRICE_DECIMALS).normal_form(),
            amount: told_maker->Fill_amount,
            price: told_maker->price,
            oracle_price: told_maker->Fill_oracle_price,
            market_index: told_maker->Fill_market_index,
            market_type: told_maker->Fill_market_type,
            ts: told_maker->Fill_ts,
            tx_idx: told_maker->Fill_tx_idx,
            signature: told_maker->Fill_signature,
            maker: told_maker->maker,
            maker_order_id: told_maker->maker_order_id,
            maker_fee: told_maker->maker_fee,
            taker: told_maker->taker,
            taker_order_id: told_maker->taker_order_id,
            taker_fee: told_maker->taker_fee,
        }),
{
}

/// Who made a fill is told of it as its maker, even who took it as well; who
/// took it and did not make it is told of it as its taker. The fee and the order
/// id that are one's own are those that the fill lists for that part in it.
pub proof fn own_part_is_as_listed(event: DriftEvent, program_data: ProgramData, address: Pubkey)
    requires
        event.for_account(program_data, address) is Some,
        event is OrderFill,
    ensures
        event.for_account(program_data, address) matches Some(
            AccountEvent::Fill {
                side,
                fee,
                order_id,
                maker_order_id,
                maker_fee,
                taker_order_id,
                taker_fee,
                ..
            },
        ) && if Pubkey::is_at(event->OrderFill_maker, address) {
            &&& side == side_of(event->maker_side.unwrap())
            &&& Some(order_id) == maker_order_id
            &&& maker_fee matches Some(listed) && fee == listed.normal_form()
        } else {
            &&& side == side_of(event->taker_side.unwrap())
            &&& Some(order_id) == taker_order_id
            &&& taker_fee matches Some(listed) && fee == listed.normal_form()
        },
{
}

/// Figures keep the value of the whole units they come from, and have no zeros
/// at their ends.
pub proof fn figures_keep_value(units: i64, decimals: u32)
    requires
        decimals <= MAX_SCALE,
    ensures
        figure(units, decimals).normal_form().same_value(figure(units, decimals)),
        figure(units, decimals).normal_form().is_normal(),
{
    crate::decimal::normal_form_keeps_value(figure(units, decimals));
    crate::decimal::normal_form_is_normal(figure(units, decimals));
}

/// An order's figures have the values of its whole units.
pub proof fn order_figures_keep_value(order: Order, decimals: u32)
    requires
        decimals <= MAX_SCALE,
    ensures
        ({
            let told = OrderWithDecimals::of_order(order, decimals);
            &&& told.price.same_value(figure(signed(order.price), PRICE_DECIMALS))
            &&& told.amount.same_value(figure(signed(order.base_asset_amount), decimals))
            &&& told.filled.same_value(figure(signed(order.base_asset_amount_filled), decimals))
            &&& told.trigger_price.same_value(figure(signed(order.trigger_price), PRICE_DECIMALS))
            &&& told.auction_start_price.same_value(
                figure(order.auction_start_price, PRICE_DECIMALS),
            )
            &&& told.auction_end_price.same_value(figure(order.auction_end_price, PRICE_DECIMALS))
            &&& told.oracle_price_offset.same_value(
                figure(order.oracle_price_offset as i64, PRICE_DECIMALS),
            )
        }),
{
    figures_keep_value(signed(order.price), PRICE_DECIMALS);
    figures_keep_value(signed(order.base_asset_amount), decimals);
    figures_keep_value(signed(order.base_asset_amount_filled), decimals);
    figures_keep_value(signed(order.trigger_price), PRICE_DECIMALS);
    figures_keep_value(order.auction_start_price, PRICE_DECIMALS);
    figures_keep_value(order.auction_end_price, PRICE_DECIMALS);
    figures_keep_value(order.oracle_price_offset as i64, PRICE_DECIMALS);
}

/// Where a number is exactly the quote amount per unit of the base amount, the
/// price that the parties are told is that number, and times the amount that
/// they are told it is the quote amount.
pub proof fn exact_price_times_amount_is_quote(
    event: DriftEvent,
    program_data: ProgramData,
    address: Pubkey,
    exact: Decimal,
)
    requires
        event.amounts_to_price(program_data, address) matches Some((base, quote, decimals))
            && decimals <= MAX_SCALE && price_is_quote_per_base(base, quote, decimals)
            && exact.wf() && exact.is_exactly(
            figure(signed(quote), PRICE_DECIMALS),
            figure(signed(base), decimals),
        ),
    ensures
        event.for_account(program_data, address) matches Some(
            AccountEvent::Fill { price, amount, .. },
        ) && price == exact.normal_form() && price.is_exactly(
            figure(signed(event->quote_asset_amount_filled), PRICE_DECIMALS),
            amount,
        ),
{
    let (base, quote, decimals) = event.amounts_to_price(program_data, address).unwrap();
    let amount = figure(signed(base), decimals);
    let price = fill_price(base, quote, decimals).unwrap();
    crate::decimal::same_value_same_normal_form(price, exact);
    crate::decimal::normal_form_keeps_value(exact);
    crate::decimal::normal_form_keeps_value(amount);
    crate::decimal::exactness_is_of_values(
        exact,
        exact.normal_form(),
        figure(signed(quote), PRICE_DECIMALS),
        amount,
        amount.normal_form(),
    );
}

/// The price that the parties of a fill are told can be held, has no zeros at
/// its end, and has the value of the quote amount per unit of the base amount to
/// the last digit that there is room for.
pub proof fn told_price_has_all_digits(
    event: DriftEvent,
    program_data: ProgramData,
    address: Pubkey,
)
    requires
        event.amounts_to_price(program_data, address) matches Some((base, quote, decimals))
            && price_is_quote_per_base(base, quote, decimals),
    ensures
        event.for_account(program_data, address) matches Some(AccountEvent::Fill { price, .. })
            && event.amounts_to_price(program_data, address) matches Some((base, quote, decimals))
            && price.wf() && price.is_normal() && price.has_all_digits(
            figure(signed(quote), PRICE_DECIMALS),
            figure(signed(base), decimals),
        ),
{
    let (base, quote, decimals) = event.amounts_to_price(program_data, address).unwrap();
    let price = fill_price(base, quote, decimals).unwrap();
    crate::decimal::normal_form_keeps_value(price);
    crate::decimal::normal_form_is_normal(price);
    crate::decimal::digits_are_of_values(
        price,
        price.normal_form(),
        figure(signed(quote), PRICE_DECIMALS),
        figure(signed(base), decimals),
    );
}

/// Where a market has at most fifteen decimals, the price of every fill of an
/// amount other than zero is no larger than the largest number.
pub proof fn prices_fit_up_to_fifteen_decimals(base_amount: u64, quote_amount: u64, decimals: u32)
    requires
        base_amount != 0,
        decimals <= 15,
    ensures
        fill_price_fits(base_amount, quote_amount, decimals),
{
    let base = crate::decimal::magnitude(signed(base_amount) as int);
    let quote = crate::decimal::magnitude(signed(quote_amount) as int);
    let p = crate::decimal::pow10(decimals as nat);
    let max = crate::decimal::MAX_MANTISSA as int;
    vstd::arithmetic::power::lemma_pow_increases(10, decimals as nat, 15);
    vstd::arithmetic::power::lemma_pow_positive(10, decimals as nat);
    assert(vstd::arithmetic::power::pow(10, 15) == 1_000_000_000_000_000
        && vstd::arithmetic::power::pow(10, 6) == 1_000_000) by {
        reveal_with_fuel(vstd::arithmetic::power::pow, 16);
    }
    assert(quote * p <= 0x8000_0000_0000_0000 * 1_000_000_000_000_000) by (nonlinear_arith)
        requires
            0 <= quote <= 0x8000_0000_0000_0000,
            0 < p <= 1_000_000_000_000_000,
    ;
    assert(max * (base * 1_000_000) >= max * 1_000_000) by (nonlinear_arith)
        requires
            base >= 1,
            max > 0,
    ;
}

/// The 64 bits of an amount are kept where it is read as signed: nothing but a
/// multiple of `2^64` comes between, and nothing at all up to the largest signed
/// number.
pub proof fn signed_amounts_keep_their_bits(x: u64)
    ensures
        (x - signed(x)) % 0x1_0000_0000_0000_0000 == 0,
        x <= i64::MAX ==> signed(x) == x,
{
}

/// A fill bears what it was told of: the market, the order id, the time, the
/// place in its transaction, the signature, both parties with their order ids
/// and fees. It is a buy where the direction is long and a sell where it is
/// short. The fees of the parties have `PRICE_DECIMALS` digits behind the point;
/// the other figures have no zeros at their ends, and stand for the whole units
/// that came in: the fee and the oracle price in `PRICE_DECIMALS` decimals, the
/// amount in those of the market. The price has the value that was given.
pub proof fn fill_bears_what_was_given(
    price: Decimal,
    side: PositionDirection,
    fee: i64,
    base_amount: u64,
    oracle_price: i64,
    order_id: u32,
    ts: u64,
    decimals: u32,
    signature: String,
    tx_idx: usize,
    market_index: u16,
    market_type: MarketType,
    maker: Option<String>,
    maker_order_id: Option<u32>,
    maker_fee: Option<i64>,
    taker: Option<String>,
    taker_order_id: Option<u32>,
    taker_fee: Option<i64>,
)
    requires
        price.wf(),
        decimals <= MAX_SCALE,
    ensures
        ({
            let told = AccountEvent::filled_at(
                price,
                side,
                fee,
                base_amount,
                oracle_price,
                order_id,
                ts,
                decimals,
                signature,
                tx_idx,
                market_index,
                market_type,
                maker,
                maker_order_id,
                maker_fee,
                taker,
                taker_order_id,
                taker_fee,
            );
            &&& told is Fill
            &&& told->side is Buy <==> side is Long
            &&& told->side is Sell <==> side is Short
            &&& told->Fill_fee.stands_for(fee as int, PRICE_DECIMALS as int)
            &&& told->Fill_fee.is_normal()
            &&& told->Fill_amount.stands_for(signed(base_amount) as int, decimals as int)
            &&& told->Fill_amount.is_normal()
            &&& told->price.same_value(price)
            &&& told->price.is_normal()
            &&& told->oracle_price.stands_for(oracle_price as int, PRICE_DECIMALS as int)
            &&& told->oracle_price.is_normal()
            &&& told->Fill_order_id == order_id
            &&& told->Fill_market_index == market_index
            &&& told->market_type == market_type
            &&& told->Fill_ts == ts
            &&& told->Fill_tx_idx == tx_idx
            &&& told->Fill_signature@ == signature@
            &&& told->maker == maker
            &&& told->maker_order_id == maker_order_id
            &&& told->taker == taker
            &&& told->taker_order_id == taker_order_id
            &&& told->maker_fee is Some <==> maker_fee is Some
            &&& maker_fee matches Some(units) ==> told->maker_fee->0.mantissa == units
                && told->maker_fee->0.scale == PRICE_DECIMALS
            &&& told->taker_fee is Some <==> taker_fee is Some
            &&& taker_fee matches Some(units) ==> told->taker_fee->0.mantissa == units
                && told->taker_fee->0.scale == PRICE_DECIMALS
        }),
{
    crate::decimal::normal_form_keeps_value(price);
    crate::decimal::normal_form_is_normal(price);
    crate::decimal::normal_form_stands_for_its_units(fee as i128, PRICE_DECIMALS);
    crate::decimal::normal_form_stands_for_its_units(oracle_price as i128, PRICE_DECIMALS);
    crate::decimal::normal_form_stands_for_its_units(signed(base_amount) as i128, decimals);
}

/// A fill is told to whoever made or took it, and what a party is told bears the
/// market, the time, the place in its transaction, the signature and the oracle
/// price that the exchange reported, and names both parties with the order id
/// and the fee that were reported of each.
pub proof fn fill_bears_its_event(event: DriftEvent, program_data: ProgramData, address: Pubkey)
    requires
        event is OrderFill,
        (event->OrderFill_maker matches Some(key) && key.text@ == address.text@) || (
        event->OrderFill_taker matches Some(key) && key.text@ == address.text@),
    ensures
        event.for_account(program_data, address) matches Some(told) && {
            &&& told is Fill
            &&& told->Fill_market_index == event->OrderFill_market_index
            &&& told->market_type == event->market_type
            &&& told->Fill_ts == event->OrderFill_ts
            &&& told->Fill_tx_idx == event->OrderFill_tx_idx
            &&& told->Fill_signature@ == event->OrderFill_signature@
            &&& told->oracle_price.stands_for(event->oracle_price as int, PRICE_DECIMALS as int)
            &&& told->oracle_price.is_normal()
            &&& told->maker is Some <==> event->OrderFill_maker is Some
            &&& event->OrderFill_maker matches Some(key) ==> told->maker->0@ == key.text@
            &&& told->taker is Some <==> event->OrderFill_taker is Some
            &&& event->OrderFill_taker matches Some(key) ==> told->taker->0@ == key.text@
            &&& told->maker_order_id == Some(event->OrderFill_maker_order_id)
            &&& told->taker_order_id == Some(event->OrderFill_taker_order_id)
            &&& told->maker_fee matches Some(fee) && fee.mantissa == event->maker_fee && fee.scale
                == PRICE_DECIMALS
            &&& told->taker_fee matches Some(fee) && fee.mantissa == signed(event->taker_fee)
                && fee.scale == PRICE_DECIMALS
        },
{
    crate::decimal::normal_form_stands_for_its_units(event->oracle_price as i128, PRICE_DECIMALS);
}

/// Who made a fill is told the order id, the fee and the side that were reported
/// of its maker; who took it and did not make it, those of its taker. A side is a
/// buy where the direction is long and a sell where it is short.
pub proof fn own_part_is_as_reported(event: DriftEvent, program_data: ProgramData, address: Pubkey)
    requires
        event is OrderFill,
    ensures
        (event->OrderFill_maker matches Some(key) && key.text@ == address.text@) ==> {
            &&& event.for_account(program_data, address) matches Some(told)
            &&& told is Fill
            &&& told->Fill_order_id == event->OrderFill_maker_order_id
            &&& told->Fill_fee.stands_for(event->maker_fee as int, PRICE_DECIMALS as int)
            &&& told->Fill_fee.is_normal()
            &&& event->maker_side matches Some(direction) ==> (told->side is Buy
                <==> direction is Long)
        },
        !(event->OrderFill_maker matches Some(key) && key.text@ == address.text@) && (
        event->OrderFill_taker matches Some(key) && key.text@ == address.text@) ==> {
            &&& event.for_account(program_data, address) matches Some(told)
            &&& told is Fill
            &&& told->Fill_order_id == event->OrderFill_taker_order_id
            &&& told->Fill_fee.stands_for(signed(event->taker_fee) as int, PRICE_DECIMALS as int)
            &&& told->Fill_fee.is_normal()
            &&& event->taker_side matches Some(direction) ==> (told->side is Buy
                <==> direction is Long)
        },
        !(event->OrderFill_maker matches Some(key) && key.text@ == address.text@) && !(
        event->OrderFill_taker matches Some(key) && key.text@ == address.text@)
            ==> event.for_account(program_data, address) is None,
{
    crate::decimal::normal_form_stands_for_its_units(event->maker_fee as i128, PRICE_DECIMALS);
    crate::decimal::normal_form_stands_for_its_units(
        signed(event->taker_fee) as i128,
        PRICE_DECIMALS,
    );
}

/// What a party is told of the size of a fill goes by the decimals that are
/// listed for the fill's own market: the amount stands for the base amount in
/// them, and the price is the quote amount per unit of that amount, without
/// zeros at its end.
pub proof fn fill_is_sized_by_its_market(
    event: DriftEvent,
    program_data: ProgramData,
    address: Pubkey,
    decimals: u32,
)
    requires
        event is OrderFill,
        (event->OrderFill_maker matches Some(key) && key.text@ == address.text@) || (
        event->OrderFill_taker matches Some(key) && key.text@ == address.text@),
        program_data.decimals(
            Market {
                market_index: event->OrderFill_market_index,
                market_type: event->market_type,
            },
        ) == Some(decimals),
        decimals <= MAX_SCALE,
        price_is_quote_per_base(
            event->base_asset_amount_filled,
            event->quote_asset_amount_filled,
            decimals,
        ),
    ensures
        event.amounts_to_price(program_data, address) == Some(
            (event->base_asset_amount_filled, event->quote_asset_amount_filled, decimals),
        ),
        event.for_account(program_data, address) matches Some(told) && {
            let base = Decimal {
                mantissa: signed(event->base_asset_amount_filled) as i128,
                scale: decimals,
            };
            let quote = Decimal {
                mantissa: signed(event->quote_asset_amount_filled) as i128,
                scale: PRICE_DECIMALS,
            };
            &&& told is Fill
            &&& told->Fill_amount.stands_for(base.mantissa as int, decimals as int)
            &&& told->Fill_amount.is_normal()
            &&& told->price.wf()
            &&& told->price.is_normal()
            &&& told->price.has_all_digits(quote, base)
            &&& forall|exact: Decimal|
                exact.wf() && #[trigger] exact.is_exactly(quote, base) ==> told->price
                    == exact.normal_form()
        },
{
    let base = event->base_asset_amount_filled;
    let quote = event->quote_asset_amount_filled;
    let price = fill_price(base, quote, decimals).unwrap();
    crate::decimal::normal_form_stands_for_its_units(signed(base) as i128, decimals);
    crate::decimal::normal_form_keeps_value(price);
    told_price_has_all_digits(event, program_data, address);
    assert forall|exact: Decimal|
        exact.wf() && #[trigger] exact.is_exactly(
            figure(signed(quote), PRICE_DECIMALS),
            figure(signed(base), decimals),
        ) implies price.normal_form() == exact.normal_form() by {
        crate::decimal::same_value_same_normal_form(price, exact);
    }
}

/// Amounts are priced only of fills, and only for their parties.
pub proof fn only_fills_are_priced(event: DriftEvent, program_data: ProgramData, address: Pubkey)
    ensures
        event.amounts_to_price(program_data, address) is Some <==> event is OrderFill && ((
        event->OrderFill_maker matches Some(key) && key.text@ == address.text@) || (
        event->OrderFill_taker matches Some(key) && key.text@ == address.text@)),
{
}

/// A cancelled order is told by the maker's order id to the maker and by the
/// taker's to anyone else. Every event of an order but a fill, and every funding
/// payment, bears the ids, the market, the time, the place in its transaction and
/// the signature that the exchange reported. The fee of an expired order is
/// owed: it is told with the sign turned.
pub proof fn other_events_bear_what_was_reported(
    event: DriftEvent,
    program_data: ProgramData,
    address: Pubkey,
)
    requires
        !(event is OrderFill),
    ensures
        event.for_account(program_data, address) matches Some(told) && {
            &&& event is OrderCancel ==> {
                &&& told is OrderCancel
                &&& (event->OrderCancel_maker matches Some(key) && key.text@ == address.text@)
                    ==> told->OrderCancel_order_id == event->OrderCancel_maker_order_id
                &&& !(event->OrderCancel_maker matches Some(key) && key.text@ == address.text@)
                    ==> told->OrderCancel_order_id == event->OrderCancel_taker_order_id
                &&& told->OrderCancel_ts == event->OrderCancel_ts
                &&& told->OrderCancel_signature@ == event->OrderCancel_signature@
                &&& told->OrderCancel_tx_idx == event->OrderCancel_tx_idx
            }
            &&& event is OrderCancelMissing ==> {
                &&& told is OrderCancelMissing
                &&& told->user_order_id == event->user_order_id
                &&& told->OrderCancelMissing_order_id == event->OrderCancelMissing_order_id
                &&& told->OrderCancelMissing_signature@ == event->OrderCancelMissing_signature@
            }
            &&& event is OrderExpire ==> {
                &&& told is OrderExpire
                &&& told->OrderExpire_order_id == event->OrderExpire_order_id
                &&& event->fee != 0x8000_0000_0000_0000 ==> told->OrderExpire_fee.mantissa
                    + signed(event->fee) == 0
                &&& told->OrderExpire_fee.scale == PRICE_DECIMALS
                &&& told->OrderExpire_ts == event->OrderExpire_ts
                &&& told->OrderExpire_signature@ == event->OrderExpire_signature@
            }
            &&& event is OrderCreate ==> {
                &&& told is OrderCreate
                &&& told->OrderCreate_ts == event->OrderCreate_ts
                &&& told->OrderCreate_signature@ == event->OrderCreate_signature@
                &&& told->OrderCreate_tx_idx == event->OrderCreate_tx_idx
                &&& program_data.decimals(
                    Market {
                        market_index: event->order.market_index,
                        market_type: event->order.market_type,
                    },
                ) matches Some(decimals) ==> told->order == OrderWithDecimals::of_order(
                    event->order,
                    decimals,
                )
            }
            &&& event is FundingPayment ==> {
                &&& told is FundingPayment
                &&& told->FundingPayment_amount.stands_for(
                    event->amount as int,
                    PRICE_DECIMALS as int,
                )
                &&& told->FundingPayment_amount.is_normal()
                &&& told->FundingPayment_market_index == event->FundingPayment_market_index
                &&& told->FundingPayment_ts == event->FundingPayment_ts
                &&& told->FundingPayment_signature@ == event->FundingPayment_signature@
                &&& told->FundingPayment_tx_idx == event->FundingPayment_tx_idx
            }
        },
{
    crate::decimal::normal_form_stands_for_its_units(event->amount as i128, PRICE_DECIMALS);
}

/// An order in figures keeps all that is no figure. Its figures have no zeros at
/// their ends and stand for the order's whole units: the amounts in the decimals
/// of the market, the prices and the offset in `PRICE_DECIMALS`.
pub proof fn order_is_told_as_it_is(order: Order, decimals: u32)
    requires
        decimals <= MAX_SCALE,
    ensures
        ({
            let told = OrderWithDecimals::of_order(order, decimals);
            let price_decimals = PRICE_DECIMALS as int;
            &&& told.direction == order.direction
            &&& told.order_type == order.order_type
            &&& told.market_type == order.market_type
            &&& told.market_index == order.market_index
            &&& told.order_id == order.order_id
            &&& told.user_order_id == order.user_order_id
            &&& told.slot == order.slot
            &&& told.max_ts == order.max_ts
            &&& told.reduce_only == order.reduce_only
            &&& told.post_only == order.post_only
            &&& told.immediate_or_cancel == order.immediate_or_cancel
            &&& told.auction_duration == order.auction_duration
            &&& told.price.stands_for(signed(order.price) as int, price_decimals)
            &&& told.price.is_normal()
            &&& told.amount.stands_for(signed(order.base_asset_amount) as int, decimals as int)
            &&& told.amount.is_normal()
            &&& told.filled.stands_for(
                signed(order.base_asset_amount_filled) as int,
                decimals as int,
            )
            &&& told.filled.is_normal()
            &&& told.trigger_price.stands_for(signed(order.trigger_price) as int, price_decimals)
            &&& told.trigger_price.is_normal()
            &&& told.auction_start_price.stands_for(
                order.auction_start_price as int,
                price_decimals,
            )
            &&& told.auction_start_price.is_normal()
            &&& told.auction_end_price.stands_for(order.auction_end_price as int, price_decimals)
            &&& told.auction_end_price.is_normal()
            &&& told.oracle_price_offset.stands_for(
                order.oracle_price_offset as int,
                price_decimals,
            )
            &&& told.oracle_price_offset.is_normal()
        }),
{
    crate::decimal::normal_form_stands_for_its_units(signed(order.price) as i128, PRICE_DECIMALS);
    crate::decimal::normal_form_stands_for_its_units(
        signed(order.base_asset_amount) as i128,
        decimals,
    );
    crate::decimal::normal_form_stands_for_its_units(
        signed(order.base_asset_amount_filled) as i128,
        decimals,
    );
    crate::decimal::normal_form_stands_for_its_units(
        signed(order.trigger_price) as i128,
        PRICE_DECIMALS,
    );
    crate::decimal::normal_form_stands_for_its_units(
        order.auction_start_price as i128,
        PRICE_DECIMALS,
    );
    crate::decimal::normal_form_stands_for_its_units(
        order.auction_end_price as i128,
        PRICE_DECIMALS,
    );
    crate::decimal::normal_form_stands_for_its_units(
        order.oracle_price_offset as i128,
        PRICE_DECIMALS,
    );
}

/// Fills, funding payments and all that befalls orders have a channel each.
pub proof fn events_keep_to_their_channels(event: DriftEvent)
    ensures
        event.channel() is Fills <==> event is OrderFill,
        event.channel() is Funding <==> event is FundingPayment,
        event.channel() is Orders <==> event is OrderCancel || event is OrderCancelMissing
            || event is OrderExpire || event is OrderCreate,
{
}

/// Which events can be put in figures. A fill of a market that is not listed
/// cannot; for one of its parties that party's side must be given, the market
/// must have no more decimals than a number can, and there must be a number that
/// is its price. A created order must be of a market that is listed with no more
/// decimals than a number can have. The fee of an expired order must have a
/// negative. All other events can.
pub proof fn events_that_have_figures(
    event: DriftEvent,
    program_data: ProgramData,
    address: Pubkey,
)
    ensures
        event is OrderFill ==> {
            let listed = program_data.decimals(
                Market {
                    market_index: event->OrderFill_market_index,
                    market_type: event->market_type,
                },
            );
            let made = event->OrderFill_maker matches Some(key) && key.text@ == address.text@;
            let took = event->OrderFill_taker matches Some(key) && key.text@ == address.text@;
            event.has_figures(program_data, address) <==> {
                &&& listed matches Some(decimals)
                &&& made ==> event->maker_side is Some
                &&& took && !made ==> event->taker_side is Some
                &&& made || took ==> decimals <= MAX_SCALE && crate::decimal::decimal_quotient(
                    signed(event->quote_asset_amount_filled) as i128,
                    PRICE_DECIMALS,
                    signed(event->base_asset_amount_filled) as i128,
                    decimals,
                ) is Some
            }
        },
        event is OrderCreate ==> {
            let listed = program_data.decimals(
                Market {
                    market_index: event->order.market_index,
                    market_type: event->order.market_type,
                },
            );
            event.has_figures(program_data, address) <==> (listed matches Some(decimals)
                && decimals <= MAX_SCALE)
        },
        event is OrderExpire ==> (event.has_figures(program_data, address) <==> event->fee
            != 0x8000_0000_0000_0000),
        event is OrderCancel || event is OrderCancelMissing || event is FundingPayment
            ==> event.has_figures(program_data, address),
{
}

/// Whether a fill can be put in figures depends on nothing but whether its
/// market's decimals are no more than a number can have and whether there is a
/// number that is its price.
pub proof fn fills_that_have_figures(base_amount: u64, quote_amount: u64, decimals: u32)
    ensures
        fill_has_figures(base_amount, quote_amount, decimals) <==> decimals <= MAX_SCALE
            && crate::decimal::decimal_quotient(
            signed(quote_amount) as i128,
            PRICE_DECIMALS,
            signed(base_amount) as i128,
            decimals,
        ) is Some,
{
}

/// A fill of an amount other than zero, in a market that is listed with at most
/// fifteen decimals, and with the sides of its parties given, lacks nothing that
/// it takes to tell anyone of it.
pub proof fn ordinary_fills_can_be_told(
    event: DriftEvent,
    program_data: ProgramData,
    address: Pubkey,
)
    requires
        event is OrderFill,
        event->maker_side is Some,
        event->taker_side is Some,
        event->base_asset_amount_filled != 0,
        program_data.decimals(
            Market {
                market_index: event->OrderFill_market_index,
                market_type: event->market_type,
            },
        ) matches Some(decimals) && decimals <= 15,
    ensures
        event.is_complete(program_data, address),
        event.price_fits(program_data, address),
{
    let decimals = program_data.decimals(
        Market { market_index: event->OrderFill_market_index, market_type: event->market_type },
    ).unwrap();
    prices_fit_up_to_fifteen_decimals(
        event->base_asset_amount_filled,
        event->quote_asset_amount_filled,
        decimals,
    );
}

} // verus!
