//! What the gateway reads of the exchange: its markets, orders, events and
//! order books.
use vstd::prelude::*;

verus! {

/// Digits behind the point of prices, fees and quote amounts.
pub const PRICE_DECIMALS: u32 = 6;

#[derive(Clone, Copy, Debug, PartialEq, Eq, Structural)]
pub enum MarketType {
    Perp,
    Spot,
}

#[derive(Clone, Copy, Debug, PartialEq, Eq, Structural)]
pub enum OrderType {
    Market,
    Limit,
    TriggerMarket,
    TriggerLimit,
    Oracle,
}

#[derive(Clone, Copy, Debug, PartialEq, Eq, Structural)]
pub enum PositionDirection {
    Long,
    Short,
}

/// A market of the exchange. Perp and spot markets are numbered apart.
#[derive(Clone, Copy, Debug, PartialEq, Eq, Structural)]
pub struct Market {
    pub market_index: u16,
    pub market_type: MarketType,
}

impl Market {
    pub fn new(market_index: u16, market_type: MarketType) -> (market: Market)
        ensures
            market == (Market { market_index, market_type }),
    {
        Market { market_index, market_type }
    }
}

/// Digits behind the point of the base amounts of one market.
#[derive(Clone, Copy, Debug, PartialEq, Eq, Structural)]
pub struct MarketConfig {
    pub market: Market,
    pub decimals: u32,
}

/// The markets that the exchange is known to have.
#[derive(Debug)]
pub struct ProgramData {
    pub markets: Vec<MarketConfig>,
}

/// The decimals of `market`: those of its first entry.
pub open spec fn decimals_in(markets: Seq<MarketConfig>, market: Market) -> Option<u32>
    decreases markets.len(),
{
    if markets.len() == 0 {
        None
    } else if markets[0].market == market {
        Some(markets[0].decimals)
    } else {
        decimals_in(markets.drop_first(), market)
    }
}

impl ProgramData {
    /// The decimals of `market`, `None` for a market that is not known.
    pub open spec fn decimals(self, market: Market) -> Option<u32> {
        decimals_in(self.markets@, market)
    }

    /// The decimals of `market`, `None` for a market that is not known.
    pub fn market_decimals(&self, market: Market) -> (decimals: Option<u32>)
        ensures
            decimals == self.decimals(market),
    {
        let mut i: usize = 0;
        assert(self.markets@.skip(0) =~= self.markets@);
        while i < self.markets.len()
            invariant
                i <= self.markets.len(),
                decimals_in(self.markets@, market) == decimals_in(
                    self.markets@.skip(i as int),
                    market,
                ),
            decreases self.markets.len() - i,
        {
            assert(self.markets@.skip(i as int).drop_first() =~= self.markets@.skip(i + 1));
            if self.markets[i].market == market {
                return Some(self.markets[i].decimals);
            }
            i += 1;
        }
        None
    }
}

/// The decimals of a market that is known.
pub fn get_market_decimals(program_data: &ProgramData, market: Market) -> (decimals: u32)
    requires
        program_data.decimals(market) is Some,
    ensures
        Some(decimals) == program_data.decimals(market),
{
    program_data.market_decimals(market).unwrap()
}

/// An account on the exchange, by the base-58 text of its public key. Every key
/// has one text and no two keys share one, so two accounts are the same where
/// their texts are.
#[derive(Debug)]
pub struct Pubkey {
    pub text: String,
}

impl Pubkey {
    /// `account` is there and is the account at `address`.
    pub open spec fn is_at(account: Option<Pubkey>, address: Pubkey) -> bool {
        account matches Some(key) && key.text@ == address.text@
    }

    /// The text of an account, where there is one.
    pub open spec fn text_of(account: Option<Pubkey>) -> Option<String> {
        match account {
            Some(key) => Some(key.text),
            None => None,
        }
    }
}

/// Whether `account` is there and is the account at `address`.
pub fn account_is_at(account: &Option<Pubkey>, address: &Pubkey) -> (result: bool)
    ensures
        result == Pubkey::is_at(*account, *address),
{
    match account {
        Some(key) => key.text == address.text,
        None => false,
    }
}

/// The text of an account, where there is one.
pub fn account_text(account: &Option<Pubkey>) -> (text: Option<String>)
    ensures
        text == Pubkey::text_of(*account),
{
    match account {
        Some(key) => Some(key.text.clone()),
        None => None,
    }
}

/// An account is told apart from others by its text alone, and what is not there
/// is no account's.
pub proof fn accounts_are_known_by_their_texts(key: Pubkey, address: Pubkey)
    ensures
        Pubkey::is_at(Some(key), address) <==> key.text@ == address.text@,
        !Pubkey::is_at(None, address),
        Pubkey::text_of(Some(key)) matches Some(text) && text@ == key.text@,
        Pubkey::text_of(None) is None,
{
}

/// A market that is listed has the decimals of the first entry that bears both
/// its index and its type.
pub proof fn market_is_found_at_its_first_entry(
    program_data: ProgramData,
    market: Market,
    i: int,
)
    requires
        0 <= i < program_data.markets@.len(),
        program_data.markets@[i].market.market_index == market.market_index,
        program_data.markets@[i].market.market_type == market.market_type,
        forall|j: int|
            0 <= j < i ==> (#[trigger] program_data.markets@[j]).market.market_index
                != market.market_index || program_data.markets@[j].market.market_type
                != market.market_type,
    ensures
        program_data.decimals(market) == Some(program_data.markets@[i].decimals),
{
    lemma_skips_other_markets(program_data.markets@, market, i);
    let rest = program_data.markets@.skip(i);
    assert(rest[0] == program_data.markets@[i]);
}

/// A market is known if and only if an entry bears both its index and its type.
pub proof fn only_listed_markets_are_known(program_data: ProgramData, market: Market)
    ensures
        program_data.decimals(market) is Some <==> exists|i: int|
            0 <= i < program_data.markets@.len() && (
            #[trigger] program_data.markets@[i]).market.market_index == market.market_index
                && program_data.markets@[i].market.market_type == market.market_type,
{
    let markets = program_data.markets@;
    if exists|i: int|
        0 <= i < markets.len() && (#[trigger] markets[i]).market.market_index
            == market.market_index && markets[i].market.market_type == market.market_type {
        lemma_listed_is_found(markets, market);
    } else {
        assert forall|j: int| 0 <= j < markets.len() implies (
        #[trigger] markets[j]).market.market_index != market.market_index
            || markets[j].market.market_type != market.market_type by {}
        lemma_skips_other_markets(markets, market, markets.len() as int);
    }
}

/// Entries of other markets do not matter.
proof fn lemma_skips_other_markets(markets: Seq<MarketConfig>, market: Market, n: int)
    requires
        0 <= n <= markets.len(),
        forall|j: int|
            0 <= j < n ==> (#[trigger] markets[j]).market.market_index != market.market_index
                || markets[j].market.market_type != market.market_type,
    ensures
        decimals_in(markets, market) == decimals_in(markets.skip(n), market),
    decreases n,
{
    if n == 0 {
        assert(markets.skip(0) =~= markets);
    } else {
        let rest = markets.drop_first();
        assert(markets[0].market != market);
        assert forall|j: int| 0 <= j < n - 1 implies (#[trigger] rest[j]).market.market_index
            != market.market_index || rest[j].market.market_type != market.market_type by {
            assert(rest[j] == markets[j + 1]);
        }
        lemma_skips_other_markets(rest, market, n - 1);
        assert(rest.skip(n - 1) =~= markets.skip(n));
    }
}

/// A market with an entry is found.
proof fn lemma_listed_is_found(markets: Seq<MarketConfig>, market: Market)
    requires
        exists|i: int|
            0 <= i < markets.len() && (#[trigger] markets[i]).market.market_index
                == market.market_index && markets[i].market.market_type == market.market_type,
    ensures
        decimals_in(markets, market) is Some,
    decreases markets.len(),
{
    let i = choose|i: int|
        0 <= i < markets.len() && (#[trigger] markets[i]).market.market_index
            == market.market_index && markets[i].market.market_type == market.market_type;
    if markets[0].market != market {
        let rest = markets.drop_first();
        assert(i > 0);
        assert(rest[i - 1] == markets[i]);
        lemma_listed_is_found(rest, market);
    }
}

/// An order as the exchange keeps it, in whole units.
#[derive(Clone, Copy, Debug)]
pub struct Order {
    pub slot: u64,
    pub price: u64,
    pub base_asset_amount: u64,
    pub base_asset_amount_filled: u64,
    pub trigger_price: u64,
    pub auction_start_price: i64,
    pub auction_end_price: i64,
    pub max_ts: i64,
    pub oracle_price_offset: i32,
    pub order_id: u32,
    pub market_index: u16,
    pub order_type: OrderType,
    pub market_type: MarketType,
    pub user_order_id: u8,
    pub direction: PositionDirection,
    pub reduce_only: bool,
    pub post_only: bool,
    pub immediate_or_cancel: bool,
    pub auction_duration: u8,
}

/// What the exchange reports of an account's transactions.
#[derive(Debug)]
pub enum DriftEvent {
    OrderFill {
        maker: Option<Pubkey>,
        maker_fee: i64,
        maker_order_id: u32,
        maker_side: Option<PositionDirection>,
        taker: Option<Pubkey>,
        taker_fee: u64,
        taker_order_id: u32,
        taker_side: Option<PositionDirection>,
        base_asset_amount_filled: u64,
        quote_asset_amount_filled: u64,
        oracle_price: i64,
        market_index: u16,
        market_type: MarketType,
        signature: String,
        tx_idx: usize,
        ts: u64,
    },
    OrderCancel {
        taker: Option<Pubkey>,
        maker: Option<Pubkey>,
        taker_order_id: u32,
        maker_order_id: u32,
        signature: String,
        tx_idx: usize,
        ts: u64,
    },
    OrderCancelMissing { user_order_id: u8, order_id: u32, signature: String },
    OrderExpire { order_id: u32, fee: u64, ts: u64, signature: String },
    OrderCreate { order: Order, ts: u64, signature: String, tx_idx: usize },
    FundingPayment { amount: i64, market_index: u16, ts: u64, signature: String, tx_idx: usize },
}

/// One price level of an order book, in whole units.
#[derive(Clone, Copy, Debug, PartialEq, Eq, Structural)]
pub struct L2Level {
    pub price: i64,
    pub size: i64,
}

/// An order book at some slot, best levels first.
#[derive(Debug)]
pub struct L2Orderbook {
    pub slot: u64,
    pub bids: Vec<L2Level>,
    pub asks: Vec<L2Level>,
}

} // verus!
