//! The typed domain values that results decode into, with their spec-level
//! views and their decoding from the JSON model.
//!
//! Monetary quantities (prices, volumes, amounts) are kept as abstract JSON
//! numbers: the protocol layer never computes with them, it only carries
//! them to the caller.
use crate::api::rest::{get_opt, get_vec, opt_field_spec, seq_field_spec, FromJson};
use crate::json::{
    bool_field, get_bool, get_num, get_str, get_u64, num_field, str_field, u64_field, JsonV,
};
use vstd::prelude::*;

verus! {

/// A pagination continuation token: an opaque `last` token naming where the
/// next page starts, and whether another page exists at all.
#[derive(Debug)]
pub struct Cursor {
    pub last: String,
    pub has_more: bool,
}

/// Spec-level view of `Cursor`.
pub struct CursorV {
    pub last: Seq<char>,
    pub has_more: bool,
}

impl View for Cursor {
    type V = CursorV;

    open spec fn view(&self) -> CursorV {
        CursorV { last: self.last@, has_more: self.has_more }
    }
}

/// An exchange: a venue listing markets.
#[derive(Debug)]
pub struct Exchange {
    pub symbol: String,
    pub name: String,
    pub active: bool,
}

/// Spec-level view of `Exchange`.
pub struct ExchangeV {
    pub symbol: Seq<char>,
    pub name: Seq<char>,
    pub active: bool,
}

impl View for Exchange {
    type V = ExchangeV;

    open spec fn view(&self) -> ExchangeV {
        ExchangeV { symbol: self.symbol@, name: self.name@, active: self.active }
    }
}

impl FromJson for Exchange {
    open spec fn of_json(j: JsonV) -> Option<ExchangeV> {
        match (str_field(j, "symbol"@), str_field(j, "name"@), bool_field(j, "active"@)) {
            (Some(symbol), Some(name), Some(active)) => Some(
                ExchangeV { symbol, name, active },
            ),
            _ => None,
        }
    }

    fn from_json(v: &serde_json::Value) -> (r: Option<Exchange>) {
        let symbol = match get_str(v, "symbol") {
            Some(s) => s,
            None => {
                return None;
            },
        };
        let name = match get_str(v, "name") {
            Some(s) => s,
            None => {
                return None;
            },
        };
        let active = match get_bool(v, "active") {
            Some(b) => b,
            None => {
                return None;
            },
        };
        Some(Exchange { symbol, name, active })
    }
}

/// A market: one trading pair listed on one exchange.
#[derive(Debug)]
pub struct Market {
    pub id: u64,
    pub exchange: String,
    pub pair: String,
    pub active: bool,
}

/// Spec-level view of `Market`.
pub struct MarketV {
    pub id: u64,
    pub exchange: Seq<char>,
    pub pair: Seq<char>,
    pub active: bool,
}

impl View for Market {
    type V = MarketV;

    open spec fn view(&self) -> MarketV {
        MarketV { id: self.id, exchange: self.exchange@, pair: self.pair@, active: self.active }
    }
}

impl FromJson for Market {
    open spec fn of_json(j: JsonV) -> Option<MarketV> {
        match (u64_field(j, "id"@), str_field(j, "exchange"@), str_field(j, "pair"@), bool_field(j, "active"@)) {
            (Some(id), Some(exchange), Some(pair), Some(active)) => Some(
                MarketV { id, exchange, pair, active },
            ),
            _ => None,
        }
    }

    fn from_json(v: &serde_json::Value) -> (r: Option<Market>) {
        let id = match get_u64(v, "id") {
            Some(x) => x,
            None => {
                return None;
            },
        };
        let exchange = match get_str(v, "exchange") {
            Some(s) => s,
            None => {
                return None;
            },
        };
        let pair = match get_str(v, "pair") {
            Some(s) => s,
            None => {
                return None;
            },
        };
        let active = match get_bool(v, "active") {
            Some(b) => b,
            None => {
                return None;
            },
        };
        Some(Market { id, exchange, pair, active })
    }
}

/// One asset of a pair (its base or its quote currency).
#[derive(Debug)]
pub struct Asset {
    pub sid: String,
    pub symbol: String,
    pub name: String,
    pub fiat: bool,
}

/// Spec-level view of `Asset`.
pub struct AssetV {
    pub sid: Seq<char>,
    pub symbol: Seq<char>,
    pub name: Seq<char>,
    pub fiat: bool,
}

impl View for Asset {
    type V = AssetV;

    open spec fn view(&self) -> AssetV {
        AssetV { sid: self.sid@, symbol: self.symbol@, name: self.name@, fiat: self.fiat }
    }
}

impl FromJson for Asset {
    open spec fn of_json(j: JsonV) -> Option<AssetV> {
        match (str_field(j, "sid"@), str_field(j, "symbol"@), str_field(j, "name"@), bool_field(j, "fiat"@)) {
            (Some(sid), Some(symbol), Some(name), Some(fiat)) => Some(
                AssetV { sid, symbol, name, fiat },
            ),
            _ => None,
        }
    }

    fn from_json(v: &serde_json::Value) -> (r: Option<Asset>) {
        let sid = match get_str(v, "sid") {
            Some(s) => s,
            None => {
                return None;
            },
        };
        let symbol = match get_str(v, "symbol") {
            Some(s) => s,
            None => {
                return None;
            },
        };
        let name = match get_str(v, "name") {
            Some(s) => s,
            None => {
                return None;
            },
        };
        let fiat = match get_bool(v, "fiat") {
            Some(b) => b,
            None => {
                return None;
            },
        };
        Some(Asset { sid, symbol, name, fiat })
    }
}

/// A trading pair: a base asset quoted in a quote asset.
#[derive(Debug)]
pub struct Pair {
    pub symbol: String,
    pub base: Option<Asset>,
    pub quote: Option<Asset>,
}

/// Spec-level view of `Pair`.
pub struct PairV {
    pub symbol: Seq<char>,
    pub base: Option<AssetV>,
    pub quote: Option<AssetV>,
}

impl View for Pair {
    type V = PairV;

    open spec fn view(&self) -> PairV {
        PairV {
            symbol: self.symbol@,
            base: match self.base {
                Some(a) => Some(a@),
                None => None,
            },
            quote: match self.quote {
                Some(a) => Some(a@),
                None => None,
            },
        }
    }
}

impl FromJson for Pair {
    open spec fn of_json(j: JsonV) -> Option<PairV> {
        match (str_field(j, "symbol"@), opt_field_spec::<Asset>(j, "base"@), opt_field_spec::<
            Asset,
        >(j, "quote"@)) {
            (Some(symbol), Some(base), Some(quote)) => Some(PairV { symbol, base, quote }),
            _ => None,
        }
    }

    fn from_json(v: &serde_json::Value) -> (r: Option<Pair>) {
        let symbol = match get_str(v, "symbol") {
            Some(s) => s,
            None => {
                return None;
            },
        };
        let base = match get_opt::<Asset>(v, "base") {
            Some(a) => a,
            None => {
                return None;
            },
        };
        let quote = match get_opt::<Asset>(v, "quote") {
            Some(a) => a,
            None => {
                return None;
            },
        };
        Some(Pair { symbol, base, quote })
    }
}

/// The change a summary candle reports, in absolute and percentage terms.
#[derive(Debug)]
pub struct Delta {
    pub percentage: serde_json::Number,
    pub absolute: serde_json::Number,
}

/// Spec-level view of `Delta`.
pub struct DeltaV {
    pub percentage: serde_json::Number,
    pub absolute: serde_json::Number,
}

impl View for Delta {
    type V = DeltaV;

    open spec fn view(&self) -> DeltaV {
        DeltaV { percentage: self.percentage, absolute: self.absolute }
    }
}

impl FromJson for Delta {
    open spec fn of_json(j: JsonV) -> Option<DeltaV> {
        match (num_field(j, "percentage"@), num_field(j, "absolute"@)) {
            (Some(percentage), Some(absolute)) => Some(DeltaV { percentage, absolute }),
            _ => None,
        }
    }

    fn from_json(v: &serde_json::Value) -> (r: Option<Delta>) {
        let percentage = match get_num(v, "percentage") {
            Some(n) => n,
            None => {
                return None;
            },
        };
        let absolute = match get_num(v, "absolute") {
            Some(n) => n,
            None => {
                return None;
            },
        };
        Some(Delta { percentage, absolute })
    }
}

/// A price candle: last, high and low, and optionally the change since the
/// period opened.
#[derive(Debug)]
pub struct Candle {
    pub last: serde_json::Number,
    pub high: serde_json::Number,
    pub low: serde_json::Number,
    pub change: Option<Delta>,
}

/// Spec-level view of `Candle`.
pub struct CandleV {
    pub last: serde_json::Number,
    pub high: serde_json::Number,
    pub low: serde_json::Number,
    pub change: Option<DeltaV>,
}

impl View for Candle {
    type V = CandleV;

    open spec fn view(&self) -> CandleV {
        CandleV {
            last: self.last,
            high: self.high,
            low: self.low,
            change: match self.change {
                Some(d) => Some(d@),
                None => None,
            },
        }
    }
}

impl FromJson for Candle {
    open spec fn of_json(j: JsonV) -> Option<CandleV> {
        match (num_field(j, "last"@), num_field(j, "high"@), num_field(j, "low"@), opt_field_spec::<
            Delta,
        >(j, "change"@)) {
            (Some(last), Some(high), Some(low), Some(change)) => Some(
                CandleV { last, high, low, change },
            ),
            _ => None,
        }
    }

    fn from_json(v: &serde_json::Value) -> (r: Option<Candle>) {
        let last = match get_num(v, "last") {
            Some(n) => n,
            None => {
                return None;
            },
        };
        let high = match get_num(v, "high") {
            Some(n) => n,
            None => {
                return None;
            },
        };
        let low = match get_num(v, "low") {
            Some(n) => n,
            None => {
                return None;
            },
        };
        let change = match get_opt::<Delta>(v, "change") {
            Some(d) => d,
            None => {
                return None;
            },
        };
        Some(Candle { last, high, low, change })
    }
}

/// A market's 24-hour summary: the price candle plus traded volumes.
#[derive(Debug)]
pub struct MarketSummary {
    pub price: Option<Candle>,
    pub volume: serde_json::Number,
    pub volume_quote: serde_json::Number,
}

/// Spec-level view of `MarketSummary`.
pub struct MarketSummaryV {
    pub price: Option<CandleV>,
    pub volume: serde_json::Number,
    pub volume_quote: serde_json::Number,
}

impl View for MarketSummary {
    type V = MarketSummaryV;

    open spec fn view(&self) -> MarketSummaryV {
        MarketSummaryV {
            price: match self.price {
                Some(c) => Some(c@),
                None => None,
            },
            volume: self.volume,
            volume_quote: self.volume_quote,
        }
    }
}

impl FromJson for MarketSummary {
    open spec fn of_json(j: JsonV) -> Option<MarketSummaryV> {
        match (opt_field_spec::<Candle>(j, "price"@), num_field(j, "volume"@), num_field(j, "volumeQuote"@)) {
            (Some(price), Some(volume), Some(volume_quote)) => Some(
                MarketSummaryV { price, volume, volume_quote },
            ),
            _ => None,
        }
    }

    fn from_json(v: &serde_json::Value) -> (r: Option<MarketSummary>) {
        let price = match get_opt::<Candle>(v, "price") {
            Some(c) => c,
            None => {
                return None;
            },
        };
        let volume = match get_num(v, "volume") {
            Some(n) => n,
            None => {
                return None;
            },
        };
        let volume_quote = match get_num(v, "volumeQuote") {
            Some(n) => n,
            None => {
                return None;
            },
        };
        Some(MarketSummary { price, volume, volume_quote })
    }
}

/// A market's current price.
#[derive(Debug)]
pub struct Price {
    pub price: serde_json::Number,
}

/// Spec-level view of `Price`.
pub struct PriceV {
    pub price: serde_json::Number,
}

impl View for Price {
    type V = PriceV;

    open spec fn view(&self) -> PriceV {
        PriceV { price: self.price }
    }
}

impl FromJson for Price {
    open spec fn of_json(j: JsonV) -> Option<PriceV> {
        match num_field(j, "price"@) {
            Some(price) => Some(PriceV { price }),
            None => None,
        }
    }

    fn from_json(v: &serde_json::Value) -> (r: Option<Price>) {
        let price = match get_num(v, "price") {
            Some(n) => n,
            None => {
                return None;
            },
        };
        Some(Price { price })
    }
}

/// One executed trade, as the server reports it (order preserved).
#[derive(Debug)]
pub struct Trade {
    pub id: serde_json::Number,
    pub timestamp: u64,
    pub price: serde_json::Number,
    pub amount: serde_json::Number,
}

/// Spec-level view of `Trade`.
pub struct TradeV {
    pub id: serde_json::Number,
    pub timestamp: u64,
    pub price: serde_json::Number,
    pub amount: serde_json::Number,
}

impl View for Trade {
    type V = TradeV;

    open spec fn view(&self) -> TradeV {
        TradeV {
            id: self.id,
            timestamp: self.timestamp,
            price: self.price,
            amount: self.amount,
        }
    }
}

impl FromJson for Trade {
    open spec fn of_json(j: JsonV) -> Option<TradeV> {
        match (num_field(j, "id"@), u64_field(j, "timestamp"@), num_field(j, "price"@), num_field(j, "amount"@)) {
            (Some(id), Some(timestamp), Some(price), Some(amount)) => Some(
                TradeV { id, timestamp, price, amount },
            ),
            _ => None,
        }
    }

    fn from_json(v: &serde_json::Value) -> (r: Option<Trade>) {
        let id = match get_num(v, "id") {
            Some(n) => n,
            None => {
                return None;
            },
        };
        let timestamp = match get_u64(v, "timestamp") {
            Some(x) => x,
            None => {
                return None;
            },
        };
        let price = match get_num(v, "price") {
            Some(n) => n,
            None => {
                return None;
            },
        };
        let amount = match get_num(v, "amount") {
            Some(n) => n,
            None => {
                return None;
            },
        };
        Some(Trade { id, timestamp, price, amount })
    }
}

/// One price level of an order book side.
#[derive(Debug)]
pub struct Level {
    pub price: serde_json::Number,
    pub amount: serde_json::Number,
}

/// Spec-level view of `Level`.
pub struct LevelV {
    pub price: serde_json::Number,
    pub amount: serde_json::Number,
}

impl View for Level {
    type V = LevelV;

    open spec fn view(&self) -> LevelV {
        LevelV { price: self.price, amount: self.amount }
    }
}

impl Clone for Level {
    fn clone(&self) -> (r: Self)
        ensures
            r == *self,
    {
        Level { price: self.price.clone(), amount: self.amount.clone() }
    }
}

impl FromJson for Level {
    open spec fn of_json(j: JsonV) -> Option<LevelV> {
        match (num_field(j, "price"@), num_field(j, "amount"@)) {
            (Some(price), Some(amount)) => Some(LevelV { price, amount }),
            _ => None,
        }
    }

    fn from_json(v: &serde_json::Value) -> (r: Option<Level>) {
        let price = match get_num(v, "price") {
            Some(n) => n,
            None => {
                return None;
            },
        };
        let amount = match get_num(v, "amount") {
            Some(n) => n,
            None => {
                return None;
            },
        };
        Some(Level { price, amount })
    }
}

/// An order book snapshot: asks and bids, each already sorted by the remote
/// service with the best price first; no client-side sorting is performed.
#[derive(Debug)]
pub struct Orderbook {
    pub seq_num: u64,
    pub asks: Vec<Level>,
    pub bids: Vec<Level>,
}

/// Spec-level view of `Orderbook`.
pub struct OrderbookV {
    pub seq_num: u64,
    pub asks: Seq<LevelV>,
    pub bids: Seq<LevelV>,
}

impl View for Orderbook {
    type V = OrderbookV;

    open spec fn view(&self) -> OrderbookV {
        OrderbookV {
            seq_num: self.seq_num,
            asks: self.asks@.map_values(|l: Level| l@),
            bids: self.bids@.map_values(|l: Level| l@),
        }
    }
}

impl FromJson for Orderbook {
    open spec fn of_json(j: JsonV) -> Option<OrderbookV> {
        match (u64_field(j, "seqNum"@), seq_field_spec::<Level>(j, "asks"@), seq_field_spec::<
            Level,
        >(j, "bids"@)) {
            (Some(seq_num), Some(asks), Some(bids)) => Some(OrderbookV { seq_num, asks, bids }),
            _ => None,
        }
    }

    fn from_json(v: &serde_json::Value) -> (r: Option<Orderbook>) {
        let seq_num = match get_u64(v, "seqNum") {
            Some(x) => x,
            None => {
                return None;
            },
        };
        let asks = match get_vec::<Level>(v, "asks") {
            Some(ls) => ls,
            None => {
                return None;
            },
        };
        let bids = match get_vec::<Level>(v, "bids") {
            Some(ls) => ls,
            None => {
                return None;
            },
        };
        Some(Orderbook { seq_num, asks, bids })
    }
}

impl Orderbook {
    /// The top-of-book ask: the first ask level, `None` when the ask side is
    /// empty.
    pub fn top_ask(&self) -> (r: Option<Level>)
        ensures
            self.asks@.len() == 0 ==> r is None,
            self.asks@.len() > 0 ==> (r matches Some(l) && l@ == self@.asks[0]),
    {
        if self.asks.len() > 0 {
            Some(self.asks[0].clone())
        } else {
            None
        }
    }

    /// The top-of-book bid: the first bid level, `None` when the bid side is
    /// empty.
    pub fn top_bid(&self) -> (r: Option<Level>)
        ensures
            self.bids@.len() == 0 ==> r is None,
            self.bids@.len() > 0 ==> (r matches Some(l) && l@ == self@.bids[0]),
    {
        if self.bids.len() > 0 {
            Some(self.bids[0].clone())
        } else {
            None
        }
    }
}

} // verus!
