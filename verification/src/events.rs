//! Typed event records, one per event category.
//!
//! Each record is an immutable decoded snapshot of one inbound frame. The
//! external codec produces these values; the dispatch layer hands them to
//! the registered handler and discards them. Quoted decimal quantities stay
//! as text: this core does not interpret them.

use vstd::prelude::*;
use crate::classify::EventCategory;

verus! {

/// One asset balance inside an account update.
#[derive(Debug, Clone)]
pub struct Balance {
    pub asset: String,
    pub free: String,
    pub locked: String,
}

/// Snapshot of the account's balances.
#[derive(Debug, Clone)]
pub struct AccountUpdateEvent {
    pub event_type: String,
    pub event_time: u64,
    pub balances: Vec<Balance>,
}

/// Execution report for one of the account's orders.
#[derive(Debug, Clone)]
pub struct OrderTradeEvent {
    pub event_type: String,
    pub event_time: u64,
    pub symbol: String,
    pub side: String,
    pub order_type: String,
    pub qty: String,
    pub price: String,
    pub execution_type: String,
    pub order_status: String,
    pub order_id: u64,
}

/// A trade aggregated over orders filled at one price.
#[derive(Debug, Clone)]
pub struct AggTradeEvent {
    pub event_type: String,
    pub event_time: u64,
    pub symbol: String,
    pub aggregated_trade_id: u64,
    pub price: String,
    pub qty: String,
    pub first_trade_id: u64,
    pub last_trade_id: u64,
    pub trade_time: u64,
    pub is_buyer_maker: bool,
}

/// A single raw trade.
#[derive(Debug, Clone)]
pub struct TradeEvent {
    pub event_type: String,
    pub event_time: u64,
    pub symbol: String,
    pub trade_id: u64,
    pub price: String,
    pub qty: String,
    pub buyer_order_id: u64,
    pub seller_order_id: u64,
    pub trade_time: u64,
    pub is_buyer_maker: bool,
}

/// One candlestick of a kline event.
#[derive(Debug, Clone)]
pub struct Kline {
    pub start_time: u64,
    pub end_time: u64,
    pub symbol: String,
    pub interval: String,
    pub open: String,
    pub high: String,
    pub low: String,
    pub close: String,
    pub volume: String,
    pub is_final_bar: bool,
}

/// A candlestick update for one symbol and interval.
#[derive(Debug, Clone)]
pub struct KlineEvent {
    pub event_type: String,
    pub event_time: u64,
    pub symbol: String,
    pub kline: Kline,
}

/// One price level of an order book side.
#[derive(Debug, Clone)]
pub struct OrderBookEntry {
    pub price: String,
    pub qty: String,
}

/// Partial snapshot of the order book.
#[derive(Debug, Clone)]
pub struct OrderBook {
    pub last_update_id: u64,
    pub bids: Vec<OrderBookEntry>,
    pub asks: Vec<OrderBookEntry>,
}

/// Incremental difference of the order book.
#[derive(Debug, Clone)]
pub struct DepthDiffEvent {
    pub event_type: String,
    pub event_time: u64,
    pub symbol: String,
    pub first_update_id: u64,
    pub last_update_id: u64,
    pub bids: Vec<OrderBookEntry>,
    pub asks: Vec<OrderBookEntry>,
}

/// A decoded event of any known category, as produced by the external
/// codec. There is no variant for `Unknown`: unknown payloads are dropped
/// before decoding.
#[derive(Debug, Clone)]
pub enum DecodedEvent {
    AccountUpdate(AccountUpdateEvent),
    OrderTrade(OrderTradeEvent),
    AggregatedTrade(AggTradeEvent),
    Trade(TradeEvent),
    Kline(KlineEvent),
    PartialOrderBook(OrderBook),
    DepthDiff(DepthDiffEvent),
}

impl DecodedEvent {
    /// The category a decoded event belongs to; never `Unknown`.
    pub open spec fn spec_category(self) -> EventCategory {
        match self {
            DecodedEvent::AccountUpdate(_) => EventCategory::AccountUpdate,
            DecodedEvent::OrderTrade(_) => EventCategory::OrderTrade,
            DecodedEvent::AggregatedTrade(_) => EventCategory::AggregatedTrade,
            DecodedEvent::Trade(_) => EventCategory::Trade,
            DecodedEvent::Kline(_) => EventCategory::Kline,
            DecodedEvent::PartialOrderBook(_) => EventCategory::PartialOrderBook,
            DecodedEvent::DepthDiff(_) => EventCategory::DepthDiff,
        }
    }

    /// The category a decoded event belongs to.
    pub fn category(&self) -> (c: EventCategory)
        ensures
            c == self.spec_category(),
            c != EventCategory::Unknown,
    {
        match self {
            DecodedEvent::AccountUpdate(_) => EventCategory::AccountUpdate,
            DecodedEvent::OrderTrade(_) => EventCategory::OrderTrade,
            DecodedEvent::AggregatedTrade(_) => EventCategory::AggregatedTrade,
            DecodedEvent::Trade(_) => EventCategory::Trade,
            DecodedEvent::Kline(_) => EventCategory::Kline,
            DecodedEvent::PartialOrderBook(_) => EventCategory::PartialOrderBook,
            DecodedEvent::DepthDiff(_) => EventCategory::DepthDiff,
        }
    }
}

} // verus!
