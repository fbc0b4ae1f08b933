//! Handler registry, connection setup, and the per-frame dispatch
//! decisions of the event loop.
//!
//! The loop itself blocks on a transport channel, which is outside this
//! core: the surrounding program reads one frame at a time and drives
//! `plan_cycle` and `dispatch` with the values it read and decoded.

use vstd::prelude::*;
use vstd::string::StrSliceExecFns;
use vstd::string::StringExecFns;
use crate::classify::EventCategory;
use crate::classify::classify;
use crate::classify::spec_classify;
use crate::errors::WsError;
use crate::events::AccountUpdateEvent;
use crate::events::AggTradeEvent;
use crate::events::DecodedEvent;
use crate::events::DepthDiffEvent;
use crate::events::KlineEvent;
use crate::events::OrderBook;
use crate::events::OrderTradeEvent;
use crate::events::TradeEvent;

verus! {

/// Capability set of the user-stream handler group.
pub trait UserStreamEventHandler {
    fn account_update_handler(&self, event: &AccountUpdateEvent);

    fn order_trade_handler(&self, event: &OrderTradeEvent);
}

/// Capability set of the market handler group.
pub trait MarketEventHandler {
    fn aggregated_trades_handler(&self, event: &AggTradeEvent);

    fn trade_handler(&self, event: &TradeEvent);

    fn partial_orderbook_handler(&self, orderbook: &OrderBook);

    fn depth_diff_handler(&self, event: &DepthDiffEvent);
}

/// Capability set of the kline handler group.
pub trait KlineEventHandler {
    fn kline_handler(&self, event: &KlineEvent);
}

/// Outcome of one dispatch attempt: whether a handler method was invoked.
#[derive(Clone, Copy, Debug, PartialEq, Eq, Structural)]
pub enum Delivery {
    Invoked,
    NoHandler,
}

/// Decision for one cycle of the event loop, made from the outcome of the
/// blocking channel read.
#[derive(Debug, Clone, PartialEq, Eq)]
pub enum CyclePlan {
    /// The read failed: the loop terminates with this error.
    Terminate(WsError),
    /// The payload matched no marker: it is dropped, the loop continues.
    Ignore,
    /// The payload is to be decoded as the given category, then delivered.
    Decode(EventCategory, String),
}

/// The fixed base of every stream address.
pub open spec fn spec_base_url() -> Seq<char> {
    "wss://stream.binance.com:9443/ws/"@
}

/// The target address for a caller-supplied stream path: the fixed base
/// with the path appended.
pub open spec fn spec_target_address(endpoint: Seq<char>) -> Seq<char> {
    spec_base_url() + endpoint
}

/// Whether the address parser accepts a piece of text as an absolute URL.
pub uninterp spec fn url_accepts(address: Seq<char>) -> bool;

/// Relies on url::Url::parse: whether a string parses as an absolute URL
/// is a function of its text alone.
#[verifier::external_body]
fn parse_address(address: &str) -> (r: bool)
    ensures
        r == url_accepts(address@),
{
    url::Url::parse(address).is_ok()
}

/// The client core: at most one handler per group, and the stream address
/// once a connection has been established.
pub struct WebSockets<U, M, K> {
    pub endpoint: Option<String>,
    pub user_stream_handler: Option<U>,
    pub market_handler: Option<M>,
    pub kline_handler: Option<K>,
}

impl<U: UserStreamEventHandler, M: MarketEventHandler, K: KlineEventHandler> WebSockets<U, M, K> {
    /// `self` with the user-stream slot replaced.
    pub open spec fn with_user_stream(self, handler: U) -> Self {
        WebSockets { user_stream_handler: Some(handler), ..self }
    }

    /// `self` with the market slot replaced.
    pub open spec fn with_market(self, handler: M) -> Self {
        WebSockets { market_handler: Some(handler), ..self }
    }

    /// `self` with the kline slot replaced.
    pub open spec fn with_kline(self, handler: K) -> Self {
        WebSockets { kline_handler: Some(handler), ..self }
    }

    /// Whether a handler is registered for the group that serves the given
    /// category. `Unknown` belongs to no group.
    pub open spec fn spec_has_handler(self, category: EventCategory) -> bool {
        match category {
            EventCategory::AccountUpdate => self.user_stream_handler is Some,
            EventCategory::OrderTrade => self.user_stream_handler is Some,
            EventCategory::AggregatedTrade => self.market_handler is Some,
            EventCategory::Trade => self.market_handler is Some,
            EventCategory::PartialOrderBook => self.market_handler is Some,
            EventCategory::DepthDiff => self.market_handler is Some,
            EventCategory::Kline => self.kline_handler is Some,
            EventCategory::Unknown => false,
        }
    }

    /// Whether a connection has been established.
    pub open spec fn spec_is_connected(self) -> bool {
        self.endpoint is Some
    }

    /// A fresh client: unconnected, with no handler registered.
    pub fn new() -> (ws: Self)
        ensures
            ws.endpoint is None,
            ws.user_stream_handler is None,
            ws.market_handler is None,
            ws.kline_handler is None,
    {
        WebSockets {
            endpoint: None,
            user_stream_handler: None,
            market_handler: None,
            kline_handler: None,
        }
    }

    /// Whether a connection has been established.
    pub fn is_connected(&self) -> (b: bool)
        ensures
            b == self.spec_is_connected(),
    {
        self.endpoint.is_some()
    }

    /// Establish the connection state for a caller-supplied stream path.
    ///
    /// Builds the target address by appending the path to the fixed base,
    /// and accepts it exactly when the address parser does. On success the
    /// client records the address and returns it, for the caller to open
    /// the transport with; on failure nothing changes. The handler slots
    /// are never touched.
    pub fn connect(&mut self, endpoint: String) -> (r: Result<String, WsError>)
        ensures
            r is Ok <==> url_accepts(spec_target_address(endpoint@)),
            r matches Ok(address) ==> {
                &&& address@ == spec_target_address(endpoint@)
                &&& final(self).endpoint == Some(address)
            },
            r is Err ==> *final(self) == *old(self),
            r matches Err(e) ==> e matches WsError::Connection(_),
            final(self).user_stream_handler == old(self).user_stream_handler,
            final(self).market_handler == old(self).market_handler,
            final(self).kline_handler == old(self).kline_handler,
    {
        let mut address = String::from_str("wss://stream.binance.com:9443/ws/");
        address.append(endpoint.as_str());
        if parse_address(address.as_str()) {
            self.endpoint = Some(address.clone());
            Ok(address)
        } else {
            Err(WsError::Connection(String::from_str("malformed stream address")))
        }
    }

    /// Register the handler for the user-stream group, replacing any prior
    /// one. The other slots and the connection state are untouched.
    pub fn add_user_stream_handler(&mut self, handler: U)
        ensures
            *final(self) == (*old(self)).with_user_stream(handler),
    {
        self.user_stream_handler = Some(handler);
    }

    /// Register the handler for the market group, replacing any prior one.
    /// The other slots and the connection state are untouched.
    pub fn add_market_handler(&mut self, handler: M)
        ensures
            *final(self) == (*old(self)).with_market(handler),
    {
        self.market_handler = Some(handler);
    }

    /// Register the handler for the kline group, replacing any prior one.
    /// The other slots and the connection state are untouched.
    pub fn add_kline_handler(&mut self, handler: K)
        ensures
            *final(self) == (*old(self)).with_kline(handler),
    {
        self.kline_handler = Some(handler);
    }

    /// Deliver a decoded event to the handler of its category's group.
    ///
    /// The matching capability method is invoked synchronously, exactly
    /// once, with a read-only reference to the event; if the group has no
    /// handler, nothing is invoked and that is not an error.
    pub fn dispatch(&self, event: &DecodedEvent) -> (d: Delivery)
        ensures
            d == (if self.spec_has_handler(event.spec_category()) {
                Delivery::Invoked
            } else {
                Delivery::NoHandler
            }),
    {
        match event {
            DecodedEvent::AccountUpdate(e) => match &self.user_stream_handler {
                Some(h) => {
                    h.account_update_handler(e);
                    Delivery::Invoked
                },
                None => Delivery::NoHandler,
            },
            DecodedEvent::OrderTrade(e) => match &self.user_stream_handler {
                Some(h) => {
                    h.order_trade_handler(e);
                    Delivery::Invoked
                },
                None => Delivery::NoHandler,
            },
            DecodedEvent::AggregatedTrade(e) => match &self.market_handler {
                Some(h) => {
                    h.aggregated_trades_handler(e);
                    Delivery::Invoked
                },
                None => Delivery::NoHandler,
            },
            DecodedEvent::Trade(e) => match &self.market_handler {
                Some(h) => {
                    h.trade_handler(e);
                    Delivery::Invoked
                },
                None => Delivery::NoHandler,
            },
            DecodedEvent::PartialOrderBook(e) => match &self.market_handler {
                Some(h) => {
                    h.partial_orderbook_handler(e);
                    Delivery::Invoked
                },
                None => Delivery::NoHandler,
            },
            DecodedEvent::DepthDiff(e) => match &self.market_handler {
                Some(h) => {
                    h.depth_diff_handler(e);
                    Delivery::Invoked
                },
                None => Delivery::NoHandler,
            },
            DecodedEvent::Kline(e) => match &self.kline_handler {
                Some(h) => {
                    h.kline_handler(e);
                    Delivery::Invoked
                },
                None => Delivery::NoHandler,
            },
        }
    }
}

/// Registering twice for the market group leaves exactly the state of the
/// second registration alone: the later handler wins, and nothing else of
/// the client changes.
pub proof fn lemma_registration_replaces<
    U: UserStreamEventHandler,
    M: MarketEventHandler,
    K: KlineEventHandler,
>(ws: WebSockets<U, M, K>, first: M, second: M)
    ensures
        ws.with_market(first).with_market(second) == ws.with_market(second),
{
}

/// Decide one cycle of the event loop from the outcome of the blocking
/// channel read.
///
/// A failed read is fatal: the loop terminates with a channel-read error
/// carrying the reason. A payload with no marker is dropped without
/// decoding. Any other payload is to be decoded as its category.
pub fn plan_cycle(read: Result<String, String>) -> (p: CyclePlan)
    ensures
        read matches Err(reason) ==> p == CyclePlan::Terminate(WsError::ChannelRead(reason)),
        read matches Ok(msg) ==> {
            &&& spec_classify(msg@) == EventCategory::Unknown ==> p == CyclePlan::Ignore
            &&& spec_classify(msg@) != EventCategory::Unknown ==> p == CyclePlan::Decode(
                spec_classify(msg@),
                msg,
            )
        },
{
    match read {
        Err(reason) => CyclePlan::Terminate(WsError::ChannelRead(reason)),
        Ok(msg) => {
            let category = classify(msg.as_str());
            if category == EventCategory::Unknown {
                CyclePlan::Ignore
            } else {
                CyclePlan::Decode(category, msg)
            }
        },
    }
}

} // verus!
