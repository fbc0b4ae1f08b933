use std::cell::RefCell;
use std::rc::Rc;

use binance_ws::events::{
    AccountUpdateEvent, AggTradeEvent, DecodedEvent, DepthDiffEvent, KlineEvent, OrderBook,
    OrderTradeEvent, TradeEvent,
};
use binance_ws::websockets::{
    Delivery, KlineEventHandler, MarketEventHandler, UserStreamEventHandler, WebSockets,
};

struct SilentUser;

impl UserStreamEventHandler for SilentUser {
    fn account_update_handler(&self, _event: &AccountUpdateEvent) {}
    fn order_trade_handler(&self, _event: &OrderTradeEvent) {}
}

struct SilentKline;

impl KlineEventHandler for SilentKline {
    fn kline_handler(&self, _event: &KlineEvent) {}
}

/// Market handler that records which instance handled which event kind.
struct RecordingMarket {
    id: u32,
    log: Rc<RefCell<Vec<String>>>,
}

impl MarketEventHandler for RecordingMarket {
    fn aggregated_trades_handler(&self, event: &AggTradeEvent) {
        self.log.borrow_mut().push(format!("{}:agg:{}", self.id, event.symbol));
    }
    fn trade_handler(&self, event: &TradeEvent) {
        self.log.borrow_mut().push(format!("{}:trade:{}", self.id, event.symbol));
    }
    fn partial_orderbook_handler(&self, orderbook: &OrderBook) {
        self.log.borrow_mut().push(format!("{}:book:{}", self.id, orderbook.last_update_id));
    }
    fn depth_diff_handler(&self, event: &DepthDiffEvent) {
        self.log.borrow_mut().push(format!("{}:depth:{}", self.id, event.symbol));
    }
}

fn trade_event(symbol: &str) -> TradeEvent {
    TradeEvent {
        event_type: "trade".to_string(),
        event_time: 123456789,
        symbol: symbol.to_string(),
        trade_id: 12345,
        price: "0.001".to_string(),
        qty: "100".to_string(),
        buyer_order_id: 88,
        seller_order_id: 50,
        trade_time: 123456785,
        is_buyer_maker: true,
    }
}

#[test]
fn new_client_has_no_handlers_and_is_unconnected() {
    let ws: WebSockets<SilentUser, RecordingMarket, SilentKline> = WebSockets::new();
    assert!(!ws.is_connected());
    assert!(ws.endpoint.is_none());
    assert!(ws.user_stream_handler.is_none());
    assert!(ws.market_handler.is_none());
    assert!(ws.kline_handler.is_none());
}

#[test]
fn second_registration_replaces_the_first() {
    let log = Rc::new(RefCell::new(Vec::new()));
    let mut ws: WebSockets<SilentUser, RecordingMarket, SilentKline> = WebSockets::new();
    ws.add_market_handler(RecordingMarket { id: 1, log: Rc::clone(&log) });
    ws.add_market_handler(RecordingMarket { id: 2, log: Rc::clone(&log) });

    let d = ws.dispatch(&DecodedEvent::Trade(trade_event("BNBBTC")));
    assert_eq!(d, Delivery::Invoked);
    // Only the second handler's method ran.
    assert_eq!(*log.borrow(), vec!["2:trade:BNBBTC".to_string()]);
}

#[test]
fn no_handler_means_no_invocation_and_no_crash() {
    let ws: WebSockets<SilentUser, RecordingMarket, SilentKline> = WebSockets::new();
    let d = ws.dispatch(&DecodedEvent::Trade(trade_event("BNBBTC")));
    assert_eq!(d, Delivery::NoHandler);
}

#[test]
fn registration_keeps_the_other_slots() {
    let log = Rc::new(RefCell::new(Vec::new()));
    let mut ws: WebSockets<SilentUser, RecordingMarket, SilentKline> = WebSockets::new();
    ws.add_user_stream_handler(SilentUser);
    ws.add_market_handler(RecordingMarket { id: 7, log: Rc::clone(&log) });
    ws.add_kline_handler(SilentKline);
    assert!(ws.user_stream_handler.is_some());
    assert!(ws.market_handler.is_some());
    assert!(ws.kline_handler.is_some());

    // Replacing one group leaves the others registered.
    ws.add_market_handler(RecordingMarket { id: 8, log: Rc::clone(&log) });
    assert!(ws.user_stream_handler.is_some());
    assert!(ws.kline_handler.is_some());
    let d = ws.dispatch(&DecodedEvent::Trade(trade_event("ETHBTC")));
    assert_eq!(d, Delivery::Invoked);
    assert_eq!(*log.borrow(), vec!["8:trade:ETHBTC".to_string()]);
}

#[test]
fn market_handler_serves_all_four_market_categories() {
    let log = Rc::new(RefCell::new(Vec::new()));
    let mut ws: WebSockets<SilentUser, RecordingMarket, SilentKline> = WebSockets::new();
    ws.add_market_handler(RecordingMarket { id: 1, log: Rc::clone(&log) });

    let agg = AggTradeEvent {
        event_type: "aggTrade".to_string(),
        event_time: 123456789,
        symbol: "BNBBTC".to_string(),
        aggregated_trade_id: 12345,
        price: "0.001".to_string(),
        qty: "100".to_string(),
        first_trade_id: 100,
        last_trade_id: 105,
        trade_time: 123456785,
        is_buyer_maker: true,
    };
    let book = OrderBook { last_update_id: 160, bids: Vec::new(), asks: Vec::new() };
    let depth = DepthDiffEvent {
        event_type: "depthUpdate".to_string(),
        event_time: 123456789,
        symbol: "BNBBTC".to_string(),
        first_update_id: 157,
        last_update_id: 160,
        bids: Vec::new(),
        asks: Vec::new(),
    };

    assert_eq!(ws.dispatch(&DecodedEvent::AggregatedTrade(agg)), Delivery::Invoked);
    assert_eq!(ws.dispatch(&DecodedEvent::Trade(trade_event("BNBBTC"))), Delivery::Invoked);
    assert_eq!(ws.dispatch(&DecodedEvent::PartialOrderBook(book)), Delivery::Invoked);
    assert_eq!(ws.dispatch(&DecodedEvent::DepthDiff(depth)), Delivery::Invoked);
    assert_eq!(
        *log.borrow(),
        vec![
            "1:agg:BNBBTC".to_string(),
            "1:trade:BNBBTC".to_string(),
            "1:book:160".to_string(),
            "1:depth:BNBBTC".to_string(),
        ]
    );
}

#[test]
fn user_stream_events_do_not_reach_the_market_handler() {
    let log = Rc::new(RefCell::new(Vec::new()));
    let mut ws: WebSockets<SilentUser, RecordingMarket, SilentKline> = WebSockets::new();
    ws.add_market_handler(RecordingMarket { id: 1, log: Rc::clone(&log) });

    let account = AccountUpdateEvent {
        event_type: "outboundAccountInfo".to_string(),
        event_time: 1499405658849,
        balances: Vec::new(),
    };
    // No user-stream handler is registered: nothing is invoked.
    assert_eq!(ws.dispatch(&DecodedEvent::AccountUpdate(account)), Delivery::NoHandler);
    assert!(log.borrow().is_empty());
}
