//! The events of the streams, told apart by their shape.

use vstd::prelude::*;
use crate::decode::{list_describes, list_from_json, list_has_shape, FromJson};
use crate::json::{Json, JsonValue};
use crate::models::{
    AccountUpdateEvent, AggrTradesEvent, BalanceUpdateEvent, BookTickerEvent, DayTickerEvent,
    DepthOrderBookEvent, KlineEvent, OrderBook, OrderTradeEvent, TradeEvent, WindowTickerEvent,
};

verus! {

/// One event of a stream.
///
/// A frame carries no tag that says which event it is. The shapes are tried
/// in the order of the variants, and the first shape that the frame has
/// decides: a frame that has two shapes is always the earlier one.
/// `Reconnect` is never read from a frame; it stands for a frame that could
/// not be read.
#[derive(Debug)]
pub enum BinanceStreamEvent {
    AccountUpdate(AccountUpdateEvent),
    BalanceUpdate(BalanceUpdateEvent),
    OrderTrade(OrderTradeEvent),
    AggrTrades(AggrTradesEvent),
    Trade(TradeEvent),
    OrderBook(OrderBook),
    DayTicker(DayTickerEvent),
    DayTickerAll(Vec<DayTickerEvent>),
    WindowTicker(WindowTickerEvent),
    WindowTickerAll(Vec<WindowTickerEvent>),
    Kline(KlineEvent),
    DepthOrderBook(DepthOrderBookEvent),
    BookTicker(BookTickerEvent),
    Reconnect,
}

/// The shapes of the events, in the order in which they are tried.
pub ghost enum EventShape {
    AccountUpdate,
    BalanceUpdate,
    OrderTrade,
    AggrTrades,
    Trade,
    OrderBook,
    DayTicker,
    DayTickerAll,
    WindowTicker,
    WindowTickerAll,
    Kline,
    DepthOrderBook,
    BookTicker,
}

/// The first shape that a document has, in the order of the trial.
pub open spec fn first_shape(document: JsonValue) -> Option<EventShape> {
    if AccountUpdateEvent::has_shape(document) {
        Some(EventShape::AccountUpdate)
    } else if BalanceUpdateEvent::has_shape(document) {
        Some(EventShape::BalanceUpdate)
    } else if OrderTradeEvent::has_shape(document) {
        Some(EventShape::OrderTrade)
    } else if AggrTradesEvent::has_shape(document) {
        Some(EventShape::AggrTrades)
    } else if TradeEvent::has_shape(document) {
        Some(EventShape::Trade)
    } else if OrderBook::has_shape(document) {
        Some(EventShape::OrderBook)
    } else if DayTickerEvent::has_shape(document) {
        Some(EventShape::DayTicker)
    } else if list_has_shape::<DayTickerEvent>(document) {
        Some(EventShape::DayTickerAll)
    } else if WindowTickerEvent::has_shape(document) {
        Some(EventShape::WindowTicker)
    } else if list_has_shape::<WindowTickerEvent>(document) {
        Some(EventShape::WindowTickerAll)
    } else if KlineEvent::has_shape(document) {
        Some(EventShape::Kline)
    } else if DepthOrderBookEvent::has_shape(document) {
        Some(EventShape::DepthOrderBook)
    } else if BookTickerEvent::has_shape(document) {
        Some(EventShape::BookTicker)
    } else {
        None
    }
}

/// A document with the shape of a day ticker also has the shape of a window
/// ticker. The day ticker is tried first, so such a document is never read
/// as a window ticker.
pub proof fn lemma_day_ticker_is_tried_before_window_ticker(document: JsonValue)
    requires
        DayTickerEvent::has_shape(document),
    ensures
        WindowTickerEvent::has_shape(document),
        first_shape(document) is Some,
        first_shape(document) != Some(EventShape::WindowTicker),
{
}

/// An array has none of the shapes that are objects, so a list of tickers
/// is never read as a single event.
pub proof fn lemma_lists_are_read_as_lists(document: JsonValue)
    requires
        document is Array,
    ensures
        first_shape(document) is Some ==> first_shape(document) == Some(EventShape::DayTickerAll)
            || first_shape(document) == Some(EventShape::WindowTickerAll),
{
}

impl BinanceStreamEvent {
    /// The shape that an event was read as.
    pub open spec fn shape(&self) -> Option<EventShape> {
        match self {
            BinanceStreamEvent::AccountUpdate(_) => Some(EventShape::AccountUpdate),
            BinanceStreamEvent::BalanceUpdate(_) => Some(EventShape::BalanceUpdate),
            BinanceStreamEvent::OrderTrade(_) => Some(EventShape::OrderTrade),
            BinanceStreamEvent::AggrTrades(_) => Some(EventShape::AggrTrades),
            BinanceStreamEvent::Trade(_) => Some(EventShape::Trade),
            BinanceStreamEvent::OrderBook(_) => Some(EventShape::OrderBook),
            BinanceStreamEvent::DayTicker(_) => Some(EventShape::DayTicker),
            BinanceStreamEvent::DayTickerAll(_) => Some(EventShape::DayTickerAll),
            BinanceStreamEvent::WindowTicker(_) => Some(EventShape::WindowTicker),
            BinanceStreamEvent::WindowTickerAll(_) => Some(EventShape::WindowTickerAll),
            BinanceStreamEvent::Kline(_) => Some(EventShape::Kline),
            BinanceStreamEvent::DepthOrderBook(_) => Some(EventShape::DepthOrderBook),
            BinanceStreamEvent::BookTicker(_) => Some(EventShape::BookTicker),
            BinanceStreamEvent::Reconnect => None,
        }
    }

    /// Whether the payload of the event holds what the document says.
    pub open spec fn payload_describes(&self, document: JsonValue) -> bool {
        match self {
            BinanceStreamEvent::AccountUpdate(e) => e.describes(document),
            BinanceStreamEvent::BalanceUpdate(e) => e.describes(document),
            BinanceStreamEvent::OrderTrade(e) => e.describes(document),
            BinanceStreamEvent::AggrTrades(e) => e.describes(document),
            BinanceStreamEvent::Trade(e) => e.describes(document),
            BinanceStreamEvent::OrderBook(e) => e.describes(document),
            BinanceStreamEvent::DayTicker(e) => e.describes(document),
            BinanceStreamEvent::DayTickerAll(list) => list_describes(list@, document),
            BinanceStreamEvent::WindowTicker(e) => e.describes(document),
            BinanceStreamEvent::WindowTickerAll(list) => list_describes(list@, document),
            BinanceStreamEvent::Kline(e) => e.describes(document),
            BinanceStreamEvent::DepthOrderBook(e) => e.describes(document),
            BinanceStreamEvent::BookTicker(e) => e.describes(document),
            BinanceStreamEvent::Reconnect => false,
        }
    }
}

impl FromJson for BinanceStreamEvent {
    open spec fn has_shape(document: JsonValue) -> bool {
        first_shape(document) is Some
    }

    /// The event is of the first shape that the document has, and its
    /// payload holds what the document says.
    open spec fn describes(&self, document: JsonValue) -> bool {
        &&& self.shape() is Some
        &&& self.shape() == first_shape(document)
        &&& self.payload_describes(document)
    }

    fn from_json(document: &Json) -> (r: Option<Self>) {
        if let Some(e) = AccountUpdateEvent::from_json(document) {
            return Some(BinanceStreamEvent::AccountUpdate(e));
        }
        if let Some(e) = BalanceUpdateEvent::from_json(document) {
            return Some(BinanceStreamEvent::BalanceUpdate(e));
        }
        if let Some(e) = OrderTradeEvent::from_json(document) {
            return Some(BinanceStreamEvent::OrderTrade(e));
        }
        if let Some(e) = AggrTradesEvent::from_json(document) {
            return Some(BinanceStreamEvent::AggrTrades(e));
        }
        if let Some(e) = TradeEvent::from_json(document) {
            return Some(BinanceStreamEvent::Trade(e));
        }
        if let Some(e) = OrderBook::from_json(document) {
            return Some(BinanceStreamEvent::OrderBook(e));
        }
        if let Some(e) = DayTickerEvent::from_json(document) {
            return Some(BinanceStreamEvent::DayTicker(e));
        }
        if let Some(list) = list_from_json::<DayTickerEvent>(document) {
            return Some(BinanceStreamEvent::DayTickerAll(list));
        }
        if let Some(e) = WindowTickerEvent::from_json(document) {
            return Some(BinanceStreamEvent::WindowTicker(e));
        }
        if let Some(list) = list_from_json::<WindowTickerEvent>(document) {
            return Some(BinanceStreamEvent::WindowTickerAll(list));
        }
        if let Some(e) = KlineEvent::from_json(document) {
            return Some(BinanceStreamEvent::Kline(e));
        }
        if let Some(e) = DepthOrderBookEvent::from_json(document) {
            return Some(BinanceStreamEvent::DepthOrderBook(e));
        }
        if let Some(e) = BookTickerEvent::from_json(document) {
            return Some(BinanceStreamEvent::BookTicker(e));
        }
        None
    }
}

} // verus!
