//! The payloads of the stream events.
//!
//! Each type names the members it requires of a document by the short keys
//! of the exchange. Prices and quantities are kept as the decimal texts that
//! the exchange sends.

use vstd::prelude::*;
use crate::decode::{
    member_describes, member_from_json, member_has_shape, member_list_describes,
    member_list_from_json, member_list_has_shape, FromJson,
};
use crate::json::{string_view, Json, JsonValue};

verus! {

/// Whether a document is an array of exactly two strings.
pub open spec fn is_text_pair(document: JsonValue) -> bool {
    match document.as_items() {
        Some(items) => items.len() == 2 && items[0].as_text() is Some && items[1].as_text()
            is Some,
        None => false,
    }
}

/// Reads an array of exactly two strings.
pub fn text_pair(document: &Json) -> (r: Option<(String, String)>)
    ensures
        r is Some <==> is_text_pair(document@),
        r matches Some(pair) ==> {
            &&& Some(pair.0@) == document@.as_items()->Some_0[0].as_text()
            &&& Some(pair.1@) == document@.as_items()->Some_0[1].as_text()
        },
{
    let items = document.as_array()?;
    if items.len() != 2 {
        return None;
    }
    let first = items[0].as_str()?;
    let second = items[1].as_str()?;
    Some((first.to_owned(), second.to_owned()))
}

/// One level of the bid side of an order book: a price and the quantity at
/// that price, sent as an array of two strings.
#[derive(Debug, Clone)]
pub struct Bids {
    pub price: String,
    pub qty: String,
}

impl FromJson for Bids {
    open spec fn has_shape(document: JsonValue) -> bool {
        is_text_pair(document)
    }

    open spec fn describes(&self, document: JsonValue) -> bool {
        &&& is_text_pair(document)
        &&& Some(self.price@) == document.as_items()->Some_0[0].as_text()
        &&& Some(self.qty@) == document.as_items()->Some_0[1].as_text()
    }

    fn from_json(document: &Json) -> (r: Option<Self>) {
        let (price, qty) = text_pair(document)?;
        Some(Bids { price, qty })
    }
}

/// One level of the ask side of an order book: a price and the quantity at
/// that price, sent as an array of two strings.
#[derive(Debug, Clone)]
pub struct Asks {
    pub price: String,
    pub qty: String,
}

impl FromJson for Asks {
    open spec fn has_shape(document: JsonValue) -> bool {
        is_text_pair(document)
    }

    open spec fn describes(&self, document: JsonValue) -> bool {
        &&& is_text_pair(document)
        &&& Some(self.price@) == document.as_items()->Some_0[0].as_text()
        &&& Some(self.qty@) == document.as_items()->Some_0[1].as_text()
    }

    fn from_json(document: &Json) -> (r: Option<Self>) {
        let (price, qty) = text_pair(document)?;
        Some(Asks { price, qty })
    }
}

/// A snapshot of the best levels of an order book.
#[derive(Debug, Clone)]
pub struct OrderBook {
    pub last_update_id: u64,
    pub bids: Vec<Bids>,
    pub asks: Vec<Asks>,
}

impl FromJson for OrderBook {
    open spec fn has_shape(document: JsonValue) -> bool {
        &&& document.u64_at("lastUpdateId"@) is Some
        &&& member_list_has_shape::<Bids>(document, "bids"@)
        &&& member_list_has_shape::<Asks>(document, "asks"@)
    }

    open spec fn describes(&self, document: JsonValue) -> bool {
        &&& Some(self.last_update_id) == document.u64_at("lastUpdateId"@)
        &&& member_list_describes(self.bids@, document, "bids"@)
        &&& member_list_describes(self.asks@, document, "asks"@)
    }

    fn from_json(document: &Json) -> (r: Option<Self>) {
        let last_update_id = document.u64_at("lastUpdateId")?;
        let bids = member_list_from_json::<Bids>(document, "bids")?;
        let asks = member_list_from_json::<Asks>(document, "asks")?;
        Some(OrderBook { last_update_id, bids, asks })
    }
}

/// The balance of one asset in an account update.
#[derive(Debug, Clone)]
pub struct EventBalance {
    pub asset: String,
    pub free: String,
    pub locked: String,
}

impl FromJson for EventBalance {
    open spec fn has_shape(document: JsonValue) -> bool {
        &&& document.text_at("a"@) is Some
        &&& document.text_at("f"@) is Some
        &&& document.text_at("l"@) is Some
    }

    open spec fn describes(&self, document: JsonValue) -> bool {
        &&& Some(self.asset@) == document.text_at("a"@)
        &&& Some(self.free@) == document.text_at("f"@)
        &&& Some(self.locked@) == document.text_at("l"@)
    }

    fn from_json(document: &Json) -> (r: Option<Self>) {
        let asset = document.text_at("a")?;
        let free = document.text_at("f")?;
        let locked = document.text_at("l")?;
        Some(EventBalance { asset, free, locked })
    }
}

/// The balances of an account have changed.
#[derive(Debug, Clone)]
pub struct AccountUpdateEvent {
    pub event_type: String,
    pub event_time: u64,
    pub last_account_update_time: u64,
    pub balances: Vec<EventBalance>,
}

impl FromJson for AccountUpdateEvent {
    open spec fn has_shape(document: JsonValue) -> bool {
        &&& document.text_at("e"@) is Some
        &&& document.u64_at("E"@) is Some
        &&& document.u64_at("u"@) is Some
        &&& member_list_has_shape::<EventBalance>(document, "B"@)
    }

    open spec fn describes(&self, document: JsonValue) -> bool {
        &&& Some(self.event_type@) == document.text_at("e"@)
        &&& Some(self.event_time) == document.u64_at("E"@)
        &&& Some(self.last_account_update_time) == document.u64_at("u"@)
        &&& member_list_describes(self.balances@, document, "B"@)
    }

    fn from_json(document: &Json) -> (r: Option<Self>) {
        let event_type = document.text_at("e")?;
        let event_time = document.u64_at("E")?;
        let last_account_update_time = document.u64_at("u")?;
        let balances = member_list_from_json::<EventBalance>(document, "B")?;
        Some(AccountUpdateEvent { event_type, event_time, last_account_update_time, balances })
    }
}

/// A deposit, a withdrawal or a transfer has changed one balance.
#[derive(Debug, Clone)]
pub struct BalanceUpdateEvent {
    pub event_type: String,
    pub event_time: u64,
    pub asset: String,
    pub delta: String,
    pub clear_time: u64,
}

impl FromJson for BalanceUpdateEvent {
    open spec fn has_shape(document: JsonValue) -> bool {
        &&& document.text_at("e"@) is Some
        &&& document.u64_at("E"@) is Some
        &&& document.text_at("a"@) is Some
        &&& document.text_at("d"@) is Some
        &&& document.u64_at("T"@) is Some
    }

    open spec fn describes(&self, document: JsonValue) -> bool {
        &&& Some(self.event_type@) == document.text_at("e"@)
        &&& Some(self.event_time) == document.u64_at("E"@)
        &&& Some(self.asset@) == document.text_at("a"@)
        &&& Some(self.delta@) == document.text_at("d"@)
        &&& Some(self.clear_time) == document.u64_at("T"@)
    }

    fn from_json(document: &Json) -> (r: Option<Self>) {
        let event_type = document.text_at("e")?;
        let event_time = document.u64_at("E")?;
        let asset = document.text_at("a")?;
        let delta = document.text_at("d")?;
        let clear_time = document.u64_at("T")?;
        Some(BalanceUpdateEvent { event_type, event_time, asset, delta, clear_time })
    }
}

/// An order was created, changed or filled.
#[derive(Debug, Clone)]
pub struct OrderTradeEvent {
    pub event_type: String,
    pub event_time: u64,
    pub symbol: String,
    pub new_client_order_id: String,
    pub side: String,
    pub order_type: String,
    pub time_in_force: String,
    pub qty: String,
    pub price: String,
    pub stop_price: String,
    pub iceberg_qty: String,
    pub order_list_id: i64,
    pub origin_client_id: String,
    pub execution_type: String,
    pub order_status: String,
    pub order_reject_reason: String,
    pub order_id: u64,
    pub qty_last_executed: String,
    pub cumulative_filled_qty: String,
    pub last_executed_price: String,
    pub commission: String,
    pub commission_asset: Option<String>,
    pub trade_order_time: u64,
    pub trade_id: i64,
    pub is_order_on_the_book: bool,
    pub is_buyer_maker: bool,
    pub order_creation_time: u64,
    pub cumulative_quote_asset_transacted_qty: String,
    pub last_quote_asset_transacted_qty: String,
    pub quote_order_qty: String,
}

impl FromJson for OrderTradeEvent {
    open spec fn has_shape(document: JsonValue) -> bool {
        &&& document.text_at("e"@) is Some
        &&& document.u64_at("E"@) is Some
        &&& document.text_at("s"@) is Some
        &&& document.text_at("c"@) is Some
        &&& document.text_at("S"@) is Some
        &&& document.text_at("o"@) is Some
        &&& document.text_at("f"@) is Some
        &&& document.text_at("q"@) is Some
        &&& document.text_at("p"@) is Some
        &&& document.text_at("P"@) is Some
        &&& document.text_at("F"@) is Some
        &&& document.i64_at("g"@) is Some
        &&& document.text_at("C"@) is Some
        &&& document.text_at("x"@) is Some
        &&& document.text_at("X"@) is Some
        &&& document.text_at("r"@) is Some
        &&& document.u64_at("i"@) is Some
        &&& document.text_at("l"@) is Some
        &&& document.text_at("z"@) is Some
        &&& document.text_at("L"@) is Some
        &&& document.text_at("n"@) is Some
        &&& document.optional_text_at("N"@) is Some
        &&& document.u64_at("T"@) is Some
        &&& document.i64_at("t"@) is Some
        &&& document.bool_at("w"@) is Some
        &&& document.bool_at("m"@) is Some
        &&& document.u64_at("O"@) is Some
        &&& document.text_at("Z"@) is Some
        &&& document.text_at("Y"@) is Some
        &&& document.text_at("Q"@) is Some
    }

    open spec fn describes(&self, document: JsonValue) -> bool {
        &&& Some(self.event_type@) == document.text_at("e"@)
        &&& Some(self.event_time) == document.u64_at("E"@)
        &&& Some(self.symbol@) == document.text_at("s"@)
        &&& Some(self.new_client_order_id@) == document.text_at("c"@)
        &&& Some(self.side@) == document.text_at("S"@)
        &&& Some(self.order_type@) == document.text_at("o"@)
        &&& Some(self.time_in_force@) == document.text_at("f"@)
        &&& Some(self.qty@) == document.text_at("q"@)
        &&& Some(self.price@) == document.text_at("p"@)
        &&& Some(self.stop_price@) == document.text_at("P"@)
        &&& Some(self.iceberg_qty@) == document.text_at("F"@)
        &&& Some(self.order_list_id) == document.i64_at("g"@)
        &&& Some(self.origin_client_id@) == document.text_at("C"@)
        &&& Some(self.execution_type@) == document.text_at("x"@)
        &&& Some(self.order_status@) == document.text_at("X"@)
        &&& Some(self.order_reject_reason@) == document.text_at("r"@)
        &&& Some(self.order_id) == document.u64_at("i"@)
        &&& Some(self.qty_last_executed@) == document.text_at("l"@)
        &&& Some(self.cumulative_filled_qty@) == document.text_at("z"@)
        &&& Some(self.last_executed_price@) == document.text_at("L"@)
        &&& Some(self.commission@) == document.text_at("n"@)
        &&& Some(string_view(self.commission_asset)) == document.optional_text_at("N"@)
        &&& Some(self.trade_order_time) == document.u64_at("T"@)
        &&& Some(self.trade_id) == document.i64_at("t"@)
        &&& Some(self.is_order_on_the_book) == document.bool_at("w"@)
        &&& Some(self.is_buyer_maker) == document.bool_at("m"@)
        &&& Some(self.order_creation_time) == document.u64_at("O"@)
        &&& Some(self.cumulative_quote_asset_transacted_qty@) == document.text_at("Z"@)
        &&& Some(self.last_quote_asset_transacted_qty@) == document.text_at("Y"@)
        &&& Some(self.quote_order_qty@) == document.text_at("Q"@)
    }

    fn from_json(document: &Json) -> (r: Option<Self>) {
        let event_type = document.text_at("e")?;
        let event_time = document.u64_at("E")?;
        let symbol = document.text_at("s")?;
        let new_client_order_id = document.text_at("c")?;
        let side = document.text_at("S")?;
        let order_type = document.text_at("o")?;
        let time_in_force = document.text_at("f")?;
        let qty = document.text_at("q")?;
        let price = document.text_at("p")?;
        let stop_price = document.text_at("P")?;
        let iceberg_qty = document.text_at("F")?;
        let order_list_id = document.i64_at("g")?;
        let origin_client_id = document.text_at("C")?;
        let execution_type = document.text_at("x")?;
        let order_status = document.text_at("X")?;
        let order_reject_reason = document.text_at("r")?;
        let order_id = document.u64_at("i")?;
        let qty_last_executed = document.text_at("l")?;
        let cumulative_filled_qty = document.text_at("z")?;
        let last_executed_price = document.text_at("L")?;
        let commission = document.text_at("n")?;
        let commission_asset = document.optional_text_at("N")?;
        let trade_order_time = document.u64_at("T")?;
        let trade_id = document.i64_at("t")?;
        let is_order_on_the_book = document.bool_at("w")?;
        let is_buyer_maker = document.bool_at("m")?;
        let order_creation_time = document.u64_at("O")?;
        let cumulative_quote_asset_transacted_qty = document.text_at("Z")?;
        let last_quote_asset_transacted_qty = document.text_at("Y")?;
        let quote_order_qty = document.text_at("Q")?;
        Some(
            OrderTradeEvent {
                event_type,
                event_time,
                symbol,
                new_client_order_id,
                side,
                order_type,
                time_in_force,
                qty,
                price,
                stop_price,
                iceberg_qty,
                order_list_id,
                origin_client_id,
                execution_type,
                order_status,
                order_reject_reason,
                order_id,
                qty_last_executed,
                cumulative_filled_qty,
                last_executed_price,
                commission,
                commission_asset,
                trade_order_time,
                trade_id,
                is_order_on_the_book,
                is_buyer_maker,
                order_creation_time,
                cumulative_quote_asset_transacted_qty,
                last_quote_asset_transacted_qty,
                quote_order_qty,
            },
        )
    }
}

/// Trades at one price by one taker order, taken together.
#[derive(Debug, Clone)]
pub struct AggrTradesEvent {
    pub event_type: String,
    pub event_time: u64,
    pub symbol: String,
    pub aggregated_trade_id: u64,
    pub price: String,
    pub qty: String,
    pub first_break_trade_id: u64,
    pub last_break_trade_id: u64,
    pub trade_order_time: u64,
    pub is_buyer_maker: bool,
    pub m_ignore: bool,
}

impl FromJson for AggrTradesEvent {
    open spec fn has_shape(document: JsonValue) -> bool {
        &&& document.text_at("e"@) is Some
        &&& document.u64_at("E"@) is Some
        &&& document.text_at("s"@) is Some
        &&& document.u64_at("a"@) is Some
        &&& document.text_at("p"@) is Some
        &&& document.text_at("q"@) is Some
        &&& document.u64_at("f"@) is Some
        &&& document.u64_at("l"@) is Some
        &&& document.u64_at("T"@) is Some
        &&& document.bool_at("m"@) is Some
        &&& document.bool_at("M"@) is Some
    }

    open spec fn describes(&self, document: JsonValue) -> bool {
        &&& Some(self.event_type@) == document.text_at("e"@)
        &&& Some(self.event_time) == document.u64_at("E"@)
        &&& Some(self.symbol@) == document.text_at("s"@)
        &&& Some(self.aggregated_trade_id) == document.u64_at("a"@)
        &&& Some(self.price@) == document.text_at("p"@)
        &&& Some(self.qty@) == document.text_at("q"@)
        &&& Some(self.first_break_trade_id) == document.u64_at("f"@)
        &&& Some(self.last_break_trade_id) == document.u64_at("l"@)
        &&& Some(self.trade_order_time) == document.u64_at("T"@)
        &&& Some(self.is_buyer_maker) == document.bool_at("m"@)
        &&& Some(self.m_ignore) == document.bool_at("M"@)
    }

    fn from_json(document: &Json) -> (r: Option<Self>) {
        let event_type = document.text_at("e")?;
        let event_time = document.u64_at("E")?;
        let symbol = document.text_at("s")?;
        let aggregated_trade_id = document.u64_at("a")?;
        let price = document.text_at("p")?;
        let qty = document.text_at("q")?;
        let first_break_trade_id = document.u64_at("f")?;
        let last_break_trade_id = document.u64_at("l")?;
        let trade_order_time = document.u64_at("T")?;
        let is_buyer_maker = document.bool_at("m")?;
        let m_ignore = document.bool_at("M")?;
        Some(
            AggrTradesEvent {
                event_type,
                event_time,
                symbol,
                aggregated_trade_id,
                price,
                qty,
                first_break_trade_id,
                last_break_trade_id,
                trade_order_time,
                is_buyer_maker,
                m_ignore,
            },
        )
    }
}

/// One trade.
#[derive(Debug, Clone)]
pub struct TradeEvent {
    pub event_type: String,
    pub event_time: u64,
    pub symbol: String,
    pub trade_id: u64,
    pub price: String,
    pub qty: String,
    pub trade_order_time: u64,
    pub is_buyer_maker: bool,
    pub m_ignore: bool,
}

impl FromJson for TradeEvent {
    open spec fn has_shape(document: JsonValue) -> bool {
        &&& document.text_at("e"@) is Some
        &&& document.u64_at("E"@) is Some
        &&& document.text_at("s"@) is Some
        &&& document.u64_at("t"@) is Some
        &&& document.text_at("p"@) is Some
        &&& document.text_at("q"@) is Some
        &&& document.u64_at("T"@) is Some
        &&& document.bool_at("m"@) is Some
        &&& document.bool_at("M"@) is Some
    }

    open spec fn describes(&self, document: JsonValue) -> bool {
        &&& Some(self.event_type@) == document.text_at("e"@)
        &&& Some(self.event_time) == document.u64_at("E"@)
        &&& Some(self.symbol@) == document.text_at("s"@)
        &&& Some(self.trade_id) == document.u64_at("t"@)
        &&& Some(self.price@) == document.text_at("p"@)
        &&& Some(self.qty@) == document.text_at("q"@)
        &&& Some(self.trade_order_time) == document.u64_at("T"@)
        &&& Some(self.is_buyer_maker) == document.bool_at("m"@)
        &&& Some(self.m_ignore) == document.bool_at("M"@)
    }

    fn from_json(document: &Json) -> (r: Option<Self>) {
        let event_type = document.text_at("e")?;
        let event_time = document.u64_at("E")?;
        let symbol = document.text_at("s")?;
        let trade_id = document.u64_at("t")?;
        let price = document.text_at("p")?;
        let qty = document.text_at("q")?;
        let trade_order_time = document.u64_at("T")?;
        let is_buyer_maker = document.bool_at("m")?;
        let m_ignore = document.bool_at("M")?;
        Some(
            TradeEvent {
                event_type,
                event_time,
                symbol,
                trade_id,
                price,
                qty,
                trade_order_time,
                is_buyer_maker,
                m_ignore,
            },
        )
    }
}

/// The statistics of a symbol over the last 24 hours.
#[derive(Debug, Clone)]
pub struct DayTickerEvent {
    pub event_type: String,
    pub event_time: u64,
    pub symbol: String,
    pub price_change: String,
    pub price_change_percent: String,
    pub average_price: String,
    pub prev_close: String,
    pub current_close: String,
    pub current_close_qty: String,
    pub best_bid: String,
    pub best_bid_qty: String,
    pub best_ask: String,
    pub best_ask_qty: String,
    pub open: String,
    pub high: String,
    pub low: String,
    pub volume: String,
    pub quote_volume: String,
    pub open_time: u64,
    pub close_time: u64,
    pub first_trade_id: i64,
    pub last_trade_id: i64,
    pub num_trades: u64,
}

impl FromJson for DayTickerEvent {
    open spec fn has_shape(document: JsonValue) -> bool {
        &&& document.text_at("e"@) is Some
        &&& document.u64_at("E"@) is Some
        &&& document.text_at("s"@) is Some
        &&& document.text_at("p"@) is Some
        &&& document.text_at("P"@) is Some
        &&& document.text_at("w"@) is Some
        &&& document.text_at("x"@) is Some
        &&& document.text_at("c"@) is Some
        &&& document.text_at("Q"@) is Some
        &&& document.text_at("b"@) is Some
        &&& document.text_at("B"@) is Some
        &&& document.text_at("a"@) is Some
        &&& document.text_at("A"@) is Some
        &&& document.text_at("o"@) is Some
        &&& document.text_at("h"@) is Some
        &&& document.text_at("l"@) is Some
        &&& document.text_at("v"@) is Some
        &&& document.text_at("q"@) is Some
        &&& document.u64_at("O"@) is Some
        &&& document.u64_at("C"@) is Some
        &&& document.i64_at("F"@) is Some
        &&& document.i64_at("L"@) is Some
        &&& document.u64_at("n"@) is Some
    }

    open spec fn describes(&self, document: JsonValue) -> bool {
        &&& Some(self.event_type@) == document.text_at("e"@)
        &&& Some(self.event_time) == document.u64_at("E"@)
        &&& Some(self.symbol@) == document.text_at("s"@)
        &&& Some(self.price_change@) == document.text_at("p"@)
        &&& Some(self.price_change_percent@) == document.text_at("P"@)
        &&& Some(self.average_price@) == document.text_at("w"@)
        &&& Some(self.prev_close@) == document.text_at("x"@)
        &&& Some(self.current_close@) == document.text_at("c"@)
        &&& Some(self.current_close_qty@) == document.text_at("Q"@)
        &&& Some(self.best_bid@) == document.text_at("b"@)
        &&& Some(self.best_bid_qty@) == document.text_at("B"@)
        &&& Some(self.best_ask@) == document.text_at("a"@)
        &&& Some(self.best_ask_qty@) == document.text_at("A"@)
        &&& Some(self.open@) == document.text_at("o"@)
        &&& Some(self.high@) == document.text_at("h"@)
        &&& Some(self.low@) == document.text_at("l"@)
        &&& Some(self.volume@) == document.text_at("v"@)
        &&& Some(self.quote_volume@) == document.text_at("q"@)
        &&& Some(self.open_time) == document.u64_at("O"@)
        &&& Some(self.close_time) == document.u64_at("C"@)
        &&& Some(self.first_trade_id) == document.i64_at("F"@)
        &&& Some(self.last_trade_id) == document.i64_at("L"@)
        &&& Some(self.num_trades) == document.u64_at("n"@)
    }

    fn from_json(document: &Json) -> (r: Option<Self>) {
        let event_type = document.text_at("e")?;
        let event_time = document.u64_at("E")?;
        let symbol = document.text_at("s")?;
        let price_change = document.text_at("p")?;
        let price_change_percent = document.text_at("P")?;
        let average_price = document.text_at("w")?;
        let prev_close = document.text_at("x")?;
        let current_close = document.text_at("c")?;
        let current_close_qty = document.text_at("Q")?;
        let best_bid = document.text_at("b")?;
        let best_bid_qty = document.text_at("B")?;
        let best_ask = document.text_at("a")?;
        let best_ask_qty = document.text_at("A")?;
        let open = document.text_at("o")?;
        let high = document.text_at("h")?;
        let low = document.text_at("l")?;
        let volume = document.text_at("v")?;
        let quote_volume = document.text_at("q")?;
        let open_time = document.u64_at("O")?;
        let close_time = document.u64_at("C")?;
        let first_trade_id = document.i64_at("F")?;
        let last_trade_id = document.i64_at("L")?;
        let num_trades = document.u64_at("n")?;
        Some(
            DayTickerEvent {
                event_type,
                event_time,
                symbol,
                price_change,
                price_change_percent,
                average_price,
                prev_close,
                current_close,
                current_close_qty,
                best_bid,
                best_bid_qty,
                best_ask,
                best_ask_qty,
                open,
                high,
                low,
                volume,
                quote_volume,
                open_time,
                close_time,
                first_trade_id,
                last_trade_id,
                num_trades,
            },
        )
    }
}

/// The statistics of a symbol over a rolling window.
#[derive(Debug, Clone)]
pub struct WindowTickerEvent {
    pub event_type: String,
    pub event_time: u64,
    pub symbol: String,
    pub price_change: String,
    pub price_change_percent: String,
    pub open: String,
    pub high: String,
    pub low: String,
    pub current_close: String,
    pub average_price: String,
    pub volume: String,
    pub quote_volume: String,
    pub open_time: u64,
    pub close_time: u64,
    pub first_trade_id: i64,
    pub last_trade_id: i64,
    pub num_trades: u64,
}

impl FromJson for WindowTickerEvent {
    open spec fn has_shape(document: JsonValue) -> bool {
        &&& document.text_at("e"@) is Some
        &&& document.u64_at("E"@) is Some
        &&& document.text_at("s"@) is Some
        &&& document.text_at("p"@) is Some
        &&& document.text_at("P"@) is Some
        &&& document.text_at("o"@) is Some
        &&& document.text_at("h"@) is Some
        &&& document.text_at("l"@) is Some
        &&& document.text_at("c"@) is Some
        &&& document.text_at("w"@) is Some
        &&& document.text_at("v"@) is Some
        &&& document.text_at("q"@) is Some
        &&& document.u64_at("O"@) is Some
        &&& document.u64_at("C"@) is Some
        &&& document.i64_at("F"@) is Some
        &&& document.i64_at("L"@) is Some
        &&& document.u64_at("n"@) is Some
    }

    open spec fn describes(&self, document: JsonValue) -> bool {
        &&& Some(self.event_type@) == document.text_at("e"@)
        &&& Some(self.event_time) == document.u64_at("E"@)
        &&& Some(self.symbol@) == document.text_at("s"@)
        &&& Some(self.price_change@) == document.text_at("p"@)
        &&& Some(self.price_change_percent@) == document.text_at("P"@)
        &&& Some(self.open@) == document.text_at("o"@)
        &&& Some(self.high@) == document.text_at("h"@)
        &&& Some(self.low@) == document.text_at("l"@)
        &&& Some(self.current_close@) == document.text_at("c"@)
        &&& Some(self.average_price@) == document.text_at("w"@)
        &&& Some(self.volume@) == document.text_at("v"@)
        &&& Some(self.quote_volume@) == document.text_at("q"@)
        &&& Some(self.open_time) == document.u64_at("O"@)
        &&& Some(self.close_time) == document.u64_at("C"@)
        &&& Some(self.first_trade_id) == document.i64_at("F"@)
        &&& Some(self.last_trade_id) == document.i64_at("L"@)
        &&& Some(self.num_trades) == document.u64_at("n"@)
    }

    fn from_json(document: &Json) -> (r: Option<Self>) {
        let event_type = document.text_at("e")?;
        let event_time = document.u64_at("E")?;
        let symbol = document.text_at("s")?;
        let price_change = document.text_at("p")?;
        let price_change_percent = document.text_at("P")?;
        let open = document.text_at("o")?;
        let high = document.text_at("h")?;
        let low = document.text_at("l")?;
        let current_close = document.text_at("c")?;
        let average_price = document.text_at("w")?;
        let volume = document.text_at("v")?;
        let quote_volume = document.text_at("q")?;
        let open_time = document.u64_at("O")?;
        let close_time = document.u64_at("C")?;
        let first_trade_id = document.i64_at("F")?;
        let last_trade_id = document.i64_at("L")?;
        let num_trades = document.u64_at("n")?;
        Some(
            WindowTickerEvent {
                event_type,
                event_time,
                symbol,
                price_change,
                price_change_percent,
                open,
                high,
                low,
                current_close,
                average_price,
                volume,
                quote_volume,
                open_time,
                close_time,
                first_trade_id,
                last_trade_id,
                num_trades,
            },
        )
    }
}

/// One candlestick.
#[derive(Debug, Clone)]
pub struct Kline {
    pub open_time: u64,
    pub close_time: u64,
    pub symbol: String,
    pub interval: String,
    pub first_trade_id: i64,
    pub last_trade_id: i64,
    pub open: String,
    pub close: String,
    pub high: String,
    pub low: String,
    pub volume: String,
    pub number_of_trades: i64,
    pub is_final_bar: bool,
    pub quote_asset_volume: String,
    pub taker_buy_base_asset_volume: String,
    pub taker_buy_quote_asset_volume: String,
    pub ignore_me: String,
}

impl FromJson for Kline {
    open spec fn has_shape(document: JsonValue) -> bool {
        &&& document.u64_at("t"@) is Some
        &&& document.u64_at("T"@) is Some
        &&& document.text_at("s"@) is Some
        &&& document.text_at("i"@) is Some
        &&& document.i64_at("f"@) is Some
        &&& document.i64_at("L"@) is Some
        &&& document.text_at("o"@) is Some
        &&& document.text_at("c"@) is Some
        &&& document.text_at("h"@) is Some
        &&& document.text_at("l"@) is Some
        &&& document.text_at("v"@) is Some
        &&& document.i64_at("n"@) is Some
        &&& document.bool_at("x"@) is Some
        &&& document.text_at("q"@) is Some
        &&& document.text_at("V"@) is Some
        &&& document.text_at("Q"@) is Some
        &&& document.text_at("B"@) is Some
    }

    open spec fn describes(&self, document: JsonValue) -> bool {
        &&& Some(self.open_time) == document.u64_at("t"@)
        &&& Some(self.close_time) == document.u64_at("T"@)
        &&& Some(self.symbol@) == document.text_at("s"@)
        &&& Some(self.interval@) == document.text_at("i"@)
        &&& Some(self.first_trade_id) == document.i64_at("f"@)
        &&& Some(self.last_trade_id) == document.i64_at("L"@)
        &&& Some(self.open@) == document.text_at("o"@)
        &&& Some(self.close@) == document.text_at("c"@)
        &&& Some(self.high@) == document.text_at("h"@)
        &&& Some(self.low@) == document.text_at("l"@)
        &&& Some(self.volume@) == document.text_at("v"@)
        &&& Some(self.number_of_trades) == document.i64_at("n"@)
        &&& Some(self.is_final_bar) == document.bool_at("x"@)
        &&& Some(self.quote_asset_volume@) == document.text_at("q"@)
        &&& Some(self.taker_buy_base_asset_volume@) == document.text_at("V"@)
        &&& Some(self.taker_buy_quote_asset_volume@) == document.text_at("Q"@)
        &&& Some(self.ignore_me@) == document.text_at("B"@)
    }

    fn from_json(document: &Json) -> (r: Option<Self>) {
        let open_time = document.u64_at("t")?;
        let close_time = document.u64_at("T")?;
        let symbol = document.text_at("s")?;
        let interval = document.text_at("i")?;
        let first_trade_id = document.i64_at("f")?;
        let last_trade_id = document.i64_at("L")?;
        let open = document.text_at("o")?;
        let close = document.text_at("c")?;
        let high = document.text_at("h")?;
        let low = document.text_at("l")?;
        let volume = document.text_at("v")?;
        let number_of_trades = document.i64_at("n")?;
        let is_final_bar = document.bool_at("x")?;
        let quote_asset_volume = document.text_at("q")?;
        let taker_buy_base_asset_volume = document.text_at("V")?;
        let taker_buy_quote_asset_volume = document.text_at("Q")?;
        let ignore_me = document.text_at("B")?;
        Some(
            Kline {
                open_time,
                close_time,
                symbol,
                interval,
                first_trade_id,
                last_trade_id,
                open,
                close,
                high,
                low,
                volume,
                number_of_trades,
                is_final_bar,
                quote_asset_volume,
                taker_buy_base_asset_volume,
                taker_buy_quote_asset_volume,
                ignore_me,
            },
        )
    }
}

/// A candlestick has changed.
#[derive(Debug, Clone)]
pub struct KlineEvent {
    pub event_type: String,
    pub event_time: u64,
    pub symbol: String,
    pub kline: Kline,
}

impl FromJson for KlineEvent {
    open spec fn has_shape(document: JsonValue) -> bool {
        &&& document.text_at("e"@) is Some
        &&& document.u64_at("E"@) is Some
        &&& document.text_at("s"@) is Some
        &&& member_has_shape::<Kline>(document, "k"@)
    }

    open spec fn describes(&self, document: JsonValue) -> bool {
        &&& Some(self.event_type@) == document.text_at("e"@)
        &&& Some(self.event_time) == document.u64_at("E"@)
        &&& Some(self.symbol@) == document.text_at("s"@)
        &&& member_describes(self.kline, document, "k"@)
    }

    fn from_json(document: &Json) -> (r: Option<Self>) {
        let event_type = document.text_at("e")?;
        let event_time = document.u64_at("E")?;
        let symbol = document.text_at("s")?;
        let kline = member_from_json::<Kline>(document, "k")?;
        Some(KlineEvent { event_type, event_time, symbol, kline })
    }
}

/// The levels of an order book that have changed.
#[derive(Debug, Clone)]
pub struct DepthOrderBookEvent {
    pub event_type: String,
    pub event_time: u64,
    pub symbol: String,
    pub first_update_id: u64,
    pub final_update_id: u64,
    pub bids: Vec<Bids>,
    pub asks: Vec<Asks>,
}

impl FromJson for DepthOrderBookEvent {
    open spec fn has_shape(document: JsonValue) -> bool {
        &&& document.text_at("e"@) is Some
        &&& document.u64_at("E"@) is Some
        &&& document.text_at("s"@) is Some
        &&& document.u64_at("U"@) is Some
        &&& document.u64_at("u"@) is Some
        &&& member_list_has_shape::<Bids>(document, "b"@)
        &&& member_list_has_shape::<Asks>(document, "a"@)
    }

    open spec fn describes(&self, document: JsonValue) -> bool {
        &&& Some(self.event_type@) == document.text_at("e"@)
        &&& Some(self.event_time) == document.u64_at("E"@)
        &&& Some(self.symbol@) == document.text_at("s"@)
        &&& Some(self.first_update_id) == document.u64_at("U"@)
        &&& Some(self.final_update_id) == document.u64_at("u"@)
        &&& member_list_describes(self.bids@, document, "b"@)
        &&& member_list_describes(self.asks@, document, "a"@)
    }

    fn from_json(document: &Json) -> (r: Option<Self>) {
        let event_type = document.text_at("e")?;
        let event_time = document.u64_at("E")?;
        let symbol = document.text_at("s")?;
        let first_update_id = document.u64_at("U")?;
        let final_update_id = document.u64_at("u")?;
        let bids = member_list_from_json::<Bids>(document, "b")?;
        let asks = member_list_from_json::<Asks>(document, "a")?;
        Some(
            DepthOrderBookEvent {
                event_type,
                event_time,
                symbol,
                first_update_id,
                final_update_id,
                bids,
                asks,
            },
        )
    }
}

/// The best bid and the best ask of a symbol.
#[derive(Debug, Clone)]
pub struct BookTickerEvent {
    pub update_id: u64,
    pub symbol: String,
    pub best_bid: String,
    pub best_bid_qty: String,
    pub best_ask: String,
    pub best_ask_qty: String,
}

impl FromJson for BookTickerEvent {
    open spec fn has_shape(document: JsonValue) -> bool {
        &&& document.u64_at("u"@) is Some
        &&& document.text_at("s"@) is Some
        &&& document.text_at("b"@) is Some
        &&& document.text_at("B"@) is Some
        &&& document.text_at("a"@) is Some
        &&& document.text_at("A"@) is Some
    }

    open spec fn describes(&self, document: JsonValue) -> bool {
        &&& Some(self.update_id) == document.u64_at("u"@)
        &&& Some(self.symbol@) == document.text_at("s"@)
        &&& Some(self.best_bid@) == document.text_at("b"@)
        &&& Some(self.best_bid_qty@) == document.text_at("B"@)
        &&& Some(self.best_ask@) == document.text_at("a"@)
        &&& Some(self.best_ask_qty@) == document.text_at("A"@)
    }

    fn from_json(document: &Json) -> (r: Option<Self>) {
        let update_id = document.u64_at("u")?;
        let symbol = document.text_at("s")?;
        let best_bid = document.text_at("b")?;
        let best_bid_qty = document.text_at("B")?;
        let best_ask = document.text_at("a")?;
        let best_ask_qty = document.text_at("A")?;
        Some(BookTickerEvent { update_id, symbol, best_bid, best_bid_qty, best_ask, best_ask_qty })
    }
}

/// The latest price of a symbol.
#[derive(Debug, Clone)]
pub struct SymbolPrice {
    pub symbol: String,
    pub price: String,
}

impl FromJson for SymbolPrice {
    open spec fn has_shape(document: JsonValue) -> bool {
        &&& document.text_at("symbol"@) is Some
        &&& document.text_at("price"@) is Some
    }

    open spec fn describes(&self, document: JsonValue) -> bool {
        &&& Some(self.symbol@) == document.text_at("symbol"@)
        &&& Some(self.price@) == document.text_at("price"@)
    }

    fn from_json(document: &Json) -> (r: Option<Self>) {
        let symbol = document.text_at("symbol")?;
        let price = document.text_at("price")?;
        Some(SymbolPrice { symbol, price })
    }
}

/// The average price of a symbol over the last minutes.
#[derive(Debug, Clone)]
pub struct AveragePrice {
    pub mins: u64,
    pub price: String,
}

impl FromJson for AveragePrice {
    open spec fn has_shape(document: JsonValue) -> bool {
        &&& document.u64_at("mins"@) is Some
        &&& document.text_at("price"@) is Some
    }

    open spec fn describes(&self, document: JsonValue) -> bool {
        &&& Some(self.mins) == document.u64_at("mins"@)
        &&& Some(self.price@) == document.text_at("price"@)
    }

    fn from_json(document: &Json) -> (r: Option<Self>) {
        let mins = document.u64_at("mins")?;
        let price = document.text_at("price")?;
        Some(AveragePrice { mins, price })
    }
}

/// What an account or a symbol may be used for.
#[derive(Debug, Clone, Copy, PartialEq, Eq, Structural)]
pub enum AccountAndSymbolPermission {
    Spot,
    Margin,
    Leveraged,
}

impl AccountAndSymbolPermission {
    pub open spec fn spec_name(self) -> Seq<char> {
        match self {
            AccountAndSymbolPermission::Spot => "SPOT"@,
            AccountAndSymbolPermission::Margin => "MARGIN"@,
            AccountAndSymbolPermission::Leveraged => "LEVERAGED"@,
        }
    }

    pub fn as_str(&self) -> (name: &'static str)
        ensures
            name@ == self.spec_name(),
    {
        match self {
            AccountAndSymbolPermission::Spot => "SPOT",
            AccountAndSymbolPermission::Margin => "MARGIN",
            AccountAndSymbolPermission::Leveraged => "LEVERAGED",
        }
    }
}

} // verus!
