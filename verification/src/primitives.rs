//! Names and values that several parts of the library share.

use vstd::prelude::*;
use crate::endpoints::now_millis;
use crate::models::OrderBook;

verus! {

/// A pair of assets, such as `BTCUSDT`.
pub type Pair = String;

/// An asset, such as `BTC`.
pub type Symbol = String;

/// The best levels of the order book of a pair at a point in time.
#[derive(Debug, Clone)]
pub struct PartialOrderBookDepthUpdate {
    /// When the update was taken, in milliseconds since the Unix epoch.
    pub at_utc: u64,
    pub pair: Pair,
    pub orderbook: OrderBook,
}

impl Default for PartialOrderBookDepthUpdate {
    /// An empty book of no pair, stamped with the current time.
    fn default() -> (update: Self)
        ensures
            update.pair@.len() == 0,
            update.orderbook.last_update_id == 0,
            update.orderbook.bids@.len() == 0,
            update.orderbook.asks@.len() == 0,
    {
        PartialOrderBookDepthUpdate {
            at_utc: now_millis(),
            pair: String::new(),
            orderbook: OrderBook { last_update_id: 0, bids: Vec::new(), asks: Vec::new() },
        }
    }
}

} // verus!
