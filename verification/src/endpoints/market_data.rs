//! The market data of the spot market.

use vstd::prelude::*;
use vstd::string::*;
use crate::decode::FromJson;
use crate::endpoints::{
    with_optional_nested_symbols, with_optional_symbols, Endpoint, EndpointRequest, Method,
    OneOrMany, OneOrManySymbol, SecurityType,
};
use crate::errors::BinanceApiError;
use crate::json::{string_view, Json, JsonValue};
use crate::models::{
    AccountAndSymbolPermission, AveragePrice, OrderBook, SymbolPrice,
};
use crate::text::{
    optional_decimal, optional_u16_decimal, push_optional_pair, push_optional_u16_pair,
    push_optional_u64_pair, push_pair, with_optional_pair, with_pair,
};

verus! {

/// The market data of the spot market.
#[derive(Debug, Clone, Copy, PartialEq, Eq, Structural)]
pub enum MarketDataEP {
    Ping,
    Time,
    ExchangeInfo,
    OrderBook,
    PriceTicker,
    AvgPrice,
    SymbolOrderBookTicker,
    Ticker24hr,
    AggTrades,
    Klines,
    Trades,
    HistoricalTrades,
}

impl MarketDataEP {
    /// The path of the operation.
    pub open spec fn spec_path(self) -> Seq<char> {
        match self {
            MarketDataEP::Ping => "/api/v3/ping"@,
            MarketDataEP::Time => "/api/v3/time"@,
            MarketDataEP::ExchangeInfo => "/api/v3/exchangeInfo"@,
            MarketDataEP::OrderBook => "/api/v3/depth"@,
            MarketDataEP::PriceTicker => "/api/v3/ticker/price"@,
            MarketDataEP::AvgPrice => "/api/v3/avgPrice"@,
            MarketDataEP::SymbolOrderBookTicker => "/api/v3/ticker/bookTicker"@,
            MarketDataEP::Ticker24hr => "/api/v3/ticker/24hr"@,
            MarketDataEP::AggTrades => "/api/v3/aggTrades"@,
            MarketDataEP::Klines => "/api/v3/klines"@,
            MarketDataEP::Trades => "/api/v3/trades"@,
            MarketDataEP::HistoricalTrades => "/api/v3/historicalTrades"@,
        }
    }

    pub fn path(&self) -> (path: &'static str)
        ensures
            path@ == self.spec_path(),
    {
        match self {
            MarketDataEP::Ping => "/api/v3/ping",
            MarketDataEP::Time => "/api/v3/time",
            MarketDataEP::ExchangeInfo => "/api/v3/exchangeInfo",
            MarketDataEP::OrderBook => "/api/v3/depth",
            MarketDataEP::PriceTicker => "/api/v3/ticker/price",
            MarketDataEP::AvgPrice => "/api/v3/avgPrice",
            MarketDataEP::SymbolOrderBookTicker => "/api/v3/ticker/bookTicker",
            MarketDataEP::Ticker24hr => "/api/v3/ticker/24hr",
            MarketDataEP::AggTrades => "/api/v3/aggTrades",
            MarketDataEP::Klines => "/api/v3/klines",
            MarketDataEP::Trades => "/api/v3/trades",
            MarketDataEP::HistoricalTrades => "/api/v3/historicalTrades",
        }
    }
}

impl Endpoint for MarketDataEP {
    open spec fn spec_is_implemented(&self) -> bool {
        true
    }

    open spec fn spec_action_params(&self) -> (Method, SecurityType, Seq<char>) {
        match self {
            MarketDataEP::Ping => (Method::GET, SecurityType::Public, self.spec_path()),
            MarketDataEP::Time => (Method::GET, SecurityType::Public, self.spec_path()),
            MarketDataEP::ExchangeInfo => (Method::GET, SecurityType::Public, self.spec_path()),
            MarketDataEP::OrderBook => (Method::GET, SecurityType::Public, self.spec_path()),
            MarketDataEP::PriceTicker => (Method::GET, SecurityType::Public, self.spec_path()),
            MarketDataEP::AvgPrice => (Method::GET, SecurityType::Public, self.spec_path()),
            MarketDataEP::SymbolOrderBookTicker => (Method::GET, SecurityType::Public, self.spec_path()),
            MarketDataEP::Ticker24hr => (Method::GET, SecurityType::Public, self.spec_path()),
            MarketDataEP::AggTrades => (Method::GET, SecurityType::Public, self.spec_path()),
            MarketDataEP::Klines => (Method::GET, SecurityType::Public, self.spec_path()),
            MarketDataEP::Trades => (Method::GET, SecurityType::Public, self.spec_path()),
            MarketDataEP::HistoricalTrades => (Method::GET, SecurityType::Public, self.spec_path()),
        }
    }

    fn is_implemented(&self) -> (r: bool) {
        true
    }

    fn action_params(&self) -> (r: (Method, SecurityType, String)) {
        let path = String::from_str(self.path());
        match self {
            MarketDataEP::Ping => (Method::GET, SecurityType::Public, path),
            MarketDataEP::Time => (Method::GET, SecurityType::Public, path),
            MarketDataEP::ExchangeInfo => (Method::GET, SecurityType::Public, path),
            MarketDataEP::OrderBook => (Method::GET, SecurityType::Public, path),
            MarketDataEP::PriceTicker => (Method::GET, SecurityType::Public, path),
            MarketDataEP::AvgPrice => (Method::GET, SecurityType::Public, path),
            MarketDataEP::SymbolOrderBookTicker => (Method::GET, SecurityType::Public, path),
            MarketDataEP::Ticker24hr => (Method::GET, SecurityType::Public, path),
            MarketDataEP::AggTrades => (Method::GET, SecurityType::Public, path),
            MarketDataEP::Klines => (Method::GET, SecurityType::Public, path),
            MarketDataEP::Trades => (Method::GET, SecurityType::Public, path),
            MarketDataEP::HistoricalTrades => (Method::GET, SecurityType::Public, path),
        }
    }
}

/// The rules of the exchange and the symbols it trades, for one symbol, a list
/// of symbols, or what a permission covers.
#[derive(Debug)]
pub struct ExchangeInfoRequest {
    pub symbols: Option<OneOrManySymbol>,
    pub permissions: Option<AccountAndSymbolPermission>,
}

impl ExchangeInfoRequest {
    /// The required parameters are given; every optional one is left out.
    pub fn require() -> (r: Self)
        ensures
            r.symbols is None,
            r.permissions is None,
    {
        ExchangeInfoRequest { symbols: None, permissions: None }
    }
}

impl EndpointRequest for ExchangeInfoRequest {
    type Response = Json;

    open spec fn spec_query(&self) -> Seq<char> {
        let q = Seq::<char>::empty();
        let q = with_optional_nested_symbols(q, self.symbols);
        let q = with_optional_pair(
            q,
            "permissions"@,
            match self.permissions {
                Some(v) => Some(v.spec_name()),
                None => None,
            },
        );
        q
    }

    open spec fn spec_is_valid(&self) -> bool {
        true
    }

    fn to_string(&self) -> (query: String) {
        let mut out = String::new();
        OneOrMany::push_optional_nested_to(&self.symbols, &mut out);
        if let Some(v) = &self.permissions {
            push_pair(&mut out, "permissions", v.as_str());
        }
        out
    }

    fn validate(&self) -> (r: Result<(), BinanceApiError>) {
        Ok(())
    }
}

/// The best levels of the order book of a symbol.
#[derive(Debug)]
pub struct OrderBookRequest {
    pub symbol: String,
    pub limit: Option<u64>,
}

impl OrderBookRequest {
    /// The required parameters are given; every optional one is left out.
    pub fn require(symbol: String) -> (r: Self)
        ensures
            r.symbol == symbol,
            r.limit is None,
    {
        OrderBookRequest { symbol, limit: None }
    }
}

impl EndpointRequest for OrderBookRequest {
    type Response = OrderBook;

    open spec fn spec_query(&self) -> Seq<char> {
        let q = Seq::<char>::empty();
        let q = with_pair(q, "symbol"@, self.symbol@);
        let q = with_optional_pair(q, "limit"@, optional_decimal(self.limit));
        q
    }

    open spec fn spec_is_valid(&self) -> bool {
        true
    }

    fn to_string(&self) -> (query: String) {
        let mut out = String::new();
        push_pair(&mut out, "symbol", self.symbol.as_str());
        push_optional_u64_pair(&mut out, "limit", self.limit);
        out
    }

    fn validate(&self) -> (r: Result<(), BinanceApiError>) {
        Ok(())
    }
}

/// The latest price of one symbol, of a list of symbols, or of all of them.
#[derive(Debug)]
pub struct PriceTickerRequest(pub Option<OneOrManySymbol>);

impl EndpointRequest for PriceTickerRequest {
    type Response = OneOrMany<SymbolPrice>;

    open spec fn spec_query(&self) -> Seq<char> {
        with_optional_symbols(Seq::empty(), self.0)
    }

    open spec fn spec_is_valid(&self) -> bool {
        true
    }

    fn to_string(&self) -> (query: String) {
        let mut out = String::new();
        OneOrMany::push_optional_to(&self.0, &mut out);
        out
    }

    fn validate(&self) -> (r: Result<(), BinanceApiError>) {
        Ok(())
    }
}

/// The current average price of a symbol.
#[derive(Debug)]
pub struct AveragePriceRequest {
    pub symbol: String,
}

impl AveragePriceRequest {
    /// The required parameters are given; every optional one is left out.
    pub fn require(symbol: String) -> (r: Self)
        ensures
            r.symbol == symbol,
    {
        AveragePriceRequest { symbol }
    }
}

impl EndpointRequest for AveragePriceRequest {
    type Response = AveragePrice;

    open spec fn spec_query(&self) -> Seq<char> {
        let q = Seq::<char>::empty();
        let q = with_pair(q, "symbol"@, self.symbol@);
        q
    }

    open spec fn spec_is_valid(&self) -> bool {
        true
    }

    fn to_string(&self) -> (query: String) {
        let mut out = String::new();
        push_pair(&mut out, "symbol", self.symbol.as_str());
        out
    }

    fn validate(&self) -> (r: Result<(), BinanceApiError>) {
        Ok(())
    }
}

/// The statistics of the last 24 hours of one symbol, of a list of symbols,
/// or of all of them.
#[derive(Debug, Default)]
pub struct Ticker24hRequest {
    pub symbols: Option<OneOrManySymbol>,
    pub ticker_type: Option<Ticker24hReqType>,
}

/// How much of the statistics is asked for.
#[allow(clippy::upper_case_acronyms)]
#[derive(Debug, Clone, Copy, PartialEq, Eq, Structural)]
pub enum Ticker24hReqType {
    FULL,
    MINI,
}

impl Ticker24hReqType {
    /// The name by which the exchange knows the value.
    pub open spec fn spec_name(self) -> Seq<char> {
        match self {
            Ticker24hReqType::FULL => "FULL"@,
            Ticker24hReqType::MINI => "MINI"@,
        }
    }

    pub fn as_str(&self) -> (name: &'static str)
        ensures
            name@ == self.spec_name(),
    {
        match self {
            Ticker24hReqType::FULL => "FULL",
            Ticker24hReqType::MINI => "MINI",
        }
    }
}

/// The candlesticks of a symbol.
#[derive(Debug)]
pub struct KlinesRequest {
    pub symbol: String,
    pub interval: KlineInterval,
    pub start_time: Option<u64>,
    pub end_time: Option<u64>,
    pub time_zone: Option<String>,
    pub limit: Option<u16>,
}

impl KlinesRequest {
    /// The required parameters are given; every optional one is left out.
    pub fn require(symbol: String, interval: KlineInterval) -> (r: Self)
        ensures
            r.symbol == symbol,
            r.interval == interval,
            r.start_time is None,
            r.end_time is None,
            r.time_zone is None,
            r.limit is None,
    {
        KlinesRequest {
            symbol,
            interval,
            start_time: None,
            end_time: None,
            time_zone: None,
            limit: None,
        }
    }
}

impl EndpointRequest for KlinesRequest {
    type Response = Json;

    open spec fn spec_query(&self) -> Seq<char> {
        let q = Seq::<char>::empty();
        let q = with_pair(q, "symbol"@, self.symbol@);
        let q = with_pair(q, "interval"@, self.interval.spec_name());
        let q = with_optional_pair(q, "startTime"@, optional_decimal(self.start_time));
        let q = with_optional_pair(q, "endTime"@, optional_decimal(self.end_time));
        let q = with_optional_pair(q, "timeZone"@, string_view(self.time_zone));
        let q = with_optional_pair(q, "limit"@, optional_u16_decimal(self.limit));
        q
    }

    open spec fn spec_is_valid(&self) -> bool {
        true
    }

    fn to_string(&self) -> (query: String) {
        let mut out = String::new();
        push_pair(&mut out, "symbol", self.symbol.as_str());
        push_pair(&mut out, "interval", self.interval.as_str());
        push_optional_u64_pair(&mut out, "startTime", self.start_time);
        push_optional_u64_pair(&mut out, "endTime", self.end_time);
        push_optional_pair(&mut out, "timeZone", &self.time_zone);
        push_optional_u16_pair(&mut out, "limit", self.limit);
        out
    }

    fn validate(&self) -> (r: Result<(), BinanceApiError>) {
        Ok(())
    }
}

/// The length of a candlestick.
#[allow(non_camel_case_types)]
#[derive(Debug, Clone, Copy, PartialEq, Eq, Structural)]
pub enum KlineInterval {
    _1s,
    _1m,
    _3m,
    _5m,
    _15m,
    _30m,
    _1h,
    _2h,
    _4h,
    _6h,
    _8h,
    _12h,
    _1d,
    _3d,
    _1w,
    _1M,
}

impl KlineInterval {
    /// The name by which the exchange knows the value.
    pub open spec fn spec_name(self) -> Seq<char> {
        match self {
            KlineInterval::_1s => "1s"@,
            KlineInterval::_1m => "1m"@,
            KlineInterval::_3m => "3m"@,
            KlineInterval::_5m => "5m"@,
            KlineInterval::_15m => "15m"@,
            KlineInterval::_30m => "30m"@,
            KlineInterval::_1h => "1h"@,
            KlineInterval::_2h => "2h"@,
            KlineInterval::_4h => "4h"@,
            KlineInterval::_6h => "6h"@,
            KlineInterval::_8h => "8h"@,
            KlineInterval::_12h => "12h"@,
            KlineInterval::_1d => "1d"@,
            KlineInterval::_3d => "3d"@,
            KlineInterval::_1w => "1w"@,
            KlineInterval::_1M => "1M"@,
        }
    }

    pub fn as_str(&self) -> (name: &'static str)
        ensures
            name@ == self.spec_name(),
    {
        match self {
            KlineInterval::_1s => "1s",
            KlineInterval::_1m => "1m",
            KlineInterval::_3m => "3m",
            KlineInterval::_5m => "5m",
            KlineInterval::_15m => "15m",
            KlineInterval::_30m => "30m",
            KlineInterval::_1h => "1h",
            KlineInterval::_2h => "2h",
            KlineInterval::_4h => "4h",
            KlineInterval::_6h => "6h",
            KlineInterval::_8h => "8h",
            KlineInterval::_12h => "12h",
            KlineInterval::_1d => "1d",
            KlineInterval::_3d => "3d",
            KlineInterval::_1w => "1w",
            KlineInterval::_1M => "1M",
        }
    }
}

/// The aggregated trades of a symbol.
#[derive(Debug)]
pub struct AggTradesRequest {
    pub symbol: String,
    pub from_id: Option<u64>,
    pub start_time: Option<u64>,
    pub end_time: Option<u64>,
    pub limit: Option<u16>,
}

impl AggTradesRequest {
    /// The required parameters are given; every optional one is left out.
    pub fn require(symbol: String) -> (r: Self)
        ensures
            r.symbol == symbol,
            r.from_id is None,
            r.start_time is None,
            r.end_time is None,
            r.limit is None,
    {
        AggTradesRequest { symbol, from_id: None, start_time: None, end_time: None, limit: None }
    }
}

impl EndpointRequest for AggTradesRequest {
    type Response = Json;

    open spec fn spec_query(&self) -> Seq<char> {
        let q = Seq::<char>::empty();
        let q = with_pair(q, "symbol"@, self.symbol@);
        let q = with_optional_pair(q, "fromId"@, optional_decimal(self.from_id));
        let q = with_optional_pair(q, "startTime"@, optional_decimal(self.start_time));
        let q = with_optional_pair(q, "endTime"@, optional_decimal(self.end_time));
        let q = with_optional_pair(q, "limit"@, optional_u16_decimal(self.limit));
        q
    }

    open spec fn spec_is_valid(&self) -> bool {
        true
    }

    fn to_string(&self) -> (query: String) {
        let mut out = String::new();
        push_pair(&mut out, "symbol", self.symbol.as_str());
        push_optional_u64_pair(&mut out, "fromId", self.from_id);
        push_optional_u64_pair(&mut out, "startTime", self.start_time);
        push_optional_u64_pair(&mut out, "endTime", self.end_time);
        push_optional_u16_pair(&mut out, "limit", self.limit);
        out
    }

    fn validate(&self) -> (r: Result<(), BinanceApiError>) {
        Ok(())
    }
}

/// The current average price of a symbol.
#[derive(Debug)]
pub struct AvgPriceRequest {
    pub symbol: String,
}

impl AvgPriceRequest {
    /// The required parameters are given; every optional one is left out.
    pub fn require(symbol: String) -> (r: Self)
        ensures
            r.symbol == symbol,
    {
        AvgPriceRequest { symbol }
    }
}

impl EndpointRequest for AvgPriceRequest {
    type Response = AvgPriceResponse;

    open spec fn spec_query(&self) -> Seq<char> {
        let q = Seq::<char>::empty();
        let q = with_pair(q, "symbol"@, self.symbol@);
        q
    }

    open spec fn spec_is_valid(&self) -> bool {
        true
    }

    fn to_string(&self) -> (query: String) {
        let mut out = String::new();
        push_pair(&mut out, "symbol", self.symbol.as_str());
        out
    }

    fn validate(&self) -> (r: Result<(), BinanceApiError>) {
        Ok(())
    }
}

/// The average price of a symbol over the last minutes.
#[derive(Debug, Clone)]
pub struct AvgPriceResponse {
    pub mins: u16,
    pub price: String,
    pub close_time: u64,
}

impl FromJson for AvgPriceResponse {
    open spec fn has_shape(document: JsonValue) -> bool {
        &&& document.u16_at("mins"@) is Some
        &&& document.text_at("price"@) is Some
        &&& document.u64_at("closeTime"@) is Some
    }

    open spec fn describes(&self, document: JsonValue) -> bool {
        &&& Some(self.mins) == document.u16_at("mins"@)
        &&& Some(self.price@) == document.text_at("price"@)
        &&& Some(self.close_time) == document.u64_at("closeTime"@)
    }

    fn from_json(document: &Json) -> (r: Option<Self>) {
        let mins = document.u16_at("mins")?;
        let price = document.text_at("price")?;
        let close_time = document.u64_at("closeTime")?;
        Some(AvgPriceResponse { mins, price, close_time })
    }
}

} // verus!
