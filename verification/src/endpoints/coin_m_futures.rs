//! Coin-margined futures.

use vstd::prelude::*;
use vstd::string::*;
use crate::decode::FromJson;
use crate::endpoints::{Endpoint, EndpointRequest, Method, OneOrMany, SecurityType};
use crate::errors::BinanceApiError;
use crate::json::{string_view, Json, JsonValue};
use crate::text::{push_optional_pair, with_optional_pair};

verus! {

/// The kind of a coin-margined symbol.
#[derive(Debug, Clone, Copy, PartialEq, Eq, Structural)]
pub enum SymbolType {
    Delivery,
    Perpetual,
}

/// The kind of a coin-margined contract.
#[derive(Debug, Clone, Copy, PartialEq, Eq, Structural)]
pub enum ContractType {
    Perpetual,
    CurrentQuarter,
    NextQuarter,
    CurrentQuarterDelivering,
    NextQuarterDelivering,
    PerpetualDelivering,
}

/// The market data of the coin-margined futures.
#[allow(non_camel_case_types)]
#[derive(Debug, Clone, Copy, PartialEq, Eq, Structural)]
pub enum COIN_M_FutureEP {
    SymbolPriceTicker,
    SymbolOrderBookTicker,
}

impl COIN_M_FutureEP {
    /// The path of the operation.
    pub open spec fn spec_path(self) -> Seq<char> {
        match self {
            COIN_M_FutureEP::SymbolPriceTicker => "/dapi/v1/ticker/price"@,
            COIN_M_FutureEP::SymbolOrderBookTicker => "/dapi/v1/ticker/bookTicker"@,
        }
    }

    pub fn path(&self) -> (path: &'static str)
        ensures
            path@ == self.spec_path(),
    {
        match self {
            COIN_M_FutureEP::SymbolPriceTicker => "/dapi/v1/ticker/price",
            COIN_M_FutureEP::SymbolOrderBookTicker => "/dapi/v1/ticker/bookTicker",
        }
    }
}

impl Endpoint for COIN_M_FutureEP {
    open spec fn spec_is_implemented(&self) -> bool {
        true
    }

    open spec fn spec_action_params(&self) -> (Method, SecurityType, Seq<char>) {
        match self {
            COIN_M_FutureEP::SymbolPriceTicker => (Method::GET, SecurityType::MarketData, self.spec_path()),
            COIN_M_FutureEP::SymbolOrderBookTicker => (Method::GET, SecurityType::MarketData, self.spec_path()),
        }
    }

    fn is_implemented(&self) -> (r: bool) {
        true
    }

    fn action_params(&self) -> (r: (Method, SecurityType, String)) {
        let path = String::from_str(self.path());
        match self {
            COIN_M_FutureEP::SymbolPriceTicker => (Method::GET, SecurityType::MarketData, path),
            COIN_M_FutureEP::SymbolOrderBookTicker => (Method::GET, SecurityType::MarketData, path),
        }
    }
}

/// The latest price of a symbol or of the symbols of a pair. At most one of the two
/// may be named.
#[derive(Debug)]
pub struct SymbolPriceTickerRequest {
    pub symbol: Option<String>,
    pub pair: Option<String>,
}

impl SymbolPriceTickerRequest {
    /// The required parameters are given; every optional one is left out.
    pub fn init() -> (r: Self)
        ensures
            r.symbol is None,
            r.pair is None,
    {
        SymbolPriceTickerRequest { symbol: None, pair: None }
    }
}

impl EndpointRequest for SymbolPriceTickerRequest {
    type Response = OneOrMany<SymbolPriceTickerResponse>;

    open spec fn spec_query(&self) -> Seq<char> {
        let q = Seq::<char>::empty();
        let q = with_optional_pair(q, "symbol"@, string_view(self.symbol));
        let q = with_optional_pair(q, "pair"@, string_view(self.pair));
        q
    }

    open spec fn spec_is_valid(&self) -> bool {
        self.symbol is None || self.pair is None
    }

    fn to_string(&self) -> (query: String) {
        let mut out = String::new();
        push_optional_pair(&mut out, "symbol", &self.symbol);
        push_optional_pair(&mut out, "pair", &self.pair);
        out
    }

    fn validate(&self) -> (r: Result<(), BinanceApiError>)
        ensures
            r matches Err(e) ==> e matches BinanceApiError::Custom(message) && message@
                == "symbol and pair exclude each other"@,
    {
        if self.symbol.is_none() || self.pair.is_none() {
            Ok(())
        } else {
            Err(BinanceApiError::Custom(String::from_str("symbol and pair exclude each other")))
        }
    }
}

/// The latest price of one symbol.
#[derive(Debug, Clone)]
pub struct SymbolPriceTickerResponse {
    pub symbol: String,
    pub ps: String,
    pub price: String,
    pub time: i64,
}

impl FromJson for SymbolPriceTickerResponse {
    open spec fn has_shape(document: JsonValue) -> bool {
        &&& document.text_at("symbol"@) is Some
        &&& document.text_at("ps"@) is Some
        &&& document.text_at("price"@) is Some
        &&& document.i64_at("time"@) is Some
    }

    open spec fn describes(&self, document: JsonValue) -> bool {
        &&& Some(self.symbol@) == document.text_at("symbol"@)
        &&& Some(self.ps@) == document.text_at("ps"@)
        &&& Some(self.price@) == document.text_at("price"@)
        &&& Some(self.time) == document.i64_at("time"@)
    }

    fn from_json(document: &Json) -> (r: Option<Self>) {
        let symbol = document.text_at("symbol")?;
        let ps = document.text_at("ps")?;
        let price = document.text_at("price")?;
        let time = document.i64_at("time")?;
        Some(SymbolPriceTickerResponse { symbol, ps, price, time })
    }
}

} // verus!
