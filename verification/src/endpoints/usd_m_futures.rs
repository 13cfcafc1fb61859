//! USD-margined futures.

use vstd::prelude::*;
use vstd::string::*;
use crate::decode::FromJson;
use crate::endpoints::{Endpoint, EndpointRequest, Method, OneOrMany, SecurityType};
use crate::errors::BinanceApiError;
use crate::json::{string_view, Json, JsonValue};
use crate::text::{push_optional_pair, with_optional_pair};

verus! {

/// The kind of a USD-margined symbol.
#[derive(Debug, Clone, Copy, PartialEq, Eq, Structural)]
pub enum SymbolType {
    Future,
}

/// The kind of a USD-margined contract.
#[derive(Debug, Clone, Copy, PartialEq, Eq, Structural)]
pub enum ContractType {
    Perpetual,
    CurrentMonth,
    NextMonth,
    CurrentQuarter,
    NextQuarter,
    PerpetualDelivering,
}

/// The market data of the USD-margined futures.
#[allow(non_camel_case_types)]
#[derive(Debug, Clone, Copy, PartialEq, Eq, Structural)]
pub enum USD_M_FutureEP {
    SymbolPriceTicker,
    SymbolOrderBookTicker,
}

impl USD_M_FutureEP {
    /// The path of the operation.
    pub open spec fn spec_path(self) -> Seq<char> {
        match self {
            USD_M_FutureEP::SymbolPriceTicker => "/fapi/v2/ticker/price"@,
            USD_M_FutureEP::SymbolOrderBookTicker => "/fapi/v1/ticker/bookTicker"@,
        }
    }

    pub fn path(&self) -> (path: &'static str)
        ensures
            path@ == self.spec_path(),
    {
        match self {
            USD_M_FutureEP::SymbolPriceTicker => "/fapi/v2/ticker/price",
            USD_M_FutureEP::SymbolOrderBookTicker => "/fapi/v1/ticker/bookTicker",
        }
    }
}

impl Endpoint for USD_M_FutureEP {
    open spec fn spec_is_implemented(&self) -> bool {
        true
    }

    open spec fn spec_action_params(&self) -> (Method, SecurityType, Seq<char>) {
        match self {
            USD_M_FutureEP::SymbolPriceTicker => (Method::GET, SecurityType::MarketData, self.spec_path()),
            USD_M_FutureEP::SymbolOrderBookTicker => (Method::GET, SecurityType::MarketData, self.spec_path()),
        }
    }

    fn is_implemented(&self) -> (r: bool) {
        true
    }

    fn action_params(&self) -> (r: (Method, SecurityType, String)) {
        let path = String::from_str(self.path());
        match self {
            USD_M_FutureEP::SymbolPriceTicker => (Method::GET, SecurityType::MarketData, path),
            USD_M_FutureEP::SymbolOrderBookTicker => (Method::GET, SecurityType::MarketData, path),
        }
    }
}

/// The latest price of one symbol, or of all of them.
#[derive(Debug)]
pub struct SymbolPriceTickerRequest {
    pub symbol: Option<String>,
}

impl SymbolPriceTickerRequest {
    /// The required parameters are given; every optional one is left out.
    pub fn init() -> (r: Self)
        ensures
            r.symbol is None,
    {
        SymbolPriceTickerRequest { symbol: None }
    }
}

impl EndpointRequest for SymbolPriceTickerRequest {
    type Response = OneOrMany<SymbolPriceTicker>;

    open spec fn spec_query(&self) -> Seq<char> {
        let q = Seq::<char>::empty();
        let q = with_optional_pair(q, "symbol"@, string_view(self.symbol));
        q
    }

    open spec fn spec_is_valid(&self) -> bool {
        true
    }

    fn to_string(&self) -> (query: String) {
        let mut out = String::new();
        push_optional_pair(&mut out, "symbol", &self.symbol);
        out
    }

    fn validate(&self) -> (r: Result<(), BinanceApiError>) {
        Ok(())
    }
}

/// The latest price of one symbol.
#[derive(Debug, Clone)]
pub struct SymbolPriceTicker {
    pub symbol: String,
    pub price: String,
    pub time: i64,
}

impl FromJson for SymbolPriceTicker {
    open spec fn has_shape(document: JsonValue) -> bool {
        &&& document.text_at("symbol"@) is Some
        &&& document.text_at("price"@) is Some
        &&& document.i64_at("time"@) is Some
    }

    open spec fn describes(&self, document: JsonValue) -> bool {
        &&& Some(self.symbol@) == document.text_at("symbol"@)
        &&& Some(self.price@) == document.text_at("price"@)
        &&& Some(self.time) == document.i64_at("time"@)
    }

    fn from_json(document: &Json) -> (r: Option<Self>) {
        let symbol = document.text_at("symbol")?;
        let price = document.text_at("price")?;
        let time = document.i64_at("time")?;
        Some(SymbolPriceTicker { symbol, price, time })
    }
}

} // verus!
