//! The general endpoints of the spot exchange.

use vstd::prelude::*;
use vstd::string::*;
use crate::endpoints::{
    with_optional_nested_symbols, Endpoint, EndpointRequest, Method, OneOrMany, OneOrManySymbol,
    SecurityType,
};
use crate::errors::BinanceApiError;
use crate::json::Json;
use crate::models::AccountAndSymbolPermission;
use crate::text::{push_pair, with_optional_pair};

verus! {

/// The general endpoints of the spot exchange.
#[derive(Debug, Clone, Copy, PartialEq, Eq, Structural)]
pub enum SpotGeneralEP {
    Ping,
    Time,
    ExchangeInfo,
}

impl SpotGeneralEP {
    /// The path of the operation.
    pub open spec fn spec_path(self) -> Seq<char> {
        match self {
            SpotGeneralEP::Ping => "/api/v3/ping"@,
            SpotGeneralEP::Time => "/api/v3/time"@,
            SpotGeneralEP::ExchangeInfo => "/api/v3/exchangeInfo"@,
        }
    }

    pub fn path(&self) -> (path: &'static str)
        ensures
            path@ == self.spec_path(),
    {
        match self {
            SpotGeneralEP::Ping => "/api/v3/ping",
            SpotGeneralEP::Time => "/api/v3/time",
            SpotGeneralEP::ExchangeInfo => "/api/v3/exchangeInfo",
        }
    }
}

impl Endpoint for SpotGeneralEP {
    open spec fn spec_is_implemented(&self) -> bool {
        true
    }

    open spec fn spec_action_params(&self) -> (Method, SecurityType, Seq<char>) {
        match self {
            SpotGeneralEP::Ping => (Method::GET, SecurityType::Public, self.spec_path()),
            SpotGeneralEP::Time => (Method::GET, SecurityType::Public, self.spec_path()),
            SpotGeneralEP::ExchangeInfo => (Method::GET, SecurityType::Public, self.spec_path()),
        }
    }

    fn is_implemented(&self) -> (r: bool) {
        true
    }

    fn action_params(&self) -> (r: (Method, SecurityType, String)) {
        let path = String::from_str(self.path());
        match self {
            SpotGeneralEP::Ping => (Method::GET, SecurityType::Public, path),
            SpotGeneralEP::Time => (Method::GET, SecurityType::Public, path),
            SpotGeneralEP::ExchangeInfo => (Method::GET, SecurityType::Public, path),
        }
    }
}

/// The rules of the exchange and the symbols it trades, for one symbol, a list
/// of symbols, or what a permission covers.
#[derive(Debug)]
pub struct ExchangeInfoRequest {
    pub symbols: Option<OneOrManySymbol>,
    pub permissions: Option<AccountAndSymbolPermission>,
}

impl ExchangeInfoRequest {
    /// The required parameters are given; every optional one is left out.
    pub fn init() -> (r: Self)
        ensures
            r.symbols is None,
            r.permissions is None,
    {
        ExchangeInfoRequest { symbols: None, permissions: None }
    }
}

impl EndpointRequest for ExchangeInfoRequest {
    type Response = Json;

    open spec fn spec_query(&self) -> Seq<char> {
        let q = Seq::<char>::empty();
        let q = with_optional_nested_symbols(q, self.symbols);
        let q = with_optional_pair(
            q,
            "permissions"@,
            match self.permissions {
                Some(v) => Some(v.spec_name()),
                None => None,
            },
        );
        q
    }

    open spec fn spec_is_valid(&self) -> bool {
        true
    }

    fn to_string(&self) -> (query: String) {
        let mut out = String::new();
        OneOrMany::push_optional_nested_to(&self.symbols, &mut out);
        if let Some(v) = &self.permissions {
            push_pair(&mut out, "permissions", v.as_str());
        }
        out
    }

    fn validate(&self) -> (r: Result<(), BinanceApiError>) {
        Ok(())
    }
}

} // verus!
