//! The market of the USD-margined futures.

use vstd::prelude::*;
use vstd::string::*;
use crate::endpoints::{Endpoint, EndpointRequest, Method, SecurityType};
use crate::errors::BinanceApiError;
use crate::json::Json;

verus! {

/// The market data of the USD-margined futures.
#[derive(Debug, Clone, Copy, PartialEq, Eq, Structural)]
pub enum FuturesMarketEP {
    ExchangeInfo,
}

impl FuturesMarketEP {
    /// The path of the operation.
    pub open spec fn spec_path(self) -> Seq<char> {
        match self {
            FuturesMarketEP::ExchangeInfo => "/fapi/v1/exchangeInfo"@,
        }
    }

    pub fn path(&self) -> (path: &'static str)
        ensures
            path@ == self.spec_path(),
    {
        match self {
            FuturesMarketEP::ExchangeInfo => "/fapi/v1/exchangeInfo",
        }
    }
}

impl Endpoint for FuturesMarketEP {
    open spec fn spec_is_implemented(&self) -> bool {
        true
    }

    open spec fn spec_action_params(&self) -> (Method, SecurityType, Seq<char>) {
        match self {
            FuturesMarketEP::ExchangeInfo => (Method::GET, SecurityType::Public, self.spec_path()),
        }
    }

    fn is_implemented(&self) -> (r: bool) {
        true
    }

    fn action_params(&self) -> (r: (Method, SecurityType, String)) {
        let path = String::from_str(self.path());
        match self {
            FuturesMarketEP::ExchangeInfo => (Method::GET, SecurityType::Public, path),
        }
    }
}

/// The rules of the exchange and the symbols it trades. The request has no
/// parameters.
#[derive(Debug)]
pub struct ExchangeInfoRequest {}

impl ExchangeInfoRequest {
    /// The required parameters are given; every optional one is left out.
    pub fn init() -> (r: Self)
    {
        ExchangeInfoRequest {  }
    }
}

impl EndpointRequest for ExchangeInfoRequest {
    type Response = Json;

    open spec fn spec_query(&self) -> Seq<char> {
        let q = Seq::<char>::empty();
        q
    }

    open spec fn spec_is_valid(&self) -> bool {
        true
    }

    fn to_string(&self) -> (query: String) {
        let out = String::new();
        out
    }

    fn validate(&self) -> (r: Result<(), BinanceApiError>) {
        Ok(())
    }
}

} // verus!
