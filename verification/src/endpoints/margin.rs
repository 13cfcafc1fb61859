//! Margin trading.

use vstd::prelude::*;
use vstd::string::*;
use crate::endpoints::{with_base, BaseRequest, Endpoint, EndpointRequest, Method, SecurityType};
use crate::errors::BinanceApiError;
use crate::json::{string_view, Json};
use crate::text::{
    optional_small_signed_decimal, push_optional_i32_pair, push_optional_pair, with_optional_pair,
};

verus! {

/// Margin trading.
#[derive(Debug, Clone, Copy, PartialEq, Eq, Structural)]
pub enum MarginEP {
    GetBnbBurnStatus,
    CrossMarginPairs,
    CrossMarginFeeData,
    IsolatedMarginPairs,
    IsolatedMarginFeeData,
}

impl MarginEP {
    /// The path of the operation.
    pub open spec fn spec_path(self) -> Seq<char> {
        match self {
            MarginEP::GetBnbBurnStatus => "/sapi/v1/bnbBurn"@,
            MarginEP::CrossMarginPairs => "/sapi/v1/margin/allPairs"@,
            MarginEP::CrossMarginFeeData => "/sapi/v1/margin/crossMarginData"@,
            MarginEP::IsolatedMarginPairs => "/sapi/v1/margin/isolated/allPairs"@,
            MarginEP::IsolatedMarginFeeData => "/sapi/v1/margin/isolatedMarginData"@,
        }
    }

    pub fn path(&self) -> (path: &'static str)
        ensures
            path@ == self.spec_path(),
    {
        match self {
            MarginEP::GetBnbBurnStatus => "/sapi/v1/bnbBurn",
            MarginEP::CrossMarginPairs => "/sapi/v1/margin/allPairs",
            MarginEP::CrossMarginFeeData => "/sapi/v1/margin/crossMarginData",
            MarginEP::IsolatedMarginPairs => "/sapi/v1/margin/isolated/allPairs",
            MarginEP::IsolatedMarginFeeData => "/sapi/v1/margin/isolatedMarginData",
        }
    }
}

impl Endpoint for MarginEP {
    open spec fn spec_is_implemented(&self) -> bool {
        true
    }

    open spec fn spec_action_params(&self) -> (Method, SecurityType, Seq<char>) {
        match self {
            MarginEP::GetBnbBurnStatus => (Method::GET, SecurityType::UserData, self.spec_path()),
            MarginEP::CrossMarginPairs => (Method::GET, SecurityType::MarketData, self.spec_path()),
            MarginEP::CrossMarginFeeData => (Method::GET, SecurityType::UserData, self.spec_path()),
            MarginEP::IsolatedMarginPairs => (Method::GET, SecurityType::UserData, self.spec_path()),
            MarginEP::IsolatedMarginFeeData => (Method::GET, SecurityType::UserData, self.spec_path()),
        }
    }

    fn is_implemented(&self) -> (r: bool) {
        true
    }

    fn action_params(&self) -> (r: (Method, SecurityType, String)) {
        let path = String::from_str(self.path());
        match self {
            MarginEP::GetBnbBurnStatus => (Method::GET, SecurityType::UserData, path),
            MarginEP::CrossMarginPairs => (Method::GET, SecurityType::MarketData, path),
            MarginEP::CrossMarginFeeData => (Method::GET, SecurityType::UserData, path),
            MarginEP::IsolatedMarginPairs => (Method::GET, SecurityType::UserData, path),
            MarginEP::IsolatedMarginFeeData => (Method::GET, SecurityType::UserData, path),
        }
    }
}

/// Whether fees and interest are paid in BNB.
#[derive(Debug)]
pub struct GetBnbBurnStatusRequest(pub BaseRequest);

impl EndpointRequest for GetBnbBurnStatusRequest {
    type Response = Json;

    open spec fn spec_query(&self) -> Seq<char> {
        with_base(Seq::empty(), self.0)
    }

    open spec fn spec_is_valid(&self) -> bool {
        true
    }

    fn to_string(&self) -> (query: String) {
        self.0.to_string()
    }

    fn validate(&self) -> (r: Result<(), BinanceApiError>) {
        Ok(())
    }
}

/// The pairs of the cross margin market.
#[derive(Debug)]
pub struct CrossMarginPairsRequest {
    pub symbol: Option<String>,
}

impl CrossMarginPairsRequest {
    /// The required parameters are given; every optional one is left out.
    pub fn init() -> (r: Self)
        ensures
            r.symbol is None,
    {
        CrossMarginPairsRequest { symbol: None }
    }
}

impl EndpointRequest for CrossMarginPairsRequest {
    type Response = Json;

    open spec fn spec_query(&self) -> Seq<char> {
        let q = Seq::<char>::empty();
        let q = with_optional_pair(q, "symbol"@, string_view(self.symbol));
        q
    }

    open spec fn spec_is_valid(&self) -> bool {
        true
    }

    fn to_string(&self) -> (query: String) {
        let mut out = String::new();
        push_optional_pair(&mut out, "symbol", &self.symbol);
        out
    }

    fn validate(&self) -> (r: Result<(), BinanceApiError>) {
        Ok(())
    }
}

/// The fees of the cross margin market.
#[derive(Debug)]
pub struct CrossMarginFeeDataRequest {
    pub vip_level: Option<i32>,
    pub coin: Option<String>,
    pub base_request: BaseRequest,
}

impl CrossMarginFeeDataRequest {
    /// The required parameters are given; every optional one is left out.
    pub fn init(base_request: BaseRequest) -> (r: Self)
        ensures
            r.vip_level is None,
            r.coin is None,
            r.base_request == base_request,
    {
        CrossMarginFeeDataRequest { vip_level: None, coin: None, base_request }
    }
}

impl EndpointRequest for CrossMarginFeeDataRequest {
    type Response = Json;

    open spec fn spec_query(&self) -> Seq<char> {
        let q = Seq::<char>::empty();
        let q = with_optional_pair(q, "vipLevel"@, optional_small_signed_decimal(self.vip_level));
        let q = with_optional_pair(q, "coin"@, string_view(self.coin));
        let q = with_base(q, self.base_request);
        q
    }

    open spec fn spec_is_valid(&self) -> bool {
        true
    }

    fn to_string(&self) -> (query: String) {
        let mut out = String::new();
        push_optional_i32_pair(&mut out, "vipLevel", self.vip_level);
        push_optional_pair(&mut out, "coin", &self.coin);
        self.base_request.push_to(&mut out);
        out
    }

    fn validate(&self) -> (r: Result<(), BinanceApiError>) {
        Ok(())
    }
}

/// The pairs of the isolated margin market.
#[derive(Debug)]
pub struct IsolatedMarginPairsRequest {
    pub symbol: Option<String>,
}

impl IsolatedMarginPairsRequest {
    /// The required parameters are given; every optional one is left out.
    pub fn init() -> (r: Self)
        ensures
            r.symbol is None,
    {
        IsolatedMarginPairsRequest { symbol: None }
    }
}

impl EndpointRequest for IsolatedMarginPairsRequest {
    type Response = Json;

    open spec fn spec_query(&self) -> Seq<char> {
        let q = Seq::<char>::empty();
        let q = with_optional_pair(q, "symbol"@, string_view(self.symbol));
        q
    }

    open spec fn spec_is_valid(&self) -> bool {
        true
    }

    fn to_string(&self) -> (query: String) {
        let mut out = String::new();
        push_optional_pair(&mut out, "symbol", &self.symbol);
        out
    }

    fn validate(&self) -> (r: Result<(), BinanceApiError>) {
        Ok(())
    }
}

/// The fees of the isolated margin market.
#[derive(Debug)]
pub struct IsolatedMarginFeeDataRequest {
    pub vip_level: Option<i32>,
    pub symbol: Option<String>,
    pub base_request: BaseRequest,
}

impl IsolatedMarginFeeDataRequest {
    /// The required parameters are given; every optional one is left out.
    pub fn init(base_request: BaseRequest) -> (r: Self)
        ensures
            r.vip_level is None,
            r.symbol is None,
            r.base_request == base_request,
    {
        IsolatedMarginFeeDataRequest { vip_level: None, symbol: None, base_request }
    }
}

impl EndpointRequest for IsolatedMarginFeeDataRequest {
    type Response = Json;

    open spec fn spec_query(&self) -> Seq<char> {
        let q = Seq::<char>::empty();
        let q = with_optional_pair(q, "vipLevel"@, optional_small_signed_decimal(self.vip_level));
        let q = with_optional_pair(q, "symbol"@, string_view(self.symbol));
        let q = with_base(q, self.base_request);
        q
    }

    open spec fn spec_is_valid(&self) -> bool {
        true
    }

    fn to_string(&self) -> (query: String) {
        let mut out = String::new();
        push_optional_i32_pair(&mut out, "vipLevel", self.vip_level);
        push_optional_pair(&mut out, "symbol", &self.symbol);
        self.base_request.push_to(&mut out);
        out
    }

    fn validate(&self) -> (r: Result<(), BinanceApiError>) {
        Ok(())
    }
}

} // verus!
