//! The account of the spot exchange.

use vstd::prelude::*;
use vstd::string::*;
use crate::endpoints::{with_base, BaseRequest, Endpoint, EndpointRequest, Method, SecurityType};
use crate::errors::BinanceApiError;
use crate::json::{string_view, Json};
use crate::text::{
    optional_bool_text, optional_decimal, optional_small_signed_decimal, push_optional_bool_pair,
    push_optional_i32_pair, push_optional_pair, push_optional_u64_pair, push_pair,
    with_optional_pair, with_pair,
};

verus! {

/// The account of the spot exchange.
#[derive(Debug, Clone, Copy, PartialEq, Eq, Structural)]
pub enum SpotAccountEP {
    Account,
    TradeList,
    Order,
    OpenOrders,
    AllOrders,
    OrderList,
    AllOrderList,
    OpenOrderList,
}

impl SpotAccountEP {
    /// The path of the operation.
    pub open spec fn spec_path(self) -> Seq<char> {
        match self {
            SpotAccountEP::Account => "/api/v3/account"@,
            SpotAccountEP::TradeList => "/api/v3/myTrades"@,
            SpotAccountEP::Order => "/api/v3/order"@,
            SpotAccountEP::OpenOrders => "/api/v3/openOrders"@,
            SpotAccountEP::AllOrders => "/api/v3/allOrders"@,
            SpotAccountEP::OrderList => "/api/v3/orderList"@,
            SpotAccountEP::AllOrderList => "/api/v3/allOrderList"@,
            SpotAccountEP::OpenOrderList => "/api/v3/openOrderList"@,
        }
    }

    pub fn path(&self) -> (path: &'static str)
        ensures
            path@ == self.spec_path(),
    {
        match self {
            SpotAccountEP::Account => "/api/v3/account",
            SpotAccountEP::TradeList => "/api/v3/myTrades",
            SpotAccountEP::Order => "/api/v3/order",
            SpotAccountEP::OpenOrders => "/api/v3/openOrders",
            SpotAccountEP::AllOrders => "/api/v3/allOrders",
            SpotAccountEP::OrderList => "/api/v3/orderList",
            SpotAccountEP::AllOrderList => "/api/v3/allOrderList",
            SpotAccountEP::OpenOrderList => "/api/v3/openOrderList",
        }
    }
}

impl Endpoint for SpotAccountEP {
    open spec fn spec_is_implemented(&self) -> bool {
        true
    }

    open spec fn spec_action_params(&self) -> (Method, SecurityType, Seq<char>) {
        match self {
            SpotAccountEP::Account => (Method::GET, SecurityType::UserData, self.spec_path()),
            SpotAccountEP::TradeList => (Method::GET, SecurityType::UserData, self.spec_path()),
            SpotAccountEP::Order => (Method::GET, SecurityType::UserData, self.spec_path()),
            SpotAccountEP::OpenOrders => (Method::GET, SecurityType::UserData, self.spec_path()),
            SpotAccountEP::AllOrders => (Method::GET, SecurityType::UserData, self.spec_path()),
            SpotAccountEP::OrderList => (Method::GET, SecurityType::UserData, self.spec_path()),
            SpotAccountEP::AllOrderList => (Method::GET, SecurityType::UserData, self.spec_path()),
            SpotAccountEP::OpenOrderList => (Method::GET, SecurityType::UserData, self.spec_path()),
        }
    }

    fn is_implemented(&self) -> (r: bool) {
        true
    }

    fn action_params(&self) -> (r: (Method, SecurityType, String)) {
        let path = String::from_str(self.path());
        match self {
            SpotAccountEP::Account => (Method::GET, SecurityType::UserData, path),
            SpotAccountEP::TradeList => (Method::GET, SecurityType::UserData, path),
            SpotAccountEP::Order => (Method::GET, SecurityType::UserData, path),
            SpotAccountEP::OpenOrders => (Method::GET, SecurityType::UserData, path),
            SpotAccountEP::AllOrders => (Method::GET, SecurityType::UserData, path),
            SpotAccountEP::OrderList => (Method::GET, SecurityType::UserData, path),
            SpotAccountEP::AllOrderList => (Method::GET, SecurityType::UserData, path),
            SpotAccountEP::OpenOrderList => (Method::GET, SecurityType::UserData, path),
        }
    }
}

/// The state of the account.
#[derive(Debug)]
pub struct AccountRequest {
    pub omit_zero_balances: Option<bool>,
    pub base: BaseRequest,
}

impl AccountRequest {
    /// The required parameters are given; every optional one is left out.
    pub fn init(base: BaseRequest) -> (r: Self)
        ensures
            r.omit_zero_balances is None,
            r.base == base,
    {
        AccountRequest { omit_zero_balances: None, base }
    }
}

impl EndpointRequest for AccountRequest {
    type Response = Json;

    open spec fn spec_query(&self) -> Seq<char> {
        let q = Seq::<char>::empty();
        let q = with_optional_pair(q, "omitZeroBalances"@, optional_bool_text(self.omit_zero_balances));
        let q = with_base(q, self.base);
        q
    }

    open spec fn spec_is_valid(&self) -> bool {
        true
    }

    fn to_string(&self) -> (query: String) {
        let mut out = String::new();
        push_optional_bool_pair(&mut out, "omitZeroBalances", self.omit_zero_balances);
        self.base.push_to(&mut out);
        out
    }

    fn validate(&self) -> (r: Result<(), BinanceApiError>) {
        Ok(())
    }
}

/// The trades of the account in one symbol.
#[derive(Debug)]
pub struct TradeListRequest {
    pub symbol: String,
    pub order_id: Option<u64>,
    pub start_time: Option<u64>,
    pub end_time: Option<u64>,
    pub from_id: Option<u64>,
    pub limit: Option<i32>,
    pub base: BaseRequest,
}

impl TradeListRequest {
    /// The required parameters are given; every optional one is left out.
    pub fn init(symbol: String, base: BaseRequest) -> (r: Self)
        ensures
            r.symbol == symbol,
            r.order_id is None,
            r.start_time is None,
            r.end_time is None,
            r.from_id is None,
            r.limit is None,
            r.base == base,
    {
        TradeListRequest {
            symbol,
            order_id: None,
            start_time: None,
            end_time: None,
            from_id: None,
            limit: None,
            base,
        }
    }
}

impl EndpointRequest for TradeListRequest {
    type Response = Json;

    open spec fn spec_query(&self) -> Seq<char> {
        let q = Seq::<char>::empty();
        let q = with_pair(q, "symbol"@, self.symbol@);
        let q = with_optional_pair(q, "orderId"@, optional_decimal(self.order_id));
        let q = with_optional_pair(q, "startTime"@, optional_decimal(self.start_time));
        let q = with_optional_pair(q, "endTime"@, optional_decimal(self.end_time));
        let q = with_optional_pair(q, "fromId"@, optional_decimal(self.from_id));
        let q = with_optional_pair(q, "limit"@, optional_small_signed_decimal(self.limit));
        let q = with_base(q, self.base);
        q
    }

    open spec fn spec_is_valid(&self) -> bool {
        true
    }

    fn to_string(&self) -> (query: String) {
        let mut out = String::new();
        push_pair(&mut out, "symbol", self.symbol.as_str());
        push_optional_u64_pair(&mut out, "orderId", self.order_id);
        push_optional_u64_pair(&mut out, "startTime", self.start_time);
        push_optional_u64_pair(&mut out, "endTime", self.end_time);
        push_optional_u64_pair(&mut out, "fromId", self.from_id);
        push_optional_i32_pair(&mut out, "limit", self.limit);
        self.base.push_to(&mut out);
        out
    }

    fn validate(&self) -> (r: Result<(), BinanceApiError>) {
        Ok(())
    }
}

/// The state of one order.
#[derive(Debug)]
pub struct QueryOrderRequest {
    pub symbol: String,
    pub order_id: Option<u64>,
    pub orig_client_order_id: Option<String>,
    pub base: BaseRequest,
}

impl QueryOrderRequest {
    /// The required parameters are given; every optional one is left out.
    pub fn init(symbol: String, base: BaseRequest) -> (r: Self)
        ensures
            r.symbol == symbol,
            r.order_id is None,
            r.orig_client_order_id is None,
            r.base == base,
    {
        QueryOrderRequest { symbol, order_id: None, orig_client_order_id: None, base }
    }
}

impl EndpointRequest for QueryOrderRequest {
    type Response = Json;

    open spec fn spec_query(&self) -> Seq<char> {
        let q = Seq::<char>::empty();
        let q = with_pair(q, "symbol"@, self.symbol@);
        let q = with_optional_pair(q, "orderId"@, optional_decimal(self.order_id));
        let q = with_optional_pair(q, "origClientOrderId"@, string_view(self.orig_client_order_id));
        let q = with_base(q, self.base);
        q
    }

    open spec fn spec_is_valid(&self) -> bool {
        true
    }

    fn to_string(&self) -> (query: String) {
        let mut out = String::new();
        push_pair(&mut out, "symbol", self.symbol.as_str());
        push_optional_u64_pair(&mut out, "orderId", self.order_id);
        push_optional_pair(&mut out, "origClientOrderId", &self.orig_client_order_id);
        self.base.push_to(&mut out);
        out
    }

    fn validate(&self) -> (r: Result<(), BinanceApiError>) {
        Ok(())
    }
}

} // verus!
