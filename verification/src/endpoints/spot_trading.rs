//! Trading on the spot exchange.

use vstd::prelude::*;
use vstd::string::*;
use crate::endpoints::{now_millis, Endpoint, EndpointRequest, Method, ResponseType, SecurityType};
use crate::errors::BinanceApiError;
use crate::json::{string_view, Json};
use crate::text::{
    decimal_text, optional_decimal, optional_signed_decimal, optional_small_signed_decimal,
    push_optional_i32_pair, push_optional_i64_pair, push_optional_pair, push_optional_u64_pair,
    push_pair, push_u64_pair, with_optional_pair, with_pair,
};

verus! {

/// Trading on the spot exchange. Only the placing of an order has a descriptor.
#[derive(Debug, Clone, Copy, PartialEq, Eq, Structural)]
pub enum SpotTradingEP {
    Order,
    OrderTest,
    OpenOrders,
    AllOrders,
    Oco,
    OrderList,
    AllOrderList,
    OpenOrderList,
    UserDataStream,
}

impl SpotTradingEP {
    /// The path of the operation.
    pub open spec fn spec_path(self) -> Seq<char> {
        match self {
            SpotTradingEP::Order => "/api/v3/order"@,
            SpotTradingEP::OrderTest => "/api/v3/order/test"@,
            SpotTradingEP::OpenOrders => "/api/v3/openOrders"@,
            SpotTradingEP::AllOrders => "/api/v3/allOrders"@,
            SpotTradingEP::Oco => "/api/v3/order/oco"@,
            SpotTradingEP::OrderList => "/api/v3/orderList"@,
            SpotTradingEP::AllOrderList => "/api/v3/allOrderList"@,
            SpotTradingEP::OpenOrderList => "/api/v3/openOrderList"@,
            SpotTradingEP::UserDataStream => "/api/v3/userDataStream"@,
        }
    }

    pub fn path(&self) -> (path: &'static str)
        ensures
            path@ == self.spec_path(),
    {
        match self {
            SpotTradingEP::Order => "/api/v3/order",
            SpotTradingEP::OrderTest => "/api/v3/order/test",
            SpotTradingEP::OpenOrders => "/api/v3/openOrders",
            SpotTradingEP::AllOrders => "/api/v3/allOrders",
            SpotTradingEP::Oco => "/api/v3/order/oco",
            SpotTradingEP::OrderList => "/api/v3/orderList",
            SpotTradingEP::AllOrderList => "/api/v3/allOrderList",
            SpotTradingEP::OpenOrderList => "/api/v3/openOrderList",
            SpotTradingEP::UserDataStream => "/api/v3/userDataStream",
        }
    }
}

impl Endpoint for SpotTradingEP {
    open spec fn spec_is_implemented(&self) -> bool {
        self is Order
    }

    open spec fn spec_action_params(&self) -> (Method, SecurityType, Seq<char>) {
        match self {
            SpotTradingEP::Order => (Method::POST, SecurityType::Trade, self.spec_path()),
            SpotTradingEP::OrderTest => (Method::POST, SecurityType::Trade, self.spec_path()),
            SpotTradingEP::OpenOrders => (Method::GET, SecurityType::UserData, self.spec_path()),
            SpotTradingEP::AllOrders => (Method::GET, SecurityType::UserData, self.spec_path()),
            SpotTradingEP::Oco => (Method::POST, SecurityType::Trade, self.spec_path()),
            SpotTradingEP::OrderList => (Method::GET, SecurityType::UserData, self.spec_path()),
            SpotTradingEP::AllOrderList => (Method::GET, SecurityType::UserData, self.spec_path()),
            SpotTradingEP::OpenOrderList => (Method::GET, SecurityType::UserData, self.spec_path()),
            SpotTradingEP::UserDataStream => (Method::POST, SecurityType::UserStream, self.spec_path()),
        }
    }

    fn is_implemented(&self) -> (r: bool) {
        match self {
            SpotTradingEP::Order => true,
            _ => false,
        }
    }

    fn action_params(&self) -> (r: (Method, SecurityType, String)) {
        let path = String::from_str(self.path());
        match self {
            SpotTradingEP::Order => (Method::POST, SecurityType::Trade, path),
            SpotTradingEP::OrderTest => (Method::POST, SecurityType::Trade, path),
            SpotTradingEP::OpenOrders => (Method::GET, SecurityType::UserData, path),
            SpotTradingEP::AllOrders => (Method::GET, SecurityType::UserData, path),
            SpotTradingEP::Oco => (Method::POST, SecurityType::Trade, path),
            SpotTradingEP::OrderList => (Method::GET, SecurityType::UserData, path),
            SpotTradingEP::AllOrderList => (Method::GET, SecurityType::UserData, path),
            SpotTradingEP::OpenOrderList => (Method::GET, SecurityType::UserData, path),
            SpotTradingEP::UserDataStream => (Method::POST, SecurityType::UserStream, path),
        }
    }
}

/// What happens to orders of one account that would trade with each other.
#[derive(Debug, Clone, Copy, PartialEq, Eq, Structural)]
pub enum SelfTradePreventionMode {
    ExpireTaker,
    ExpireMaker,
    ExpireBoth,
    NoPrevention,
}

impl SelfTradePreventionMode {
    /// The name by which the exchange knows the value.
    pub open spec fn spec_name(self) -> Seq<char> {
        match self {
            SelfTradePreventionMode::ExpireTaker => "EXPIRE_TAKER"@,
            SelfTradePreventionMode::ExpireMaker => "EXPIRE_MAKER"@,
            SelfTradePreventionMode::ExpireBoth => "EXPIRE_BOTH"@,
            SelfTradePreventionMode::NoPrevention => "NONE"@,
        }
    }

    pub fn as_str(&self) -> (name: &'static str)
        ensures
            name@ == self.spec_name(),
    {
        match self {
            SelfTradePreventionMode::ExpireTaker => "EXPIRE_TAKER",
            SelfTradePreventionMode::ExpireMaker => "EXPIRE_MAKER",
            SelfTradePreventionMode::ExpireBoth => "EXPIRE_BOTH",
            SelfTradePreventionMode::NoPrevention => "NONE",
        }
    }
}

/// A new order on the spot market.
#[derive(Debug)]
pub struct NewOrderRequest {
    pub symbol: String,
    pub side: OrderSide,
    pub order_type: OrderType,
    /// A decimal number, as text.
    pub quantity: Option<String>,
    /// A decimal number, as text.
    pub quote_order_qty: Option<String>,
    /// A decimal number, as text.
    pub price: Option<String>,
    /// A decimal number, as text.
    pub stop_price: Option<String>,
    pub time_in_force: Option<TimeInForce>,
    pub new_client_order_id: Option<String>,
    pub strategy_id: Option<i32>,
    pub strategy_type: Option<i32>,
    pub trailing_delta: Option<i64>,
    /// A decimal number, as text.
    pub iceberg_qty: Option<String>,
    pub new_order_resp_type: Option<ResponseType>,
    pub self_trade_prevention_mode: Option<SelfTradePreventionMode>,
    pub recv_window: Option<u64>,
    pub timestamp: u64,
}

impl NewOrderRequest {
    /// The required parameters are given and every optional one is left out; the
    /// request is stamped with the given time.
    pub fn at(symbol: String, side: OrderSide, order_type: OrderType, timestamp: u64) -> (r: Self)
        ensures
            r.symbol == symbol,
            r.side == side,
            r.order_type == order_type,
            r.quantity is None,
            r.quote_order_qty is None,
            r.price is None,
            r.stop_price is None,
            r.time_in_force is None,
            r.new_client_order_id is None,
            r.strategy_id is None,
            r.strategy_type is None,
            r.trailing_delta is None,
            r.iceberg_qty is None,
            r.new_order_resp_type is None,
            r.self_trade_prevention_mode is None,
            r.recv_window is None,
            r.timestamp == timestamp,
    {
        NewOrderRequest {
            symbol,
            side,
            order_type,
            quantity: None,
            quote_order_qty: None,
            price: None,
            stop_price: None,
            time_in_force: None,
            new_client_order_id: None,
            strategy_id: None,
            strategy_type: None,
            trailing_delta: None,
            iceberg_qty: None,
            new_order_resp_type: None,
            self_trade_prevention_mode: None,
            recv_window: None,
            timestamp,
        }
    }

    /// The required parameters are given; every optional one is left out, and
    /// the request is stamped with the current time.
    pub fn require(symbol: String, side: OrderSide, order_type: OrderType) -> (r: Self)
        ensures
            r.symbol == symbol,
            r.side == side,
            r.order_type == order_type,
            r.quantity is None,
            r.quote_order_qty is None,
            r.price is None,
            r.stop_price is None,
            r.time_in_force is None,
            r.new_client_order_id is None,
            r.strategy_id is None,
            r.strategy_type is None,
            r.trailing_delta is None,
            r.iceberg_qty is None,
            r.new_order_resp_type is None,
            r.self_trade_prevention_mode is None,
            r.recv_window is None,
    {
        Self::at(symbol, side, order_type, now_millis())
    }
}

impl EndpointRequest for NewOrderRequest {
    type Response = Json;

    open spec fn spec_query(&self) -> Seq<char> {
        let q = Seq::<char>::empty();
        let q = with_pair(q, "symbol"@, self.symbol@);
        let q = with_pair(q, "side"@, self.side.spec_name());
        let q = with_pair(q, "type"@, self.order_type.spec_name());
        let q = with_optional_pair(q, "quantity"@, string_view(self.quantity));
        let q = with_optional_pair(q, "quoteOrderQty"@, string_view(self.quote_order_qty));
        let q = with_optional_pair(q, "price"@, string_view(self.price));
        let q = with_optional_pair(q, "stopPrice"@, string_view(self.stop_price));
        let q = with_optional_pair(
            q,
            "timeInForce"@,
            match self.time_in_force {
                Some(v) => Some(v.spec_name()),
                None => None,
            },
        );
        let q = with_optional_pair(q, "newClientOrderId"@, string_view(self.new_client_order_id));
        let q = with_optional_pair(q, "strategyId"@, optional_small_signed_decimal(self.strategy_id));
        let q = with_optional_pair(q, "strategyType"@, optional_small_signed_decimal(self.strategy_type));
        let q = with_optional_pair(q, "trailingDelta"@, optional_signed_decimal(self.trailing_delta));
        let q = with_optional_pair(q, "icebergQty"@, string_view(self.iceberg_qty));
        let q = with_optional_pair(
            q,
            "newOrderRespType"@,
            match self.new_order_resp_type {
                Some(v) => Some(v.spec_name()),
                None => None,
            },
        );
        let q = with_optional_pair(
            q,
            "selfTradePreventionMode"@,
            match self.self_trade_prevention_mode {
                Some(v) => Some(v.spec_name()),
                None => None,
            },
        );
        let q = with_optional_pair(q, "recvWindow"@, optional_decimal(self.recv_window));
        let q = with_pair(q, "timestamp"@, decimal_text(self.timestamp as nat));
        q
    }

    open spec fn spec_is_valid(&self) -> bool {
        true
    }

    #[verifier::rlimit(60)]
    fn to_string(&self) -> (query: String) {
        let mut out = String::new();
        push_pair(&mut out, "symbol", self.symbol.as_str());
        push_pair(&mut out, "side", self.side.as_str());
        push_pair(&mut out, "type", self.order_type.as_str());
        push_optional_pair(&mut out, "quantity", &self.quantity);
        push_optional_pair(&mut out, "quoteOrderQty", &self.quote_order_qty);
        push_optional_pair(&mut out, "price", &self.price);
        push_optional_pair(&mut out, "stopPrice", &self.stop_price);
        if let Some(v) = &self.time_in_force {
            push_pair(&mut out, "timeInForce", v.as_str());
        }
        push_optional_pair(&mut out, "newClientOrderId", &self.new_client_order_id);
        push_optional_i32_pair(&mut out, "strategyId", self.strategy_id);
        push_optional_i32_pair(&mut out, "strategyType", self.strategy_type);
        push_optional_i64_pair(&mut out, "trailingDelta", self.trailing_delta);
        push_optional_pair(&mut out, "icebergQty", &self.iceberg_qty);
        if let Some(v) = &self.new_order_resp_type {
            push_pair(&mut out, "newOrderRespType", v.as_str());
        }
        if let Some(v) = &self.self_trade_prevention_mode {
            push_pair(&mut out, "selfTradePreventionMode", v.as_str());
        }
        push_optional_u64_pair(&mut out, "recvWindow", self.recv_window);
        push_u64_pair(&mut out, "timestamp", self.timestamp);
        out
    }

    fn validate(&self) -> (r: Result<(), BinanceApiError>) {
        Ok(())
    }
}

/// The type of a spot order.
#[derive(Debug, Clone, Copy, PartialEq, Eq, Structural)]
pub enum OrderType {
    Limit,
    Market,
    StopLoss,
    StopLossLimit,
    TakeProfit,
    TakeProfitLimit,
    LimitMaker,
}

impl OrderType {
    /// The name by which the exchange knows the value.
    pub open spec fn spec_name(self) -> Seq<char> {
        match self {
            OrderType::Limit => "LIMIT"@,
            OrderType::Market => "MARKET"@,
            OrderType::StopLoss => "STOP_LOSS"@,
            OrderType::StopLossLimit => "STOP_LOSS_LIMIT"@,
            OrderType::TakeProfit => "TAKE_PROFIT"@,
            OrderType::TakeProfitLimit => "TAKE_PROFIT_LIMIT"@,
            OrderType::LimitMaker => "LIMIT_MAKER"@,
        }
    }

    pub fn as_str(&self) -> (name: &'static str)
        ensures
            name@ == self.spec_name(),
    {
        match self {
            OrderType::Limit => "LIMIT",
            OrderType::Market => "MARKET",
            OrderType::StopLoss => "STOP_LOSS",
            OrderType::StopLossLimit => "STOP_LOSS_LIMIT",
            OrderType::TakeProfit => "TAKE_PROFIT",
            OrderType::TakeProfitLimit => "TAKE_PROFIT_LIMIT",
            OrderType::LimitMaker => "LIMIT_MAKER",
        }
    }
}

/// The side of an order.
#[derive(Debug, Clone, Copy, PartialEq, Eq, Structural)]
pub enum OrderSide {
    Buy,
    Sell,
}

impl OrderSide {
    /// The name by which the exchange knows the value.
    pub open spec fn spec_name(self) -> Seq<char> {
        match self {
            OrderSide::Buy => "BUY"@,
            OrderSide::Sell => "SELL"@,
        }
    }

    pub fn as_str(&self) -> (name: &'static str)
        ensures
            name@ == self.spec_name(),
    {
        match self {
            OrderSide::Buy => "BUY",
            OrderSide::Sell => "SELL",
        }
    }
}

/// How long an order stays in force.
#[derive(Debug, Clone, Copy, PartialEq, Eq, Structural)]
pub enum TimeInForce {
    Gtc,
    Ioc,
    Fok,
}

impl TimeInForce {
    /// The name by which the exchange knows the value.
    pub open spec fn spec_name(self) -> Seq<char> {
        match self {
            TimeInForce::Gtc => "GTC"@,
            TimeInForce::Ioc => "IOC"@,
            TimeInForce::Fok => "FOK"@,
        }
    }

    pub fn as_str(&self) -> (name: &'static str)
        ensures
            name@ == self.spec_name(),
    {
        match self {
            TimeInForce::Gtc => "GTC",
            TimeInForce::Ioc => "IOC",
            TimeInForce::Fok => "FOK",
        }
    }
}

} // verus!
