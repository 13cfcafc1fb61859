//! Trading on the USD-margined futures.

use vstd::prelude::*;
use vstd::string::*;
use crate::decode::FromJson;
use crate::endpoints::{with_base, BaseRequest, Endpoint, EndpointRequest, Method, SecurityType};
use crate::errors::BinanceApiError;
use crate::json::{string_view, Json, JsonValue};
use crate::endpoints::public_enums::OrderSide;
use crate::text::{
    optional_bool_text, optional_decimal, push_i64_pair, push_optional_bool_pair,
    push_optional_pair, push_optional_u64_pair, push_pair, signed_decimal_text,
    with_optional_pair, with_pair,
};

verus! {

/// Trading on the USD-margined futures.
#[derive(Debug, Clone, Copy, PartialEq, Eq, Structural)]
pub enum FuturesTradingEP {
    Order,
    OrderTest,
    Leverage,
    PositionRiskV3,
}

impl FuturesTradingEP {
    /// The path of the operation.
    pub open spec fn spec_path(self) -> Seq<char> {
        match self {
            FuturesTradingEP::Order => "/fapi/v1/order"@,
            FuturesTradingEP::OrderTest => "/fapi/v1/order/test"@,
            FuturesTradingEP::Leverage => "/fapi/v1/leverage"@,
            FuturesTradingEP::PositionRiskV3 => "/fapi/v3/positionRisk"@,
        }
    }

    pub fn path(&self) -> (path: &'static str)
        ensures
            path@ == self.spec_path(),
    {
        match self {
            FuturesTradingEP::Order => "/fapi/v1/order",
            FuturesTradingEP::OrderTest => "/fapi/v1/order/test",
            FuturesTradingEP::Leverage => "/fapi/v1/leverage",
            FuturesTradingEP::PositionRiskV3 => "/fapi/v3/positionRisk",
        }
    }
}

impl Endpoint for FuturesTradingEP {
    open spec fn spec_is_implemented(&self) -> bool {
        true
    }

    open spec fn spec_action_params(&self) -> (Method, SecurityType, Seq<char>) {
        match self {
            FuturesTradingEP::Order => (Method::POST, SecurityType::Trade, self.spec_path()),
            FuturesTradingEP::OrderTest => (Method::POST, SecurityType::Trade, self.spec_path()),
            FuturesTradingEP::Leverage => (Method::POST, SecurityType::Trade, self.spec_path()),
            FuturesTradingEP::PositionRiskV3 => (Method::GET, SecurityType::UserData, self.spec_path()),
        }
    }

    fn is_implemented(&self) -> (r: bool) {
        true
    }

    fn action_params(&self) -> (r: (Method, SecurityType, String)) {
        let path = String::from_str(self.path());
        match self {
            FuturesTradingEP::Order => (Method::POST, SecurityType::Trade, path),
            FuturesTradingEP::OrderTest => (Method::POST, SecurityType::Trade, path),
            FuturesTradingEP::Leverage => (Method::POST, SecurityType::Trade, path),
            FuturesTradingEP::PositionRiskV3 => (Method::GET, SecurityType::UserData, path),
        }
    }
}

/// A new order on the futures market.
///
/// What an order must name depends on its type: a limit order its quantity, its
/// price and its time in force; a market order its quantity; a stop or a
/// take-profit order its quantity, its price and its stop price; a stop-market
/// or a take-profit-market order its stop price; a trailing stop its callback
/// rate.
#[derive(Debug)]
pub struct NewOrderRequest {
    pub symbol: String,
    pub side: OrderSide,
    pub position_side: Option<PositionSide>,
    pub order_type: FutureOrderType,
    pub time_in_force: Option<TimeInForce>,
    /// A decimal number, as text.
    pub quantity: Option<String>,
    pub reduce_only: Option<bool>,
    /// A decimal number, as text.
    pub price: Option<String>,
    pub new_client_order_id: Option<String>,
    /// A decimal number, as text.
    pub stop_price: Option<String>,
    pub close_position: Option<String>,
    /// A decimal number, as text.
    pub activation_price: Option<String>,
    /// A decimal number, as text.
    pub callback_rate: Option<String>,
    pub working_type: Option<WorkingType>,
    pub price_protect: Option<String>,
    pub new_order_resp_type: Option<ResponseType>,
    pub price_match: Option<PriceMatch>,
    pub self_trade_prevention_mode: Option<SelfTradePreventionMode>,
    pub good_till_date: Option<u64>,
    pub base: BaseRequest,
}

impl NewOrderRequest {
    /// The required parameters are given; every optional one is left out.
    pub fn init(
        symbol: String,
        side: OrderSide,
        order_type: FutureOrderType,
        base: BaseRequest,
    ) -> (r: Self)
        ensures
            r.symbol == symbol,
            r.side == side,
            r.position_side is None,
            r.order_type == order_type,
            r.time_in_force is None,
            r.quantity is None,
            r.reduce_only is None,
            r.price is None,
            r.new_client_order_id is None,
            r.stop_price is None,
            r.close_position is None,
            r.activation_price is None,
            r.callback_rate is None,
            r.working_type is None,
            r.price_protect is None,
            r.new_order_resp_type is None,
            r.price_match is None,
            r.self_trade_prevention_mode is None,
            r.good_till_date is None,
            r.base == base,
    {
        NewOrderRequest {
            symbol,
            side,
            position_side: None,
            order_type,
            time_in_force: None,
            quantity: None,
            reduce_only: None,
            price: None,
            new_client_order_id: None,
            stop_price: None,
            close_position: None,
            activation_price: None,
            callback_rate: None,
            working_type: None,
            price_protect: None,
            new_order_resp_type: None,
            price_match: None,
            self_trade_prevention_mode: None,
            good_till_date: None,
            base,
        }
    }
}

impl EndpointRequest for NewOrderRequest {
    type Response = NewOrderResponse;

    open spec fn spec_query(&self) -> Seq<char> {
        let q = Seq::<char>::empty();
        let q = with_pair(q, "symbol"@, self.symbol@);
        let q = with_pair(q, "side"@, self.side.spec_name());
        let q = with_optional_pair(
            q,
            "positionSide"@,
            match self.position_side {
                Some(v) => Some(v.spec_name()),
                None => None,
            },
        );
        let q = with_pair(q, "type"@, self.order_type.spec_name());
        let q = with_optional_pair(
            q,
            "timeInForce"@,
            match self.time_in_force {
                Some(v) => Some(v.spec_name()),
                None => None,
            },
        );
        let q = with_optional_pair(q, "quantity"@, string_view(self.quantity));
        let q = with_optional_pair(q, "reduceOnly"@, optional_bool_text(self.reduce_only));
        let q = with_optional_pair(q, "price"@, string_view(self.price));
        let q = with_optional_pair(q, "newClientOrderId"@, string_view(self.new_client_order_id));
        let q = with_optional_pair(q, "stopPrice"@, string_view(self.stop_price));
        let q = with_optional_pair(q, "closePosition"@, string_view(self.close_position));
        let q = with_optional_pair(q, "activationPrice"@, string_view(self.activation_price));
        let q = with_optional_pair(q, "callbackRate"@, string_view(self.callback_rate));
        let q = with_optional_pair(
            q,
            "workingType"@,
            match self.working_type {
                Some(v) => Some(v.spec_name()),
                None => None,
            },
        );
        let q = with_optional_pair(q, "priceProtect"@, string_view(self.price_protect));
        let q = with_optional_pair(
            q,
            "newOrderRespType"@,
            match self.new_order_resp_type {
                Some(v) => Some(v.spec_name()),
                None => None,
            },
        );
        let q = with_optional_pair(
            q,
            "priceMatch"@,
            match self.price_match {
                Some(v) => Some(v.spec_name()),
                None => None,
            },
        );
        let q = with_optional_pair(
            q,
            "selfTradePreventionMode"@,
            match self.self_trade_prevention_mode {
                Some(v) => Some(v.spec_name()),
                None => None,
            },
        );
        let q = with_optional_pair(q, "goodTillDate"@, optional_decimal(self.good_till_date));
        let q = with_base(q, self.base);
        q
    }

    open spec fn spec_is_valid(&self) -> bool {
        match self.order_type {
            FutureOrderType::Limit => self.quantity is Some && self.time_in_force is Some
                && self.price is Some,
            FutureOrderType::Market => self.quantity is Some,
            FutureOrderType::Stop | FutureOrderType::TakeProfit => self.quantity is Some
                && self.stop_price is Some && self.price is Some,
            FutureOrderType::StopMarket | FutureOrderType::TakeProfitMarket => self.stop_price
                is Some,
            FutureOrderType::TrailingStopMarket => self.callback_rate is Some,
        }
    }

    #[verifier::rlimit(60)]
    fn to_string(&self) -> (query: String) {
        let mut out = String::new();
        push_pair(&mut out, "symbol", self.symbol.as_str());
        push_pair(&mut out, "side", self.side.as_str());
        if let Some(v) = &self.position_side {
            push_pair(&mut out, "positionSide", v.as_str());
        }
        push_pair(&mut out, "type", self.order_type.as_str());
        if let Some(v) = &self.time_in_force {
            push_pair(&mut out, "timeInForce", v.as_str());
        }
        push_optional_pair(&mut out, "quantity", &self.quantity);
        push_optional_bool_pair(&mut out, "reduceOnly", self.reduce_only);
        push_optional_pair(&mut out, "price", &self.price);
        push_optional_pair(&mut out, "newClientOrderId", &self.new_client_order_id);
        push_optional_pair(&mut out, "stopPrice", &self.stop_price);
        push_optional_pair(&mut out, "closePosition", &self.close_position);
        push_optional_pair(&mut out, "activationPrice", &self.activation_price);
        push_optional_pair(&mut out, "callbackRate", &self.callback_rate);
        if let Some(v) = &self.working_type {
            push_pair(&mut out, "workingType", v.as_str());
        }
        push_optional_pair(&mut out, "priceProtect", &self.price_protect);
        if let Some(v) = &self.new_order_resp_type {
            push_pair(&mut out, "newOrderRespType", v.as_str());
        }
        if let Some(v) = &self.price_match {
            push_pair(&mut out, "priceMatch", v.as_str());
        }
        if let Some(v) = &self.self_trade_prevention_mode {
            push_pair(&mut out, "selfTradePreventionMode", v.as_str());
        }
        push_optional_u64_pair(&mut out, "goodTillDate", self.good_till_date);
        self.base.push_to(&mut out);
        out
    }

    fn validate(&self) -> (r: Result<(), BinanceApiError>)
        ensures
            r matches Err(e) ==> e matches BinanceApiError::Custom(message) && message@
                == self.order_type.spec_requirements_message(),
    {
        let complete = match self.order_type {
            FutureOrderType::Limit => self.quantity.is_some() && self.time_in_force.is_some()
                && self.price.is_some(),
            FutureOrderType::Market => self.quantity.is_some(),
            FutureOrderType::Stop | FutureOrderType::TakeProfit => self.quantity.is_some()
                && self.stop_price.is_some() && self.price.is_some(),
            FutureOrderType::StopMarket | FutureOrderType::TakeProfitMarket => {
                self.stop_price.is_some()
            },
            FutureOrderType::TrailingStopMarket => self.callback_rate.is_some(),
        };
        if complete {
            Ok(())
        } else {
            Err(BinanceApiError::Custom(self.order_type.requirements_message()))
        }
    }
}

/// What the exchange answers to a new order.
#[derive(Debug, Clone)]
pub struct NewOrderResponse {
    pub client_order_id: String,
    pub cum_qty: String,
    pub cum_quote: String,
    pub executed_qty: String,
    pub order_id: u64,
    pub avg_price: String,
    pub orig_qty: String,
    pub price: String,
    pub reduce_only: bool,
    pub side: String,
    pub position_side: String,
    pub status: String,
    pub stop_price: String,
    pub close_position: bool,
    pub symbol: String,
    pub time_in_force: String,
    pub order_type: String,
    pub orig_type: String,
    pub activate_price: Option<String>,
    pub price_rate: Option<String>,
    pub update_time: u64,
    pub working_type: String,
    pub price_protect: bool,
    pub price_match: String,
    pub self_trade_prevention_mode: String,
    pub good_till_date: u64,
}

impl FromJson for NewOrderResponse {
    open spec fn has_shape(document: JsonValue) -> bool {
        &&& document.text_at("clientOrderId"@) is Some
        &&& document.text_at("cumQty"@) is Some
        &&& document.text_at("cumQuote"@) is Some
        &&& document.text_at("executedQty"@) is Some
        &&& document.u64_at("orderId"@) is Some
        &&& document.text_at("avgPrice"@) is Some
        &&& document.text_at("origQty"@) is Some
        &&& document.text_at("price"@) is Some
        &&& document.bool_at("reduceOnly"@) is Some
        &&& document.text_at("side"@) is Some
        &&& document.text_at("positionSide"@) is Some
        &&& document.text_at("status"@) is Some
        &&& document.text_at("stopPrice"@) is Some
        &&& document.bool_at("closePosition"@) is Some
        &&& document.text_at("symbol"@) is Some
        &&& document.text_at("timeInForce"@) is Some
        &&& document.text_at("type"@) is Some
        &&& document.text_at("origType"@) is Some
        &&& document.optional_text_at("activatePrice"@) is Some
        &&& document.optional_text_at("priceRate"@) is Some
        &&& document.u64_at("updateTime"@) is Some
        &&& document.text_at("workingType"@) is Some
        &&& document.bool_at("priceProtect"@) is Some
        &&& document.text_at("priceMatch"@) is Some
        &&& document.text_at("selfTradePreventionMode"@) is Some
        &&& document.u64_at("goodTillDate"@) is Some
    }

    open spec fn describes(&self, document: JsonValue) -> bool {
        &&& Some(self.client_order_id@) == document.text_at("clientOrderId"@)
        &&& Some(self.cum_qty@) == document.text_at("cumQty"@)
        &&& Some(self.cum_quote@) == document.text_at("cumQuote"@)
        &&& Some(self.executed_qty@) == document.text_at("executedQty"@)
        &&& Some(self.order_id) == document.u64_at("orderId"@)
        &&& Some(self.avg_price@) == document.text_at("avgPrice"@)
        &&& Some(self.orig_qty@) == document.text_at("origQty"@)
        &&& Some(self.price@) == document.text_at("price"@)
        &&& Some(self.reduce_only) == document.bool_at("reduceOnly"@)
        &&& Some(self.side@) == document.text_at("side"@)
        &&& Some(self.position_side@) == document.text_at("positionSide"@)
        &&& Some(self.status@) == document.text_at("status"@)
        &&& Some(self.stop_price@) == document.text_at("stopPrice"@)
        &&& Some(self.close_position) == document.bool_at("closePosition"@)
        &&& Some(self.symbol@) == document.text_at("symbol"@)
        &&& Some(self.time_in_force@) == document.text_at("timeInForce"@)
        &&& Some(self.order_type@) == document.text_at("type"@)
        &&& Some(self.orig_type@) == document.text_at("origType"@)
        &&& Some(string_view(self.activate_price)) == document.optional_text_at("activatePrice"@)
        &&& Some(string_view(self.price_rate)) == document.optional_text_at("priceRate"@)
        &&& Some(self.update_time) == document.u64_at("updateTime"@)
        &&& Some(self.working_type@) == document.text_at("workingType"@)
        &&& Some(self.price_protect) == document.bool_at("priceProtect"@)
        &&& Some(self.price_match@) == document.text_at("priceMatch"@)
        &&& Some(self.self_trade_prevention_mode@) == document.text_at("selfTradePreventionMode"@)
        &&& Some(self.good_till_date) == document.u64_at("goodTillDate"@)
    }

    fn from_json(document: &Json) -> (r: Option<Self>) {
        let client_order_id = document.text_at("clientOrderId")?;
        let cum_qty = document.text_at("cumQty")?;
        let cum_quote = document.text_at("cumQuote")?;
        let executed_qty = document.text_at("executedQty")?;
        let order_id = document.u64_at("orderId")?;
        let avg_price = document.text_at("avgPrice")?;
        let orig_qty = document.text_at("origQty")?;
        let price = document.text_at("price")?;
        let reduce_only = document.bool_at("reduceOnly")?;
        let side = document.text_at("side")?;
        let position_side = document.text_at("positionSide")?;
        let status = document.text_at("status")?;
        let stop_price = document.text_at("stopPrice")?;
        let close_position = document.bool_at("closePosition")?;
        let symbol = document.text_at("symbol")?;
        let time_in_force = document.text_at("timeInForce")?;
        let order_type = document.text_at("type")?;
        let orig_type = document.text_at("origType")?;
        let activate_price = document.optional_text_at("activatePrice")?;
        let price_rate = document.optional_text_at("priceRate")?;
        let update_time = document.u64_at("updateTime")?;
        let working_type = document.text_at("workingType")?;
        let price_protect = document.bool_at("priceProtect")?;
        let price_match = document.text_at("priceMatch")?;
        let self_trade_prevention_mode = document.text_at("selfTradePreventionMode")?;
        let good_till_date = document.u64_at("goodTillDate")?;
        Some(
            NewOrderResponse {
                client_order_id,
                cum_qty,
                cum_quote,
                executed_qty,
                order_id,
                avg_price,
                orig_qty,
                price,
                reduce_only,
                side,
                position_side,
                status,
                stop_price,
                close_position,
                symbol,
                time_in_force,
                order_type,
                orig_type,
                activate_price,
                price_rate,
                update_time,
                working_type,
                price_protect,
                price_match,
                self_trade_prevention_mode,
                good_till_date,
            },
        )
    }
}

/// The side of a position.
#[derive(Debug, Clone, Copy, PartialEq, Eq, Structural)]
pub enum PositionSide {
    Both,
    Long,
    Short,
}

impl PositionSide {
    /// The name by which the exchange knows the value.
    pub open spec fn spec_name(self) -> Seq<char> {
        match self {
            PositionSide::Both => "BOTH"@,
            PositionSide::Long => "LONG"@,
            PositionSide::Short => "SHORT"@,
        }
    }

    pub fn as_str(&self) -> (name: &'static str)
        ensures
            name@ == self.spec_name(),
    {
        match self {
            PositionSide::Both => "BOTH",
            PositionSide::Long => "LONG",
            PositionSide::Short => "SHORT",
        }
    }
}

/// The type of a futures order.
#[derive(Debug, Clone, Copy, PartialEq, Eq, Structural)]
pub enum FutureOrderType {
    Limit,
    Market,
    Stop,
    TakeProfit,
    StopMarket,
    TakeProfitMarket,
    TrailingStopMarket,
}

impl FutureOrderType {
    /// The name by which the exchange knows the value.
    pub open spec fn spec_name(self) -> Seq<char> {
        match self {
            FutureOrderType::Limit => "LIMIT"@,
            FutureOrderType::Market => "MARKET"@,
            FutureOrderType::Stop => "STOP"@,
            FutureOrderType::TakeProfit => "TAKE_PROFIT"@,
            FutureOrderType::StopMarket => "STOP_MARKET"@,
            FutureOrderType::TakeProfitMarket => "TAKE_PROFIT_MARKET"@,
            FutureOrderType::TrailingStopMarket => "TRAILING_STOP_MARKET"@,
        }
    }

    pub fn as_str(&self) -> (name: &'static str)
        ensures
            name@ == self.spec_name(),
    {
        match self {
            FutureOrderType::Limit => "LIMIT",
            FutureOrderType::Market => "MARKET",
            FutureOrderType::Stop => "STOP",
            FutureOrderType::TakeProfit => "TAKE_PROFIT",
            FutureOrderType::StopMarket => "STOP_MARKET",
            FutureOrderType::TakeProfitMarket => "TAKE_PROFIT_MARKET",
            FutureOrderType::TrailingStopMarket => "TRAILING_STOP_MARKET",
        }
    }

    /// The name of the variant, as it stands in a message.
    pub open spec fn spec_variant_name(self) -> Seq<char> {
        match self {
            FutureOrderType::Limit => "Limit"@,
            FutureOrderType::Market => "Market"@,
            FutureOrderType::Stop => "Stop"@,
            FutureOrderType::TakeProfit => "TakeProfit"@,
            FutureOrderType::StopMarket => "StopMarket"@,
            FutureOrderType::TakeProfitMarket => "TakeProfitMarket"@,
            FutureOrderType::TrailingStopMarket => "TrailingStopMarket"@,
        }
    }

    pub fn variant_name(&self) -> (name: &'static str)
        ensures
            name@ == self.spec_variant_name(),
    {
        match self {
            FutureOrderType::Limit => "Limit",
            FutureOrderType::Market => "Market",
            FutureOrderType::Stop => "Stop",
            FutureOrderType::TakeProfit => "TakeProfit",
            FutureOrderType::StopMarket => "StopMarket",
            FutureOrderType::TakeProfitMarket => "TakeProfitMarket",
            FutureOrderType::TrailingStopMarket => "TrailingStopMarket",
        }
    }

    /// The message of an order that lacks what its type requires.
    pub open spec fn spec_requirements_message(self) -> Seq<char> {
        "order type "@ + self.spec_variant_name() + " requirements"@
    }

    pub fn requirements_message(&self) -> (message: String)
        ensures
            message@ == self.spec_requirements_message(),
    {
        String::from_str("order type ").concat(self.variant_name()).concat(" requirements")
    }
}

/// How long an order stays in force.
#[derive(Debug, Clone, Copy, PartialEq, Eq, Structural)]
pub enum TimeInForce {
    Gtc,
    Ioc,
    Fok,
    Gtd,
    Gtx,
}

impl TimeInForce {
    /// The name by which the exchange knows the value.
    pub open spec fn spec_name(self) -> Seq<char> {
        match self {
            TimeInForce::Gtc => "GTC"@,
            TimeInForce::Ioc => "IOC"@,
            TimeInForce::Fok => "FOK"@,
            TimeInForce::Gtd => "GTD"@,
            TimeInForce::Gtx => "GTX"@,
        }
    }

    pub fn as_str(&self) -> (name: &'static str)
        ensures
            name@ == self.spec_name(),
    {
        match self {
            TimeInForce::Gtc => "GTC",
            TimeInForce::Ioc => "IOC",
            TimeInForce::Fok => "FOK",
            TimeInForce::Gtd => "GTD",
            TimeInForce::Gtx => "GTX",
        }
    }
}

/// The price that triggers a conditional order.
#[derive(Debug, Clone, Copy, PartialEq, Eq, Structural)]
pub enum WorkingType {
    MarkPrice,
    ContractPrice,
}

impl WorkingType {
    /// The name by which the exchange knows the value.
    pub open spec fn spec_name(self) -> Seq<char> {
        match self {
            WorkingType::MarkPrice => "MARK_PRICE"@,
            WorkingType::ContractPrice => "CONTRACT_PRICE"@,
        }
    }

    pub fn as_str(&self) -> (name: &'static str)
        ensures
            name@ == self.spec_name(),
    {
        match self {
            WorkingType::MarkPrice => "MARK_PRICE",
            WorkingType::ContractPrice => "CONTRACT_PRICE",
        }
    }
}

/// How much of an order the exchange reports back.
#[derive(Debug, Clone, Copy, PartialEq, Eq, Structural)]
pub enum ResponseType {
    Ack,
    Result,
}

impl ResponseType {
    /// The name by which the exchange knows the value.
    pub open spec fn spec_name(self) -> Seq<char> {
        match self {
            ResponseType::Ack => "ACK"@,
            ResponseType::Result => "RESULT"@,
        }
    }

    pub fn as_str(&self) -> (name: &'static str)
        ensures
            name@ == self.spec_name(),
    {
        match self {
            ResponseType::Ack => "ACK",
            ResponseType::Result => "RESULT",
        }
    }
}

/// How the price of an order follows the book.
#[derive(Debug, Clone, Copy, PartialEq, Eq, Structural)]
pub enum PriceMatch {
    NoMatch,
    Opponent,
    Opponent5,
    Opponent10,
    Opponent20,
    Queue,
    Queue5,
    Queue10,
    Queue20,
}

impl PriceMatch {
    /// The name by which the exchange knows the value.
    pub open spec fn spec_name(self) -> Seq<char> {
        match self {
            PriceMatch::NoMatch => "NONE"@,
            PriceMatch::Opponent => "OPPONENT"@,
            PriceMatch::Opponent5 => "OPPONENT_5"@,
            PriceMatch::Opponent10 => "OPPONENT_10"@,
            PriceMatch::Opponent20 => "OPPONENT_20"@,
            PriceMatch::Queue => "QUEUE"@,
            PriceMatch::Queue5 => "QUEUE_5"@,
            PriceMatch::Queue10 => "QUEUE_10"@,
            PriceMatch::Queue20 => "QUEUE_20"@,
        }
    }

    pub fn as_str(&self) -> (name: &'static str)
        ensures
            name@ == self.spec_name(),
    {
        match self {
            PriceMatch::NoMatch => "NONE",
            PriceMatch::Opponent => "OPPONENT",
            PriceMatch::Opponent5 => "OPPONENT_5",
            PriceMatch::Opponent10 => "OPPONENT_10",
            PriceMatch::Opponent20 => "OPPONENT_20",
            PriceMatch::Queue => "QUEUE",
            PriceMatch::Queue5 => "QUEUE_5",
            PriceMatch::Queue10 => "QUEUE_10",
            PriceMatch::Queue20 => "QUEUE_20",
        }
    }
}

/// What happens to orders of one account that would trade with each other.
#[derive(Debug, Clone, Copy, PartialEq, Eq, Structural)]
pub enum SelfTradePreventionMode {
    ExpireTaker,
    ExpireBoth,
    ExpireMaker,
}

impl SelfTradePreventionMode {
    /// The name by which the exchange knows the value.
    pub open spec fn spec_name(self) -> Seq<char> {
        match self {
            SelfTradePreventionMode::ExpireTaker => "EXPIRE_TAKER"@,
            SelfTradePreventionMode::ExpireBoth => "EXPIRE_BOTH"@,
            SelfTradePreventionMode::ExpireMaker => "EXPIRE_MAKER"@,
        }
    }

    pub fn as_str(&self) -> (name: &'static str)
        ensures
            name@ == self.spec_name(),
    {
        match self {
            SelfTradePreventionMode::ExpireTaker => "EXPIRE_TAKER",
            SelfTradePreventionMode::ExpireBoth => "EXPIRE_BOTH",
            SelfTradePreventionMode::ExpireMaker => "EXPIRE_MAKER",
        }
    }
}

/// A change of the leverage of a symbol.
#[derive(Debug)]
pub struct LeverageRequest {
    pub symbol: String,
    pub leverage: i32,
    pub base: BaseRequest,
}

impl LeverageRequest {
    /// The required parameters are given; every optional one is left out.
    pub fn init(symbol: String, leverage: i32, base: BaseRequest) -> (r: Self)
        ensures
            r.symbol == symbol,
            r.leverage == leverage,
            r.base == base,
    {
        LeverageRequest { symbol, leverage, base }
    }
}

impl EndpointRequest for LeverageRequest {
    type Response = LeverageResponse;

    open spec fn spec_query(&self) -> Seq<char> {
        let q = Seq::<char>::empty();
        let q = with_pair(q, "symbol"@, self.symbol@);
        let q = with_pair(q, "leverage"@, signed_decimal_text(self.leverage as int));
        let q = with_base(q, self.base);
        q
    }

    open spec fn spec_is_valid(&self) -> bool {
        true
    }

    fn to_string(&self) -> (query: String) {
        let mut out = String::new();
        push_pair(&mut out, "symbol", self.symbol.as_str());
        push_i64_pair(&mut out, "leverage", self.leverage as i64);
        self.base.push_to(&mut out);
        out
    }

    fn validate(&self) -> (r: Result<(), BinanceApiError>) {
        Ok(())
    }
}

/// The leverage of a symbol after a change.
#[derive(Debug, Clone)]
pub struct LeverageResponse {
    pub leverage: i32,
    pub max_notional_value: String,
    pub symbol: String,
}

impl FromJson for LeverageResponse {
    open spec fn has_shape(document: JsonValue) -> bool {
        &&& document.i32_at("leverage"@) is Some
        &&& document.text_at("maxNotionalValue"@) is Some
        &&& document.text_at("symbol"@) is Some
    }

    open spec fn describes(&self, document: JsonValue) -> bool {
        &&& Some(self.leverage) == document.i32_at("leverage"@)
        &&& Some(self.max_notional_value@) == document.text_at("maxNotionalValue"@)
        &&& Some(self.symbol@) == document.text_at("symbol"@)
    }

    fn from_json(document: &Json) -> (r: Option<Self>) {
        let leverage = document.i32_at("leverage")?;
        let max_notional_value = document.text_at("maxNotionalValue")?;
        let symbol = document.text_at("symbol")?;
        Some(LeverageResponse { leverage, max_notional_value, symbol })
    }
}

/// The positions of one symbol, or of all of them.
#[derive(Debug)]
pub struct PositionRiskV3Request {
    pub symbol: Option<String>,
    pub base: BaseRequest,
}

impl PositionRiskV3Request {
    /// The required parameters are given; every optional one is left out.
    pub fn init(base: BaseRequest) -> (r: Self)
        ensures
            r.symbol is None,
            r.base == base,
    {
        PositionRiskV3Request { symbol: None, base }
    }
}

impl EndpointRequest for PositionRiskV3Request {
    type Response = Vec<PositionRiskV3>;

    open spec fn spec_query(&self) -> Seq<char> {
        let q = Seq::<char>::empty();
        let q = with_optional_pair(q, "symbol"@, string_view(self.symbol));
        let q = with_base(q, self.base);
        q
    }

    open spec fn spec_is_valid(&self) -> bool {
        true
    }

    fn to_string(&self) -> (query: String) {
        let mut out = String::new();
        push_optional_pair(&mut out, "symbol", &self.symbol);
        self.base.push_to(&mut out);
        out
    }

    fn validate(&self) -> (r: Result<(), BinanceApiError>) {
        Ok(())
    }
}

/// One position and what it risks.
#[derive(Debug, Clone)]
pub struct PositionRiskV3 {
    pub symbol: String,
    pub position_side: String,
    pub position_amt: String,
    pub entry_price: String,
    pub break_even_price: String,
    pub mark_price: String,
    pub un_realized_profit: String,
    pub liquidation_price: String,
    pub isolated_margin: String,
    pub notional: String,
    pub margin_asset: String,
    pub isolated_wallet: String,
    pub initial_margin: String,
    pub maint_margin: String,
    pub position_initial_margin: String,
    pub open_order_initial_margin: String,
    pub adl: i32,
    pub bid_notional: String,
    pub ask_notional: String,
    pub update_time: u64,
}

impl FromJson for PositionRiskV3 {
    open spec fn has_shape(document: JsonValue) -> bool {
        &&& document.text_at("symbol"@) is Some
        &&& document.text_at("positionSide"@) is Some
        &&& document.text_at("positionAmt"@) is Some
        &&& document.text_at("entryPrice"@) is Some
        &&& document.text_at("breakEvenPrice"@) is Some
        &&& document.text_at("markPrice"@) is Some
        &&& document.text_at("unRealizedProfit"@) is Some
        &&& document.text_at("liquidationPrice"@) is Some
        &&& document.text_at("isolatedMargin"@) is Some
        &&& document.text_at("notional"@) is Some
        &&& document.text_at("marginAsset"@) is Some
        &&& document.text_at("isolatedWallet"@) is Some
        &&& document.text_at("initialMargin"@) is Some
        &&& document.text_at("maintMargin"@) is Some
        &&& document.text_at("positionInitialMargin"@) is Some
        &&& document.text_at("openOrderInitialMargin"@) is Some
        &&& document.i32_at("adl"@) is Some
        &&& document.text_at("bidNotional"@) is Some
        &&& document.text_at("askNotional"@) is Some
        &&& document.u64_at("updateTime"@) is Some
    }

    open spec fn describes(&self, document: JsonValue) -> bool {
        &&& Some(self.symbol@) == document.text_at("symbol"@)
        &&& Some(self.position_side@) == document.text_at("positionSide"@)
        &&& Some(self.position_amt@) == document.text_at("positionAmt"@)
        &&& Some(self.entry_price@) == document.text_at("entryPrice"@)
        &&& Some(self.break_even_price@) == document.text_at("breakEvenPrice"@)
        &&& Some(self.mark_price@) == document.text_at("markPrice"@)
        &&& Some(self.un_realized_profit@) == document.text_at("unRealizedProfit"@)
        &&& Some(self.liquidation_price@) == document.text_at("liquidationPrice"@)
        &&& Some(self.isolated_margin@) == document.text_at("isolatedMargin"@)
        &&& Some(self.notional@) == document.text_at("notional"@)
        &&& Some(self.margin_asset@) == document.text_at("marginAsset"@)
        &&& Some(self.isolated_wallet@) == document.text_at("isolatedWallet"@)
        &&& Some(self.initial_margin@) == document.text_at("initialMargin"@)
        &&& Some(self.maint_margin@) == document.text_at("maintMargin"@)
        &&& Some(self.position_initial_margin@) == document.text_at("positionInitialMargin"@)
        &&& Some(self.open_order_initial_margin@) == document.text_at("openOrderInitialMargin"@)
        &&& Some(self.adl) == document.i32_at("adl"@)
        &&& Some(self.bid_notional@) == document.text_at("bidNotional"@)
        &&& Some(self.ask_notional@) == document.text_at("askNotional"@)
        &&& Some(self.update_time) == document.u64_at("updateTime"@)
    }

    fn from_json(document: &Json) -> (r: Option<Self>) {
        let symbol = document.text_at("symbol")?;
        let position_side = document.text_at("positionSide")?;
        let position_amt = document.text_at("positionAmt")?;
        let entry_price = document.text_at("entryPrice")?;
        let break_even_price = document.text_at("breakEvenPrice")?;
        let mark_price = document.text_at("markPrice")?;
        let un_realized_profit = document.text_at("unRealizedProfit")?;
        let liquidation_price = document.text_at("liquidationPrice")?;
        let isolated_margin = document.text_at("isolatedMargin")?;
        let notional = document.text_at("notional")?;
        let margin_asset = document.text_at("marginAsset")?;
        let isolated_wallet = document.text_at("isolatedWallet")?;
        let initial_margin = document.text_at("initialMargin")?;
        let maint_margin = document.text_at("maintMargin")?;
        let position_initial_margin = document.text_at("positionInitialMargin")?;
        let open_order_initial_margin = document.text_at("openOrderInitialMargin")?;
        let adl = document.i32_at("adl")?;
        let bid_notional = document.text_at("bidNotional")?;
        let ask_notional = document.text_at("askNotional")?;
        let update_time = document.u64_at("updateTime")?;
        Some(
            PositionRiskV3 {
                symbol,
                position_side,
                position_amt,
                entry_price,
                break_even_price,
                mark_price,
                un_realized_profit,
                liquidation_price,
                isolated_margin,
                notional,
                margin_asset,
                isolated_wallet,
                initial_margin,
                maint_margin,
                position_initial_margin,
                open_order_initial_margin,
                adl,
                bid_notional,
                ask_notional,
                update_time,
            },
        )
    }
}

} // verus!
