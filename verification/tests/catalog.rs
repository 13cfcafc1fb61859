use binance_cex::endpoints::coin_m_futures::COIN_M_FutureEP;
use binance_cex::endpoints::convert::ConvertEP;
use binance_cex::endpoints::futures_account::{AccountInfoEP, IncomeHistory, IncomeType};
use binance_cex::endpoints::futures_market::FuturesMarketEP;
use binance_cex::endpoints::futures_trading::{
    FutureOrderType, FuturesTradingEP, LeverageResponse, NewOrderResponse, PriceMatch,
    WorkingType,
};
use binance_cex::endpoints::margin::MarginEP;
use binance_cex::endpoints::market_data::MarketDataEP;
use binance_cex::endpoints::public_enums::OrderSide;
use binance_cex::endpoints::spot_account::SpotAccountEP;
use binance_cex::endpoints::spot_general::SpotGeneralEP;
use binance_cex::endpoints::spot_market::{KlineInterval, SpotMarketEP};
use binance_cex::endpoints::spot_trading::{SelfTradePreventionMode, SpotTradingEP};
use binance_cex::endpoints::usd_m_futures::USD_M_FutureEP;
use binance_cex::endpoints::wallet::WalletEP;
use binance_cex::endpoints::{Endpoint, Method, ResponseType};
use binance_cex::decode::FromJson;
use binance_cex::json::Json;
use binance_cex::SecurityType;

fn params<E: Endpoint>(endpoint: E) -> (Method, SecurityType, String) {
    assert!(endpoint.is_implemented());
    endpoint.action_params()
}

#[test]
fn descriptors_of_the_wallet() {
    assert_eq!(
        params(WalletEP::SystemStatus),
        (Method::GET, SecurityType::Public, "/sapi/v1/system/status".to_string())
    );
    assert_eq!(
        params(WalletEP::WithdrawApply),
        (Method::POST, SecurityType::UserData, "/sapi/v1/capital/withdraw/apply".to_string())
    );
    assert_eq!(
        params(WalletEP::WithdrawHistory),
        (Method::GET, SecurityType::UserData, "/sapi/v1/capital/withdraw/history".to_string())
    );
}

#[test]
fn descriptors_of_the_futures() {
    assert_eq!(
        params(FuturesTradingEP::Order),
        (Method::POST, SecurityType::Trade, "/fapi/v1/order".to_string())
    );
    assert_eq!(
        params(FuturesTradingEP::PositionRiskV3),
        (Method::GET, SecurityType::UserData, "/fapi/v3/positionRisk".to_string())
    );
    assert_eq!(
        params(USD_M_FutureEP::SymbolPriceTicker),
        (Method::GET, SecurityType::MarketData, "/fapi/v2/ticker/price".to_string())
    );
    assert_eq!(
        params(COIN_M_FutureEP::SymbolOrderBookTicker),
        (Method::GET, SecurityType::MarketData, "/dapi/v1/ticker/bookTicker".to_string())
    );
    assert_eq!(
        params(FuturesMarketEP::ExchangeInfo),
        (Method::GET, SecurityType::Public, "/fapi/v1/exchangeInfo".to_string())
    );
    assert_eq!(
        params(AccountInfoEP::IncomeHistory),
        (Method::GET, SecurityType::UserData, "/fapi/v1/income".to_string())
    );
}

#[test]
fn descriptors_of_the_spot_exchange() {
    assert_eq!(
        params(SpotMarketEP::Klines),
        (Method::GET, SecurityType::Public, "/api/v3/klines".to_string())
    );
    assert_eq!(
        params(MarketDataEP::Ticker24hr),
        (Method::GET, SecurityType::Public, "/api/v3/ticker/24hr".to_string())
    );
    assert_eq!(
        params(SpotGeneralEP::Time),
        (Method::GET, SecurityType::Public, "/api/v3/time".to_string())
    );
    assert_eq!(
        params(SpotAccountEP::TradeList),
        (Method::GET, SecurityType::UserData, "/api/v3/myTrades".to_string())
    );
    assert_eq!(
        params(MarginEP::CrossMarginPairs),
        (Method::GET, SecurityType::MarketData, "/sapi/v1/margin/allPairs".to_string())
    );
    assert_eq!(
        params(ConvertEP::AssetInfo),
        (Method::GET, SecurityType::UserData, "/sapi/v1/convert/assetInfo".to_string())
    );
}

#[test]
fn only_the_placing_of_a_spot_order_has_a_descriptor() {
    assert_eq!(
        params(SpotTradingEP::Order),
        (Method::POST, SecurityType::Trade, "/api/v3/order".to_string())
    );
    for endpoint in [
        SpotTradingEP::OrderTest,
        SpotTradingEP::OpenOrders,
        SpotTradingEP::AllOrders,
        SpotTradingEP::Oco,
        SpotTradingEP::OrderList,
        SpotTradingEP::AllOrderList,
        SpotTradingEP::OpenOrderList,
        SpotTradingEP::UserDataStream,
    ] {
        assert!(!endpoint.is_implemented());
    }
    assert_eq!(SpotTradingEP::Oco.path(), "/api/v3/order/oco");
}

#[test]
fn tiers() {
    assert!(!SecurityType::Public.is_signed() && !SecurityType::Public.sends_key());
    for tier in [SecurityType::Trade, SecurityType::Margin, SecurityType::UserData] {
        assert!(tier.is_signed() && !tier.sends_key());
    }
    for tier in [SecurityType::UserStream, SecurityType::MarketData] {
        assert!(!tier.is_signed() && tier.sends_key());
    }
    assert_eq!(Method::DELETE.as_str(), "DELETE");
}

#[test]
fn names_on_the_wire() {
    assert_eq!(OrderSide::Buy.as_str(), "BUY");
    assert_eq!(OrderSide::default(), OrderSide::Buy);
    assert_eq!(FutureOrderType::TrailingStopMarket.as_str(), "TRAILING_STOP_MARKET");
    assert_eq!(FutureOrderType::TakeProfit.variant_name(), "TakeProfit");
    assert_eq!(WorkingType::MarkPrice.as_str(), "MARK_PRICE");
    assert_eq!(PriceMatch::NoMatch.as_str(), "NONE");
    assert_eq!(PriceMatch::Opponent10.as_str(), "OPPONENT_10");
    assert_eq!(SelfTradePreventionMode::NoPrevention.as_str(), "NONE");
    assert_eq!(KlineInterval::_1M.as_str(), "1M");
    assert_eq!(KlineInterval::_1m.as_str(), "1m");
    assert_eq!(ResponseType::Full.as_str(), "FULL");
    assert_eq!(IncomeType::DeliveredSettelment.as_str(), "DELIVERED_SETTELMENT");
    assert_eq!(IncomeType::default(), IncomeType::Transfer);
}

#[test]
fn names_are_read_back() {
    for income in [
        IncomeType::Transfer,
        IncomeType::RealizedPnl,
        IncomeType::FundingFee,
        IncomeType::ApiRebate,
        IncomeType::BfusdReward,
    ] {
        assert_eq!(IncomeType::parse(income.as_str()), Some(income));
    }
    assert_eq!(IncomeType::parse("transfer"), None);
    assert_eq!(IncomeType::parse(""), None);
}

#[test]
fn an_income_with_its_type() {
    let text = "{\"symbol\":\"\",\"incomeType\":\"TRANSFER\",\"income\":\"-0.37500000\",\
                \"asset\":\"USDT\",\"info\":\"TRANSFER\",\"time\":1570608000000,\
                \"tranId\":9689322392,\"tradeId\":\"\"}";
    let income = IncomeHistory::from_json(&Json::parse(text).unwrap()).unwrap();
    assert_eq!(income.income_type, IncomeType::Transfer);
    assert_eq!(income.symbol, Some(String::new()));
    assert_eq!(income.tran_id, 9689322392);
    let unknown = text.replace("\"TRANSFER\",\"income\"", "\"OTHER\",\"income\"");
    assert!(IncomeHistory::from_json(&Json::parse(&unknown).unwrap()).is_none());
}

#[test]
fn an_answer_to_a_new_order() {
    let text = "{\"orderId\":4052525244,\"symbol\":\"SUIUSDC\",\"status\":\"NEW\",\
        \"clientOrderId\":\"L4tpAzg0l78K5gp20HCAWK\",\"price\":\"0.000000\",\"avgPrice\":\"0.00\",\
        \"origQty\":\"3.0\",\"executedQty\":\"0.0\",\"cumQty\":\"0.0\",\"cumQuote\":\"0.0000000\",\
        \"timeInForce\":\"GTC\",\"type\":\"MARKET\",\"reduceOnly\":false,\"closePosition\":false,\
        \"side\":\"SELL\",\"positionSide\":\"BOTH\",\"stopPrice\":\"0.000000\",\
        \"workingType\":\"CONTRACT_PRICE\",\"priceProtect\":false,\"origType\":\"MARKET\",\
        \"priceMatch\":\"NONE\",\"selfTradePreventionMode\":\"EXPIRE_MAKER\",\"goodTillDate\":0,\
        \"updateTime\":1751627587841}";
    let order = NewOrderResponse::from_json(&Json::parse(text).unwrap()).unwrap();
    assert_eq!(order.order_id, 4052525244);
    assert_eq!(order.order_type, "MARKET");
    assert_eq!(order.activate_price, None);
    assert_eq!(order.update_time, 1751627587841);
    assert!(!order.reduce_only);
}

#[test]
fn numbers_must_fit_their_type() {
    let fits = "{\"leverage\":2147483647,\"maxNotionalValue\":\"1\",\"symbol\":\"S\"}";
    assert_eq!(LeverageResponse::from_json(&Json::parse(fits).unwrap()).unwrap().leverage, i32::MAX);
    let too_large = "{\"leverage\":2147483648,\"maxNotionalValue\":\"1\",\"symbol\":\"S\"}";
    assert!(LeverageResponse::from_json(&Json::parse(too_large).unwrap()).is_none());
    let lowest = "{\"leverage\":-2147483648,\"maxNotionalValue\":\"1\",\"symbol\":\"S\"}";
    assert_eq!(LeverageResponse::from_json(&Json::parse(lowest).unwrap()).unwrap().leverage, i32::MIN);
}
