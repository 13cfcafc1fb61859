use binance_cex::endpoints::futures_trading::{
    FutureOrderType, LeverageRequest, NewOrderRequest, PositionRiskV3Request, TimeInForce,
};
use binance_cex::endpoints::public_enums::OrderSide;
use binance_cex::endpoints::spot_market::{
    AggTradesRequest, KlineInterval, KlinesRequest, OrderBookRequest, PriceTickerRequest,
};
use binance_cex::endpoints::wallet::{
    DepositHisrecRequest, SystemStatusRequest, WithdrawHistoryRequest, WithdrawRequest,
};
use binance_cex::endpoints::{coin_m_futures, margin, spot_account, spot_general};
use binance_cex::endpoints::{BaseRequest, EndpointRequest, OneOrMany};
use binance_cex::errors::BinanceApiError;
use binance_cex::models::AccountAndSymbolPermission;

#[test]
fn create_base_request() {
    let mut req = BaseRequest::require();
    req.recv_window = Some(30);
    println!("{:?}", req);
}

#[test]
fn base_request_is_stamped_with_a_recent_time() {
    let req = BaseRequest::init();
    // 2020-01-01 in milliseconds
    assert!(req.timestamp > 1_577_836_800_000);
    assert!(req.recv_window.is_none());
}

#[test]
fn base_request_encodes_window_before_timestamp() {
    let mut req = BaseRequest::at(1499827319559);
    assert_eq!(req.to_string(), "timestamp=1499827319559");
    req.recv_window = Some(5000);
    assert_eq!(req.to_string(), "recvWindow=5000&timestamp=1499827319559");
}

#[test]
fn absent_parameters_are_left_out() {
    let mut req = OrderBookRequest::init("BTCUSDT".to_string());
    assert_eq!(req.to_string(), "symbol=BTCUSDT");
    req.limit = Some(5);
    assert_eq!(req.to_string(), "symbol=BTCUSDT&limit=5");
}

#[test]
fn parameters_keep_the_order_of_their_declaration() {
    let mut req = AggTradesRequest::init("BTCUSDT".to_string());
    req.limit = Some(10);
    req.end_time = Some(20);
    req.start_time = Some(7);
    req.from_id = Some(0);
    assert_eq!(req.to_string(), "symbol=BTCUSDT&fromId=0&startTime=7&endTime=20&limit=10");
}

#[test]
fn encoding_twice_gives_the_same_text() {
    let mut req = KlinesRequest::init("ETH USDT&x".to_string(), KlineInterval::_1h);
    req.time_zone = Some("+02:00".to_string());
    req.limit = Some(65535);
    let first = req.to_string();
    let second = req.to_string();
    assert_eq!(first, second);
    assert_eq!(first, "symbol=ETH+USDT%26x&interval=1h&timeZone=%2B02:00&limit=65535");
}

#[test]
fn shared_parameters_are_merged_without_a_prefix() {
    let mut req = spot_account::TradeListRequest::init(
        "BTCUSDT".to_string(),
        BaseRequest::at(1700000000000),
    );
    req.limit = Some(-1);
    req.base.recv_window = Some(18446744073709551615);
    assert_eq!(
        req.to_string(),
        "symbol=BTCUSDT&limit=-1&recvWindow=18446744073709551615&timestamp=1700000000000"
    );
    let mut account = spot_account::AccountRequest::init(BaseRequest::at(0));
    account.omit_zero_balances = Some(true);
    assert_eq!(account.to_string(), "omitZeroBalances=true&timestamp=0");
    let fee = margin::CrossMarginFeeDataRequest::init(BaseRequest::at(9));
    assert_eq!(fee.to_string(), "timestamp=9");
}

#[test]
fn one_symbol_and_many_symbols() {
    let one = PriceTickerRequest(Some(OneOrMany::One("ETHUSDT".to_string())));
    assert_eq!(one.to_string(), "symbol=ETHUSDT");
    let many = PriceTickerRequest(Some(OneOrMany::Many(vec![
        "ETHUSDT".to_string(),
        "BNBUSDT".to_string(),
    ])));
    assert_eq!(many.to_string(), "symbols=%5B%22ETHUSDT%22,%22BNBUSDT%22%5D");
    let single_list = PriceTickerRequest(Some(OneOrMany::Many(vec!["A".to_string()])));
    assert_eq!(single_list.to_string(), "symbols=%5B%22A%22%5D");
    let empty_list = PriceTickerRequest(Some(OneOrMany::Many(vec![])));
    assert_eq!(empty_list.to_string(), "symbols=%5B%5D");
    assert_eq!(PriceTickerRequest(None).to_string(), "");
    assert_eq!(OneOrMany::list_text(&vec!["X".to_string(), "Y".to_string()]), "[\"X\",\"Y\"]");
}

#[test]
fn symbols_under_a_name() {
    let mut req = spot_general::ExchangeInfoRequest::init();
    assert_eq!(req.to_string(), "");
    req.symbols = Some(OneOrMany::One("BTCUSDT".to_string()));
    req.permissions = Some(AccountAndSymbolPermission::Margin);
    assert_eq!(req.to_string(), "symbols[symbol]=BTCUSDT&permissions=MARGIN");
    req.symbols = Some(OneOrMany::Many(vec!["A".to_string(), "B".to_string()]));
    req.permissions = None;
    assert_eq!(req.to_string(), "symbols[symbols]=%5B%22A%22,%22B%22%5D");
}

#[test]
fn requests_without_parameters_encode_to_nothing() {
    assert_eq!(SystemStatusRequest.to_string(), "");
    assert_eq!(binance_cex::endpoints::futures_market::ExchangeInfoRequest::init().to_string(), "");
}

fn limit_order() -> NewOrderRequest {
    let mut order = NewOrderRequest::init(
        "BTCUSDT".to_string(),
        OrderSide::Buy,
        FutureOrderType::Limit,
        BaseRequest::at(1700000000000),
    );
    order.quantity = Some("0.5".to_string());
    order.time_in_force = Some(TimeInForce::Gtc);
    order.price = Some("50000.10".to_string());
    order
}

#[test]
fn a_complete_limit_order_is_valid_and_encodes() {
    let order = limit_order();
    assert!(order.validate().is_ok());
    assert_eq!(
        order.to_string(),
        "symbol=BTCUSDT&side=BUY&type=LIMIT&timeInForce=GTC&quantity=0.5&price=50000.10\
         &timestamp=1700000000000"
    );
}

#[test]
fn a_limit_order_without_price_fails_validation() {
    let mut order = limit_order();
    order.price = None;
    match order.validate() {
        Err(BinanceApiError::Custom(message)) => {
            assert_eq!(message, "order type Limit requirements")
        }
        other => panic!("unexpected outcome: {:?}", other),
    }
}

fn order_of(order_type: FutureOrderType) -> NewOrderRequest {
    NewOrderRequest::init("BTCUSDT".to_string(), OrderSide::Sell, order_type, BaseRequest::at(1))
}

#[test]
fn each_order_type_asks_for_its_own_parameters() {
    let mut limit = order_of(FutureOrderType::Limit);
    limit.quantity = Some("1".to_string());
    limit.price = Some("1".to_string());
    assert!(limit.validate().is_err());
    limit.time_in_force = Some(TimeInForce::Fok);
    assert!(limit.validate().is_ok());

    let mut market = order_of(FutureOrderType::Market);
    assert!(market.validate().is_err());
    market.quantity = Some("1".to_string());
    assert!(market.validate().is_ok());

    for order_type in [FutureOrderType::Stop, FutureOrderType::TakeProfit] {
        let mut order = order_of(order_type);
        order.quantity = Some("1".to_string());
        order.price = Some("2".to_string());
        assert!(order.validate().is_err());
        order.stop_price = Some("3".to_string());
        assert!(order.validate().is_ok());
        order.quantity = None;
        assert!(order.validate().is_err());
    }

    for order_type in [FutureOrderType::StopMarket, FutureOrderType::TakeProfitMarket] {
        let mut order = order_of(order_type);
        assert!(order.validate().is_err());
        order.stop_price = Some("3".to_string());
        assert!(order.validate().is_ok());
    }

    let mut trailing = order_of(FutureOrderType::TrailingStopMarket);
    match trailing.validate() {
        Err(BinanceApiError::Custom(message)) => {
            assert_eq!(message, "order type TrailingStopMarket requirements")
        }
        other => panic!("unexpected outcome: {:?}", other),
    }
    trailing.callback_rate = Some("0.3".to_string());
    assert!(trailing.validate().is_ok());
}

#[test]
fn symbol_and_pair_exclude_each_other() {
    let mut req = coin_m_futures::SymbolPriceTickerRequest::init();
    assert!(req.validate().is_ok());
    req.symbol = Some("BTCUSD_PERP".to_string());
    assert!(req.validate().is_ok());
    assert_eq!(req.to_string(), "symbol=BTCUSD_PERP");
    req.pair = Some("BTCUSD".to_string());
    assert!(matches!(req.validate(), Err(BinanceApiError::Custom(_))));
}

#[test]
fn leverage_and_position_requests() {
    let leverage = LeverageRequest::init("SUIUSDC".to_string(), -3, BaseRequest::at(5));
    assert_eq!(leverage.to_string(), "symbol=SUIUSDC&leverage=-3&timestamp=5");
    let lowest = LeverageRequest::init("X".to_string(), i32::MIN, BaseRequest::at(5));
    assert_eq!(lowest.to_string(), "symbol=X&leverage=-2147483648&timestamp=5");
    let risk = PositionRiskV3Request::init(BaseRequest::at(5));
    assert_eq!(risk.to_string(), "timestamp=5");
}

#[test]
fn withdraw_request_is_stamped() {
    let mut req = WithdrawRequest::init("BTC".to_string(), "addr".to_string(), "0.01".to_string());
    assert!(req.timestamp > 1_577_836_800_000);
    req.timestamp = 42;
    req.transaction_fee_flag = Some(false);
    assert_eq!(
        req.to_string(),
        "coin=BTC&address=addr&amount=0.01&transactionFeeFlag=false&timestamp=42"
    );
}

#[test]
fn requests_stamped_with_a_given_time() {
    let mut deposits = DepositHisrecRequest::at(1499827319559);
    assert_eq!(deposits.timestamp, 1499827319559);
    assert_eq!(deposits.to_string(), "timestamp=1499827319559");
    deposits.status = Some(1);
    deposits.tx_id = Some("tx".to_string());
    deposits.recv_window = Some(-5);
    assert_eq!(deposits.to_string(), "status=1&recvWindow=-5&timestamp=1499827319559&txId=tx");

    let mut withdrawals = WithdrawHistoryRequest::at(0);
    assert_eq!(withdrawals.to_string(), "timestamp=0");
    withdrawals.coin = Some("BTC".to_string());
    withdrawals.limit = Some(10);
    assert_eq!(withdrawals.to_string(), "coin=BTC&limit=10&timestamp=0");

    let withdraw =
        WithdrawRequest::at("BTC".to_string(), "addr".to_string(), "0.5".to_string(), 42);
    assert_eq!(withdraw.to_string(), "coin=BTC&address=addr&amount=0.5&timestamp=42");
}

#[test]
fn requests_stamped_with_the_current_time() {
    let deposits = DepositHisrecRequest::init();
    assert!(deposits.timestamp > 1_577_836_800_000);
    assert!(deposits.coin.is_none() && deposits.tx_id.is_none() && deposits.limit.is_none());
    let withdrawals = WithdrawHistoryRequest::init();
    assert!(withdrawals.timestamp > 1_577_836_800_000);
    assert!(withdrawals.coin.is_none() && withdrawals.status.is_none());
    assert!(BaseRequest::require().timestamp > 1_577_836_800_000);
}
