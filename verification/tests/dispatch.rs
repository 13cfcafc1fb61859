use binance_cex::client::{is_valid_api_key, Client, HttpRequest};
use binance_cex::endpoints::futures_trading::{
    FutureOrderType, FuturesTradingEP, NewOrderRequest, TimeInForce,
};
use binance_cex::endpoints::public_enums::OrderSide;
use binance_cex::endpoints::spot_market::{OrderBookRequest, SpotMarketEP};
use binance_cex::endpoints::usd_m_futures::{SymbolPriceTickerRequest, USD_M_FutureEP};
use binance_cex::endpoints::wallet::{SystemStatusRequest, WalletEP};
use binance_cex::endpoints::{BaseRequest, Method, SecurityType};
use binance_cex::errors::BinanceApiError;
use binance_cex::signer::sign_request;

const HOST: &str = "https://api.binance.com";

fn client() -> Client {
    Client::new(Some("my-key".to_string()), Some("my-secret".to_string()), HOST)
}

fn header<'a>(request: &'a HttpRequest, name: &str) -> Option<&'a str> {
    request.headers.iter().find(|h| h.name == name).map(|h| h.value.as_str())
}

fn assert_common_headers(request: &HttpRequest) {
    assert_eq!(header(request, "user-agent"), Some("binance-rs"));
    assert_eq!(header(request, "content-type"), Some("application/x-www-form-urlencoded"));
}

#[test]
fn get_public_sends_neither_key_nor_signature() {
    let request = client().request(Method::GET, SecurityType::Public, "/api/v3/depth", Some("symbol=BTCUSDT&limit=5")).unwrap();
    assert_eq!(request.method, Method::GET);
    assert_eq!(request.url, "https://api.binance.com/api/v3/depth?symbol=BTCUSDT&limit=5");
    assert_common_headers(&request);
    assert_eq!(header(&request, "x-mbx-apikey"), None);
    assert_eq!(request.headers.len(), 2);
    assert_eq!(request.body, None);
}

#[test]
fn get_signed_sends_the_signature_and_no_key() {
    for tier in [SecurityType::Trade, SecurityType::Margin, SecurityType::UserData] {
        let request = client().request(Method::GET, tier, "/api/v3/account", Some("timestamp=1")).unwrap();
        let signed = sign_request("my-secret", Some("timestamp=1"));
        assert!(signed.starts_with("timestamp=1&signature="));
        assert_eq!(request.url, format!("https://api.binance.com/api/v3/account?{}", signed));
        assert_common_headers(&request);
        assert_eq!(header(&request, "x-mbx-apikey"), None);
        assert_eq!(request.body, None);
    }
}

#[test]
fn get_key_only_sends_the_key_and_still_appends_a_signature() {
    for tier in [SecurityType::UserStream, SecurityType::MarketData] {
        let request = client().request(Method::GET, tier, "/fapi/v2/ticker/price", Some("symbol=SUIUSDC")).unwrap();
        let signed = sign_request("my-secret", Some("symbol=SUIUSDC"));
        assert_eq!(request.url, format!("https://api.binance.com/fapi/v2/ticker/price?{}", signed));
        assert_common_headers(&request);
        assert_eq!(header(&request, "x-mbx-apikey"), Some("my-key"));
        assert_eq!(request.headers.len(), 3);
        assert_eq!(request.body, None);
    }
}

#[test]
fn post_public_sends_the_parameters_as_the_body() {
    let request = client().request(Method::POST, SecurityType::Public, "/api/v3/x", Some("a=1&b=2")).unwrap();
    assert_eq!(request.method, Method::POST);
    assert_eq!(request.url, "https://api.binance.com/api/v3/x");
    assert_common_headers(&request);
    assert_eq!(header(&request, "x-mbx-apikey"), None);
    assert_eq!(request.body, Some("a=1&b=2".to_string()));
}

#[test]
fn post_signed_sends_a_signed_body_and_no_key() {
    for tier in [SecurityType::UserData, SecurityType::Trade, SecurityType::Margin] {
        let request = client().request(Method::POST, tier, "/api/v3/order", Some("a=1")).unwrap();
        assert_eq!(request.url, "https://api.binance.com/api/v3/order");
        assert_common_headers(&request);
        assert_eq!(header(&request, "x-mbx-apikey"), None);
        assert_eq!(request.body, Some(sign_request("my-secret", Some("a=1"))));
    }
}

#[test]
fn post_key_only_sends_the_key_and_the_body_as_it_is() {
    for tier in [SecurityType::UserStream, SecurityType::MarketData] {
        let request = client().request(Method::POST, tier, "/api/v3/userDataStream", Some("a=1")).unwrap();
        assert_eq!(request.url, "https://api.binance.com/api/v3/userDataStream");
        assert_common_headers(&request);
        assert_eq!(header(&request, "x-mbx-apikey"), Some("my-key"));
        assert_eq!(request.body, Some("a=1".to_string()));
    }
}

#[test]
fn calls_without_parameters() {
    let get = client().request(Method::GET, SecurityType::Public, "/api/v3/ping", None).unwrap();
    assert_eq!(get.url, "https://api.binance.com/api/v3/ping");
    let signed = client().request(Method::GET, SecurityType::UserData, "/api/v3/account", None).unwrap();
    assert_eq!(
        signed.url,
        format!("https://api.binance.com/api/v3/account?{}", sign_request("my-secret", None))
    );
    let post = client().request(Method::POST, SecurityType::Public, "/api/v3/x", None).unwrap();
    assert_eq!(post.body, None);
}

#[test]
fn other_methods_are_refused() {
    for method in [Method::PUT, Method::DELETE, Method::HEAD, Method::OPTIONS, Method::CONNECT, Method::PATCH, Method::TRACE] {
        for tier in [SecurityType::Public, SecurityType::Trade, SecurityType::UserStream] {
            let outcome = client().request(method, tier, "/api/v3/order", Some("a=1"));
            assert!(matches!(outcome, Err(BinanceApiError::Custom(_))));
        }
    }
}

#[test]
fn a_key_that_cannot_stand_in_a_header_is_refused() {
    for key in ["line\nbreak", "del\u{7f}", "nul\0", "cl\u{e9}"] {
        let client = Client::new(Some(key.to_string()), None, HOST);
        assert!(!is_valid_api_key(key));
        let outcome = client.request(Method::GET, SecurityType::UserStream, "/x", None);
        assert!(matches!(outcome, Err(BinanceApiError::InvalidHeaderValue)));
        assert!(matches!(client.build_headers(false), Err(BinanceApiError::InvalidHeaderValue)));
        // the key is not sent in the other tiers, so it is not looked at
        assert!(client.request(Method::GET, SecurityType::Public, "/x", None).is_ok());
        assert!(client.request(Method::GET, SecurityType::Trade, "/x", None).is_ok());
        assert!(client.build_headers(true).is_ok());
    }
    for key in ["", "plain", "with space", "tab\there", "~!@#$%^&*()"] {
        assert!(is_valid_api_key(key));
    }
}

#[test]
fn a_host_that_is_no_url_is_refused() {
    assert!(matches!(Client::try_new(None, None, "not a url"), Err(BinanceApiError::URLError(_))));
    assert!(matches!(Client::try_new(None, Some("s".to_string()), ""), Err(BinanceApiError::URLError(_))));
    let client = Client::try_new(Some("k".to_string()), None, HOST).unwrap();
    assert_eq!(client.host(), HOST);
    assert_eq!(client.get_keys(), ("k", ""));
}

#[test]
fn the_url_is_resolved_against_the_host() {
    let client = Client::new(None, None, "https://example.com/base/");
    assert_eq!(client.build_url("/api/v3/time", None).unwrap(), "https://example.com/api/v3/time");
    assert_eq!(client.build_url("v3/time", Some("a=b")).unwrap(), "https://example.com/base/v3/time?a=b");
    assert!(matches!(client.build_url("http://[", None), Err(BinanceApiError::URLError(_))));
    let testnet = Client::new(None, None, "https://testnet.binance.vision");
    assert_eq!(testnet.build_url("/api/v3/ping", None).unwrap(), "https://testnet.binance.vision/api/v3/ping");
}

#[test]
fn the_named_calls_follow_their_tier() {
    let c = client();
    assert_eq!(c.get("/p", Some("a=1")).unwrap().url, "https://api.binance.com/p?a=1");
    let key_only = c.get_key_only("/p", Some("a=1")).unwrap();
    assert_eq!(header(&key_only, "x-mbx-apikey"), Some("my-key"));
    let signed = c.get_signed("/p", Some("a=1")).unwrap();
    assert_eq!(header(&signed, "x-mbx-apikey"), None);
    assert!(signed.url.contains("&signature="));
    assert_eq!(c.post("/p", Some("a=1")).unwrap().body, Some("a=1".to_string()));
    let post_key = c.post_key_only("/p", Some("a=1")).unwrap();
    assert_eq!(header(&post_key, "x-mbx-apikey"), Some("my-key"));
    assert_eq!(post_key.body, Some("a=1".to_string()));
    let post_signed = c.post_signed("/p", Some("a=1")).unwrap();
    assert_eq!(post_signed.body, Some(sign_request("my-secret", Some("a=1"))));
}

#[test]
fn listen_key_calls() {
    let c = client();
    let delete = c.delete("/api/v3/userDataStream", "abc").unwrap();
    assert_eq!(delete.method, Method::DELETE);
    assert_eq!(delete.url, "https://api.binance.com/api/v3/userDataStream");
    assert_eq!(delete.body, Some("listenKey=abc".to_string()));
    assert_eq!(header(&delete, "x-mbx-apikey"), None);
    let put = c.put("/api/v3/userDataStream", "abc").unwrap();
    assert_eq!(put.method, Method::PUT);
    assert_eq!(put.body, Some("listenKey=abc".to_string()));
    let signed = c.delete_signed("/api/v3/openOrders", Some("symbol=BTCUSDT")).unwrap();
    assert_eq!(signed.method, Method::DELETE);
    assert_eq!(
        signed.url,
        format!(
            "https://api.binance.com/api/v3/openOrders?{}",
            sign_request("my-secret", Some("symbol=BTCUSDT"))
        )
    );
    assert_eq!(header(&signed, "x-mbx-apikey"), Some("my-key"));
    assert_eq!(signed.body, None);
}

#[test]
fn access_encodes_and_dispatches() {
    let mut req = OrderBookRequest::init("BTCUSDT".to_string());
    req.limit = Some(5);
    let request = client().access(&SpotMarketEP::OrderBook, Some(req)).unwrap();
    assert_eq!(request.method, Method::GET);
    assert_eq!(request.url, "https://api.binance.com/api/v3/depth?symbol=BTCUSDT&limit=5");
    assert_eq!(header(&request, "x-mbx-apikey"), None);
}

#[test]
fn access_with_a_request_that_encodes_to_nothing() {
    let with_empty = client().access(&WalletEP::SystemStatus, Some(SystemStatusRequest)).unwrap();
    assert_eq!(with_empty.url, "https://api.binance.com/sapi/v1/system/status");
    let without = client().access::<WalletEP, SystemStatusRequest>(&WalletEP::SystemStatus, None).unwrap();
    assert_eq!(without.url, with_empty.url);
    let ticker = client().access(&USD_M_FutureEP::SymbolPriceTicker, Some(SymbolPriceTickerRequest::init())).unwrap();
    assert_eq!(
        ticker.url,
        format!("https://api.binance.com/fapi/v2/ticker/price?{}", sign_request("my-secret", None))
    );
    assert_eq!(header(&ticker, "x-mbx-apikey"), Some("my-key"));
}

#[test]
fn access_refuses_an_invalid_request_before_anything_else() {
    let order = NewOrderRequest::init(
        "BTCUSDT".to_string(),
        OrderSide::Buy,
        FutureOrderType::Limit,
        BaseRequest::at(1),
    );
    // even a client whose host cannot resolve the path reports the request first
    let outcome = client().access(&FuturesTradingEP::Order, Some(order));
    match outcome {
        Err(BinanceApiError::Custom(message)) => {
            assert_eq!(message, "order type Limit requirements")
        }
        other => panic!("unexpected outcome: {:?}", other),
    }
}

#[test]
fn access_sends_a_valid_order_signed_in_the_body() {
    let mut order = NewOrderRequest::init(
        "BTCUSDT".to_string(),
        OrderSide::Buy,
        FutureOrderType::Limit,
        BaseRequest::at(1),
    );
    order.quantity = Some("1".to_string());
    order.price = Some("2".to_string());
    order.time_in_force = Some(TimeInForce::Gtc);
    let request = client().access(&FuturesTradingEP::Order, Some(order)).unwrap();
    assert_eq!(request.method, Method::POST);
    assert_eq!(request.url, "https://api.binance.com/fapi/v1/order");
    let plain = "symbol=BTCUSDT&side=BUY&type=LIMIT&timeInForce=GTC&quantity=1&price=2&timestamp=1";
    assert_eq!(request.body, Some(sign_request("my-secret", Some(plain))));
    assert_eq!(header(&request, "x-mbx-apikey"), None);
}
