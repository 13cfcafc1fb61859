use binance_cex::errors::BinanceApiError;
use binance_cex::json::Json;
use binance_cex::primitives::PartialOrderBookDepthUpdate;
use binance_cex::text::{
    bool_to_string, i64_to_string, push_pair, push_query_escaped, str_eq, u64_to_string,
};
use binance_cex::utils::{get_timestamp, rank, request_to_query_string, to_i64, Parameters, Rank};
use std::collections::BTreeMap;

#[test]
fn decimal_texts() {
    assert_eq!(u64_to_string(0), "0");
    assert_eq!(u64_to_string(9), "9");
    assert_eq!(u64_to_string(10), "10");
    assert_eq!(u64_to_string(1499827319559), "1499827319559");
    assert_eq!(u64_to_string(u64::MAX), "18446744073709551615");
    assert_eq!(i64_to_string(0), "0");
    assert_eq!(i64_to_string(-1121), "-1121");
    assert_eq!(i64_to_string(i64::MIN), "-9223372036854775808");
    assert_eq!(i64_to_string(i64::MAX), "9223372036854775807");
    assert_eq!(bool_to_string(true), "true");
    assert_eq!(bool_to_string(false), "false");
}

fn escaped(text: &str) -> String {
    let mut out = String::new();
    push_query_escaped(&mut out, text);
    out
}

#[test]
fn escapes_of_a_query_string() {
    assert_eq!(escaped(""), "");
    assert_eq!(escaped("BTCUSDT"), "BTCUSDT");
    assert_eq!(escaped("a b"), "a+b");
    assert_eq!(escaped("a+b"), "a%2Bb");
    assert_eq!(escaped("100%"), "100%25");
    assert_eq!(escaped("k=v&x"), "k%3Dv%26x");
    assert_eq!(escaped("[\"A\"]"), "%5B%22A%22%5D");
    assert_eq!(escaped("<#>"), "%3C%23%3E");
    assert_eq!(escaped("\u{7f}\n\0"), "%7F%0A%00");
    assert_eq!(escaped("é"), "%C3%A9");
    assert_eq!(escaped("€"), "%E2%82%AC");
    assert_eq!(escaped("~-_.*,:/!$'()@;?\\^`{|}"), "~-_.*,:/!$'()@;?\\^`{|}");
}

#[test]
fn escapes_agree_with_the_query_string_serializer() {
    let values = [
        "BTCUSDT", "a b", "a+b", "100%", "k=v&x", "[\"ETHUSDT\",\"BNBUSDT\"]", "<#>", "é€",
        "~-_.*,:/!$'()@;?\\^`{|}", "\t\r\n", "",
    ];
    for value in values {
        let mut map = BTreeMap::new();
        map.insert("key", value);
        let expected = serde_qs::to_string(&map).unwrap();
        let mut ours = String::new();
        push_pair(&mut ours, "key", value);
        assert_eq!(ours, expected);
    }
    let mut map = BTreeMap::new();
    map.insert("a", "1 2");
    map.insert("b", "3&4");
    let mut ours = String::new();
    push_pair(&mut ours, "a", "1 2");
    push_pair(&mut ours, "b", "3&4");
    assert_eq!(ours, serde_qs::to_string(&map).unwrap());
    assert_eq!(ours, "a=1+2&b=3%264");
}

#[test]
fn strings_are_compared_by_their_characters() {
    assert!(str_eq("", ""));
    assert!(str_eq("lastUpdateId", "lastUpdateId"));
    assert!(!str_eq("e", "E"));
    assert!(!str_eq("ab", "abc"));
    assert!(!str_eq("é", "e"));
}

#[test]
fn the_order_of_texts_is_that_of_strings() {
    let samples = ["", "a", "A", "ab", "b", "aa", "é", "z", "recvWindow", "timestamp", "symbol"];
    for a in samples {
        for b in samples {
            let expected = if a < b {
                Rank::Before
            } else if a == b {
                Rank::Same
            } else {
                Rank::After
            };
            assert_eq!(rank(a, b), expected, "{:?} against {:?}", a, b);
        }
    }
}

#[test]
fn parameters_are_kept_in_the_order_of_their_names() {
    let mut parameters = Parameters::new();
    assert!(parameters.is_empty());
    parameters.insert("timestamp".to_string(), "1".to_string());
    parameters.insert("symbol".to_string(), "BTCUSDT".to_string());
    parameters.insert("recvWindow".to_string(), "5000".to_string());
    parameters.insert("symbol".to_string(), "ETHBTC".to_string());
    assert_eq!(parameters.len(), 3);
    assert_eq!(parameters.get("symbol"), Some("ETHBTC"));
    assert_eq!(parameters.get("orderId"), None);
    assert_eq!(parameters.position("symbol"), (1, true));
    assert_eq!(parameters.position("a"), (0, false));
    assert_eq!(parameters.position("zzz"), (3, false));
    assert_eq!(request_to_query_string(parameters), "recvWindow=5000&symbol=ETHBTC&timestamp=1");
}

#[test]
fn the_query_string_of_parameters_agrees_with_a_sorted_map() {
    let pairs = [("symbol", "BTCUSDT"), ("orderId", "7"), ("timestamp", "9"), ("a", ""), ("orderId", "8")];
    let mut parameters = Parameters::new();
    let mut map = BTreeMap::new();
    for (name, value) in pairs {
        parameters.insert(name.to_string(), value.to_string());
        map.insert(name.to_string(), value.to_string());
    }
    let expected = map.iter().map(|(k, v)| format!("{}={}", k, v)).collect::<Vec<String>>().join("&");
    assert_eq!(parameters.to_query(), expected);
    assert_eq!(request_to_query_string(parameters), "a=&orderId=8&symbol=BTCUSDT&timestamp=9");
}

#[test]
fn one_parameter_has_no_separator() {
    let mut parameters = Parameters::new();
    parameters.insert("symbol".to_string(), "BTCUSDT".to_string());
    assert_eq!(request_to_query_string(parameters), "symbol=BTCUSDT");
}

#[test]
fn time_stamps() {
    assert_eq!(get_timestamp(0, 0), 0);
    assert_eq!(get_timestamp(1, 999_999), 1000);
    assert_eq!(get_timestamp(1, 1_000_000), 1001);
    assert_eq!(get_timestamp(1_499_827_319, 559_123_456), 1_499_827_319_559);
}

#[test]
fn integers_of_documents() {
    assert_eq!(to_i64(&Json::parse("-5").unwrap()), -5);
    assert_eq!(to_i64(&Json::parse("9223372036854775807").unwrap()), i64::MAX);
    let document = Json::parse("{\"a\":18446744073709551615,\"b\":-0,\"c\":1e3,\"d\":\"4\",\"e\":7}")
        .unwrap();
    assert_eq!(document.u64_at("a"), Some(u64::MAX));
    assert_eq!(document.i64_at("a"), None);
    assert_eq!(document.i64_at("b"), None);
    assert_eq!(document.i64_at("c"), None);
    assert_eq!(document.i64_at("d"), None);
    assert_eq!(document.text_at("d"), Some("4".to_string()));
    assert_eq!(document.i64_at("e"), Some(7));
    assert_eq!(document.u16_at("e"), Some(7));
    assert_eq!(document.u16_at("a"), None);
    assert_eq!(document.bool_at("e"), None);
    assert_eq!(document.i64_at("missing"), None);
    assert_eq!(document.optional_text_at("missing"), Some(None));
    assert_eq!(document.optional_text_at("e"), None);
}

#[test]
fn members_of_objects() {
    let document = Json::parse("{\"b\":true,\"a\":null,\"b\":false,\"n\":{\"x\":[1,\"2\"]}}").unwrap();
    // a name that is given twice keeps its last value
    assert_eq!(document.bool_at("b"), Some(false));
    assert!(document.get("a").unwrap().is_null());
    assert_eq!(document.optional_i64_at("a"), Some(None));
    let items = document.get("n").unwrap().get("x").unwrap().as_array().unwrap();
    assert_eq!(items.len(), 2);
    assert_eq!(items[0].as_i64(), Some(1));
    assert_eq!(items[1].as_str(), Some("2"));
    assert!(document.get("x").is_none());
    assert!(Json::parse("[1]").unwrap().get("0").is_none());
    assert!(Json::parse("{\"a\":1,}").is_err());
}

#[test]
fn messages_of_errors() {
    assert_eq!(BinanceApiError::WalletMaintenance.message(), "System maintenance");
    assert_eq!(BinanceApiError::StreamAlreadyConnected.message(), "Stream has already connected");
    assert_eq!(BinanceApiError::InvalidHeaderValue.message(), "Invalid header value");
    assert_eq!(
        BinanceApiError::ApiReturnError(-1121, "Invalid symbol.".to_string()).message(),
        "Api error: -1121, Invalid symbol."
    );
    assert_eq!(
        BinanceApiError::KlineValueMissingError(3, "high").message(),
        "invalid Vec for Kline: high at 3 is missing"
    );
    assert_eq!(BinanceApiError::SymbolNotFound("X".to_string()).message(), "Symbol not found: X");
    assert_eq!(BinanceApiError::AssetNotFound("Y".to_string()).message(), "Asset not found: Y");
    assert_eq!(BinanceApiError::Custom("c".to_string()).message(), "Custom error: c");
    assert_eq!(BinanceApiError::WsHandShake("h".to_string()).message(), "Websocket handshake: h");
    assert_eq!(BinanceApiError::RequestError("r".to_string()).message(), "Request error: r");
    let json = BinanceApiError::JSONValueSerDeError(Json::parse("{").unwrap_err()).message();
    assert!(json.starts_with("JSON: ") && json.len() > "JSON: ".len());
    let url = match binance_cex::client::Client::try_new(None, None, "nothing") {
        Err(e) => e.message(),
        Ok(_) => panic!("no URL was given"),
    };
    assert!(url.starts_with("URL: ") && url.len() > "URL: ".len());
}

#[test]
fn an_empty_book_update() {
    let update = PartialOrderBookDepthUpdate::default();
    assert!(update.at_utc > 1_577_836_800_000);
    assert_eq!(update.pair, "");
    assert!(update.orderbook.bids.is_empty() && update.orderbook.asks.is_empty());
}
