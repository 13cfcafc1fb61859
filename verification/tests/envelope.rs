use binance_cex::client::Client;
use binance_cex::decode::FromJson;
use binance_cex::endpoints::usd_m_futures::SymbolPriceTicker;
use binance_cex::endpoints::wallet::{SystemStatusResponse, WithdrawHistoryResponse};
use binance_cex::endpoints::{OneOrMany, Response};
use binance_cex::errors::BinanceApiError;
use binance_cex::json::Json;
use binance_cex::models::SymbolPrice;

#[test]
fn an_error_body_becomes_the_api_error() {
    let outcome =
        Client::handle_api_return::<SymbolPrice>("{\"code\": -1121, \"msg\": \"Invalid symbol.\"}");
    match outcome {
        Err(BinanceApiError::ApiReturnError(code, msg)) => {
            assert_eq!(code, -1121);
            assert_eq!(msg, "Invalid symbol.");
        }
        other => panic!("unexpected outcome: {:?}", other),
    }
}

#[test]
fn a_data_body_becomes_the_data() {
    let price: SymbolPrice =
        Client::handle_api_return("{\"symbol\":\"BTCUSDT\",\"price\":\"50000.00\"}").unwrap();
    assert_eq!(price.symbol, "BTCUSDT");
    assert_eq!(price.price, "50000.00");
}

#[test]
fn a_body_that_is_no_json_is_a_decode_error() {
    for body in ["", "<html>", "{\"code\": 1", "{'code': 1}"] {
        assert!(matches!(
            Client::handle_api_return::<SymbolPrice>(body),
            Err(BinanceApiError::JSONValueSerDeError(_))
        ));
        assert!(matches!(
            Client::read_envelope(body),
            Err(BinanceApiError::JSONValueSerDeError(_))
        ));
    }
}

#[test]
fn the_error_shape_is_tried_first() {
    // data that happens to hold an integer `code` and a string `msg` is an error
    let outcome = Client::handle_api_return::<SymbolPrice>(
        "{\"symbol\":\"BTCUSDT\",\"code\":7,\"msg\":\"seven\",\"price\":\"1\"}",
    );
    assert!(matches!(outcome, Err(BinanceApiError::ApiReturnError(7, _))));
}

#[test]
fn what_only_looks_like_an_error_is_data() {
    for body in [
        "{\"code\":\"7\",\"msg\":\"seven\"}",
        "{\"code\":7,\"msg\":8}",
        "{\"code\":7}",
        "{\"msg\":\"seven\"}",
        "{\"code\":7.5,\"msg\":\"seven\"}",
        "{\"code\":9223372036854775808,\"msg\":\"too large\"}",
        "[7,\"seven\"]",
        "7",
        "null",
    ] {
        assert!(Client::read_envelope(body).is_ok(), "{}", body);
    }
}

#[test]
fn the_code_may_be_any_64_bit_integer() {
    let low = Client::read_envelope("{\"code\":-9223372036854775808,\"msg\":\"\"}");
    assert!(matches!(low, Err(BinanceApiError::ApiReturnError(i64::MIN, _))));
    let high = Client::read_envelope("{\"code\":9223372036854775807,\"msg\":\"\"}");
    assert!(matches!(high, Err(BinanceApiError::ApiReturnError(i64::MAX, _))));
    let zero = Client::read_envelope("{\"code\":0,\"msg\":\"ok\"}");
    assert!(matches!(zero, Err(BinanceApiError::ApiReturnError(0, _))));
}

#[test]
fn the_envelope_of_a_document() {
    let document = Json::parse("{\"code\":-2015,\"msg\":\"Invalid API-key\"}").unwrap();
    match Response::from_json(document) {
        Response::Error { code, msg } => {
            assert_eq!(code, -2015);
            assert_eq!(msg, "Invalid API-key");
        }
        Response::Data(_) => panic!("an error was expected"),
    }
    let document = Json::parse("[1,2]").unwrap();
    assert!(matches!(Response::from_json(document), Response::Data(Json::Array(_))));
}

#[test]
fn typed_data_of_a_response() {
    let status: SystemStatusResponse =
        Client::handle_api_return("{\"status\":0,\"msg\":\"normal\"}").unwrap();
    assert_eq!(status.status, 0);
    assert_eq!(status.msg, "normal");
    assert!(SystemStatusResponse::from_json(&Json::parse("{\"status\":0}").unwrap()).is_none());
    assert!(SystemStatusResponse::from_json(&Json::parse("{\"status\":\"0\",\"msg\":\"\"}").unwrap())
        .is_none());
}

#[test]
fn one_value_or_a_list_of_them() {
    let one = Json::parse("{\"symbol\":\"SUIUSDC\",\"price\":\"3.1\",\"time\":1751627587841}").unwrap();
    match OneOrMany::<SymbolPriceTicker>::from_json(&one) {
        Some(OneOrMany::One(ticker)) => {
            assert_eq!(ticker.symbol, "SUIUSDC");
            assert_eq!(ticker.price, "3.1");
            assert_eq!(ticker.time, 1751627587841);
        }
        other => panic!("unexpected outcome: {:?}", other),
    }
    let many = Json::parse(
        "[{\"symbol\":\"A\",\"price\":\"1\",\"time\":1},{\"symbol\":\"B\",\"price\":\"2\",\"time\":-2}]",
    )
    .unwrap();
    match OneOrMany::<SymbolPriceTicker>::from_json(&many) {
        Some(OneOrMany::Many(list)) => {
            assert_eq!(list.len(), 2);
            assert_eq!(list[1].symbol, "B");
            assert_eq!(list[1].time, -2);
        }
        other => panic!("unexpected outcome: {:?}", other),
    }
    let broken = Json::parse("[{\"symbol\":\"A\",\"price\":\"1\",\"time\":1},{\"symbol\":\"B\"}]").unwrap();
    assert!(OneOrMany::<SymbolPriceTicker>::from_json(&broken).is_none());
}

fn withdrawal(status: i64, complete_time: &str) -> WithdrawHistoryResponse {
    let text = format!(
        "{{\"id\":\"1\",\"amount\":\"2\",\"transactionFee\":\"0.1\",\"coin\":\"BTC\",\
         \"status\":{},\"address\":\"a\",\"txId\":\"t\",\"applyTime\":\"2024-01-01\",\
         \"network\":\"BTC\",\"transferType\":0,\"info\":\"\",\"confirmNo\":3,\
         \"walletType\":1,\"txKey\":\"\"{}}}",
        status, complete_time
    );
    WithdrawHistoryResponse::from_json(&Json::parse(&text).unwrap()).unwrap()
}

#[test]
fn a_withdrawal_is_complete_with_status_six_and_a_time() {
    let done = withdrawal(6, ",\"completeTime\":\"2024-01-02\"");
    assert_eq!(done.complete_time, Some("2024-01-02".to_string()));
    assert_eq!(done.confirm_no, Some(3));
    assert_eq!(done.withdraw_order_id, None);
    assert!(done.is_complete());
    assert!(!withdrawal(6, "").is_complete());
    assert!(!withdrawal(6, ",\"completeTime\":null").is_complete());
    assert!(!withdrawal(5, ",\"completeTime\":\"2024-01-02\"").is_complete());
}

#[test]
fn data_of_another_shape_is_a_decode_error() {
    let outcome = Client::handle_api_return::<SymbolPrice>("{\"symbol\":\"BTCUSDT\"}");
    match outcome {
        Err(BinanceApiError::JSONValueSerDeError(e)) => {
            assert!(e.to_string().contains("did not match"))
        }
        other => panic!("unexpected outcome: {:?}", other),
    }
    let data = Client::read_envelope("{\"symbol\":\"BTCUSDT\"}").unwrap();
    assert!(Client::typed::<SymbolPrice>(&data).is_err());
    assert!(Client::typed::<Vec<SymbolPrice>>(&Json::parse("{}").unwrap()).is_err());
    let list = Json::parse("[{\"symbol\":\"A\",\"price\":\"1\"}]").unwrap();
    assert_eq!(Client::typed::<Vec<SymbolPrice>>(&list).unwrap().len(), 1);
    assert!(Client::typed::<Vec<SymbolPrice>>(&Json::parse("[]").unwrap()).unwrap().is_empty());
    let copy = Client::typed::<Json>(&list).unwrap();
    assert_eq!(copy.as_array().unwrap()[0].text_at("symbol"), Some("A".to_string()));
}
