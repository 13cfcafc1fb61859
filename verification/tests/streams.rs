use binance_cex::api_config::ApiConfig;
use binance_cex::decode::FromJson;
use binance_cex::errors::BinanceApiError;
use binance_cex::json::Json;
use binance_cex::models::{DayTickerEvent, Kline, OrderBook};
use binance_cex::ws_streams::market_streams::{join_names, MarketStreams, PartialBookDepthLevel};
use binance_cex::ws_streams::stream_events::BinanceStreamEvent;
use binance_cex::ws_streams::{
    CombinedStream, CombinedStreamPayload, Inbound, RawStream, StreamEvent, StreamStep,
};

const TRADE: &str = "{\"e\":\"trade\",\"E\":1672515782136,\"s\":\"BNBBTC\",\"t\":12345,\
                     \"p\":\"0.001\",\"q\":\"100\",\"T\":1672515782136,\"m\":true,\"M\":true}";
const AGG_TRADE: &str = "{\"e\":\"aggTrade\",\"E\":1672515782136,\"s\":\"BNBBTC\",\"a\":12345,\
                         \"p\":\"0.001\",\"q\":\"100\",\"f\":100,\"l\":105,\"T\":1672515782136,\
                         \"m\":true,\"M\":true}";
const BOOK_TICKER: &str = "{\"u\":400900217,\"s\":\"BNBUSDT\",\"b\":\"25.35190000\",\
                           \"B\":\"31.21000000\",\"a\":\"25.36520000\",\"A\":\"40.66000000\"}";
const DEPTH: &str = "{\"e\":\"depthUpdate\",\"E\":1672515782136,\"s\":\"BNBBTC\",\"U\":157,\
                     \"u\":160,\"b\":[[\"0.0024\",\"10\"]],\"a\":[[\"0.0026\",\"100\"],[\"0.0027\",\"0\"]]}";
const PARTIAL_BOOK: &str = "{\"lastUpdateId\":160,\"bids\":[[\"0.0024\",\"10\"]],\"asks\":[]}";
const WINDOW_TICKER: &str = "{\"e\":\"1hTicker\",\"E\":1672515782136,\"s\":\"BNBBTC\",\
    \"p\":\"0.0015\",\"P\":\"250.00\",\"o\":\"0.0010\",\"h\":\"0.0025\",\"l\":\"0.0010\",\
    \"c\":\"0.0025\",\"w\":\"0.0018\",\"v\":\"10000\",\"q\":\"18\",\"O\":0,\"C\":1675216573749,\
    \"F\":0,\"L\":18150,\"n\":18151}";
const DAY_TICKER: &str = "{\"e\":\"24hrTicker\",\"E\":1672515782136,\"s\":\"BNBBTC\",\
    \"p\":\"0.0015\",\"P\":\"250.00\",\"w\":\"0.0018\",\"x\":\"0.0009\",\"c\":\"0.0025\",\
    \"Q\":\"10\",\"b\":\"0.0024\",\"B\":\"10\",\"a\":\"0.0026\",\"A\":\"100\",\"o\":\"0.0010\",\
    \"h\":\"0.0025\",\"l\":\"0.0010\",\"v\":\"10000\",\"q\":\"18\",\"O\":0,\"C\":86400000,\
    \"F\":0,\"L\":18150,\"n\":18151}";
const KLINE: &str = "{\"e\":\"kline\",\"E\":1672515782136,\"s\":\"BNBBTC\",\"k\":{\"t\":1672515780000,\
    \"T\":1672515839999,\"s\":\"BNBBTC\",\"i\":\"1m\",\"f\":100,\"L\":200,\"o\":\"0.0010\",\
    \"c\":\"0.0020\",\"h\":\"0.0025\",\"l\":\"0.0015\",\"v\":\"1000\",\"n\":100,\"x\":false,\
    \"q\":\"1.0000\",\"V\":\"500\",\"Q\":\"0.500\",\"B\":\"123456\"}}";
const ACCOUNT: &str = "{\"e\":\"outboundAccountPosition\",\"E\":1564034571105,\"u\":1564034571073,\
    \"B\":[{\"a\":\"ETH\",\"f\":\"10000.000000\",\"l\":\"0.000000\"}]}";
const BALANCE: &str = "{\"e\":\"balanceUpdate\",\"E\":1573200697110,\"a\":\"BTC\",\
    \"d\":\"100.00000000\",\"T\":1573200697068}";
const EXECUTION: &str = "{\"e\":\"executionReport\",\"E\":1499405658658,\"s\":\"ETHBTC\",\
    \"c\":\"mUvoqJxFIILMdfAW5iGSOW\",\"S\":\"BUY\",\"o\":\"LIMIT\",\"f\":\"GTC\",\"q\":\"1.00000000\",\
    \"p\":\"0.10264410\",\"P\":\"0.00000000\",\"F\":\"0.00000000\",\"g\":-1,\"C\":\"\",\"x\":\"NEW\",\
    \"X\":\"NEW\",\"r\":\"NONE\",\"i\":4293153,\"l\":\"0.00000000\",\"z\":\"0.00000000\",\
    \"L\":\"0.00000000\",\"n\":\"0\",\"N\":null,\"T\":1499405658657,\"t\":-1,\"I\":8641984,\
    \"w\":true,\"m\":false,\"M\":false,\"O\":1499405658657,\"Z\":\"0.00000000\",\
    \"Y\":\"0.00000000\",\"Q\":\"0.00000000\"}";

fn trade_stream() -> RawStream {
    RawStream::new(MarketStreams::TradeStream("btcusdt".to_string()))
}

fn combined() -> CombinedStream {
    CombinedStream::new(vec![
        MarketStreams::TradeStream("btcusdt".to_string()),
        MarketStreams::DiffDepth100ms("ETHUSDT".to_string()),
    ])
}

fn wrapped(stream: &str, data: &str) -> String {
    format!("{{\"stream\":\"{}\",\"data\":{}}}", stream, data)
}

#[test]
fn stream_names() {
    assert_eq!(MarketStreams::DiffDepth100ms("btcusdt".to_string()).name(), "btcusdt@depth@100ms");
    assert_eq!(
        MarketStreams::PartialBookDepth1s("BTCUSDT".to_string(), PartialBookDepthLevel::Ten).name(),
        "btcusdt@depth10"
    );
    assert_eq!(MarketStreams::TradeStream("btcusdt".to_string()).name(), "BTCUSDT@trade");
    assert_eq!(MarketStreams::DiffDepth1s("BtcUsdt".to_string()).name(), "btcusdt@depth");
    assert_eq!(
        MarketStreams::PartialBookDepth100ms("ethbtc".to_string(), PartialBookDepthLevel::Five).name(),
        "ethbtc@depth5@100ms"
    );
    assert_eq!(
        MarketStreams::PartialBookDepth100ms("ETHBTC".to_string(), PartialBookDepthLevel::Twenty)
            .name(),
        "ethbtc@depth20@100ms"
    );
    assert_eq!(PartialBookDepthLevel::Five.to_string(), "5");
    assert_eq!(PartialBookDepthLevel::Ten.to_string(), "10");
    assert_eq!(PartialBookDepthLevel::Twenty.as_str(), "20");
}

#[test]
fn stream_addresses() {
    let config = ApiConfig::default();
    assert_eq!(trade_stream().url(&config), "wss://stream.binance.com:9443/ws/BTCUSDT@trade");
    assert_eq!(
        combined().url("wss://stream.binance.com:9443"),
        "wss://stream.binance.com:9443/stream?streams=BTCUSDT@trade/ethusdt@depth@100ms"
    );
    assert_eq!(combined().stream_names(), "BTCUSDT@trade/ethusdt@depth@100ms");
    assert_eq!(join_names(&vec![]), "");
    assert_eq!(join_names(&vec![MarketStreams::DiffDepth1s("A".to_string())]), "a@depth");
    assert_eq!(CombinedStream::new(vec![]).url("ws://h"), "ws://h/stream?streams=");
}

#[test]
fn configurations() {
    let mainnet = ApiConfig::mainnet();
    assert_eq!(mainnet.rest_api_endpoint, "https://api.binance.com");
    assert_eq!(mainnet.futures_rest_api_endpoint, "https://fapi.binance.com");
    let testnet = ApiConfig::testnet();
    assert_eq!(testnet.rest_api_endpoint, "https://testnet.binance.vision");
    assert_ne!(testnet.ws_endpoint, mainnet.ws_endpoint);
}

#[test]
fn a_heartbeat_is_classified_as_ping() {
    assert!(matches!(StreamEvent::try_from("{\"ping\": 12345}"), Ok(StreamEvent::Ping(12345))));
    assert!(matches!(StreamEvent::try_from("12345"), Ok(StreamEvent::Ping(12345))));
    assert!(matches!(StreamEvent::try_from("-1"), Ok(StreamEvent::Ping(-1))));
}

#[test]
fn a_heartbeat_yields_no_event_on_a_raw_stream() {
    assert!(matches!(trade_stream().on_frame(Inbound::Text("{\"ping\": 12345}".to_string())), StreamStep::Idle));
    assert!(matches!(trade_stream().on_frame(Inbound::Text("1672515782136".to_string())), StreamStep::Idle));
    assert!(matches!(combined().on_frame(Inbound::Text("1672515782136".to_string())), StreamStep::Idle));
}

#[test]
fn a_bare_event_is_the_next_item_of_a_raw_stream() {
    match trade_stream().on_frame(Inbound::Text(TRADE.to_string())) {
        StreamStep::Item(BinanceStreamEvent::Trade(trade)) => {
            assert_eq!(trade.event_type, "trade");
            assert_eq!(trade.event_time, 1672515782136);
            assert_eq!(trade.symbol, "BNBBTC");
            assert_eq!(trade.trade_id, 12345);
            assert_eq!(trade.price, "0.001");
            assert_eq!(trade.qty, "100");
            assert!(trade.is_buyer_maker);
        }
        other => panic!("unexpected step: {:?}", other),
    }
}

#[test]
fn a_combined_wrapper_on_a_raw_stream_breaks_the_contract() {
    let frame = wrapped("btcusdt@trade", TRADE);
    assert!(matches!(trade_stream().on_frame(Inbound::Text(frame)), StreamStep::Violation));
}

#[test]
fn a_frame_that_cannot_be_read_is_one_reconnect_on_a_raw_stream() {
    for frame in ["not json", "", "{\"e\":\"trade\"}", "{}", "[1,2", "\"text\"", "null", "1.5"] {
        let step = trade_stream().on_frame(Inbound::Text(frame.to_string()));
        assert!(matches!(step, StreamStep::Item(BinanceStreamEvent::Reconnect)), "{}", frame);
    }
    assert!(matches!(
        trade_stream().on_frame(Inbound::NotText),
        StreamStep::Item(BinanceStreamEvent::Reconnect)
    ));
}

#[test]
fn the_end_of_a_stream_is_not_an_idle_frame() {
    assert!(matches!(trade_stream().on_frame(Inbound::Closed), StreamStep::Finished));
    assert!(matches!(combined().on_frame(Inbound::Closed), StreamStep::Finished));
    assert!(matches!(
        trade_stream().on_frame(Inbound::Failed("reset".to_string())),
        StreamStep::Violation
    ));
}

#[test]
fn a_combined_stream_unwraps_its_wrapper() {
    match combined().on_frame(Inbound::Text(wrapped("btcusdt@trade", TRADE))) {
        StreamStep::Item(payload) => {
            assert_eq!(payload.stream, "btcusdt@trade");
            assert!(matches!(payload.data, BinanceStreamEvent::Trade(_)));
        }
        other => panic!("unexpected step: {:?}", other),
    }
}

#[test]
fn a_bare_event_on_a_combined_stream_breaks_the_contract() {
    assert!(matches!(combined().on_frame(Inbound::Text(TRADE.to_string())), StreamStep::Violation));
}

#[test]
fn a_combined_stream_wraps_the_reconnect_with_its_names() {
    for inbound in [
        Inbound::Text("not json".to_string()),
        Inbound::Text("{\"stream\":\"x\",\"data\":{}}".to_string()),
        Inbound::NotText,
        Inbound::Failed("reset".to_string()),
    ] {
        match combined().on_frame(inbound) {
            StreamStep::Item(payload) => {
                assert_eq!(payload.stream, "BTCUSDT@trade/ethusdt@depth@100ms");
                assert!(matches!(payload.data, BinanceStreamEvent::Reconnect));
            }
            other => panic!("unexpected step: {:?}", other),
        }
    }
}

#[test]
fn classified_frames_on_both_kinds_of_connection() {
    assert!(matches!(RawStream::on_event(None), StreamStep::Item(BinanceStreamEvent::Reconnect)));
    assert!(matches!(RawStream::on_event(Some(StreamEvent::Ping(1))), StreamStep::Idle));
    let raw = StreamEvent::try_from(TRADE).unwrap();
    assert!(matches!(RawStream::on_event(Some(raw)), StreamStep::Item(BinanceStreamEvent::Trade(_))));
    let wrapper = StreamEvent::try_from(&wrapped("s", TRADE)).unwrap();
    assert!(matches!(RawStream::on_event(Some(wrapper)), StreamStep::Violation));
    assert!(matches!(combined().on_event(Some(StreamEvent::Ping(1))), StreamStep::Idle));
    let raw = StreamEvent::try_from(TRADE).unwrap();
    assert!(matches!(combined().on_event(Some(raw)), StreamStep::Violation));
}

fn event(text: &str) -> BinanceStreamEvent {
    BinanceStreamEvent::try_from(text).unwrap()
}

#[test]
fn each_event_is_told_by_its_shape() {
    assert!(matches!(event(ACCOUNT), BinanceStreamEvent::AccountUpdate(_)));
    assert!(matches!(event(BALANCE), BinanceStreamEvent::BalanceUpdate(_)));
    assert!(matches!(event(EXECUTION), BinanceStreamEvent::OrderTrade(_)));
    assert!(matches!(event(AGG_TRADE), BinanceStreamEvent::AggrTrades(_)));
    assert!(matches!(event(TRADE), BinanceStreamEvent::Trade(_)));
    assert!(matches!(event(PARTIAL_BOOK), BinanceStreamEvent::OrderBook(_)));
    assert!(matches!(event(DAY_TICKER), BinanceStreamEvent::DayTicker(_)));
    assert!(matches!(event(WINDOW_TICKER), BinanceStreamEvent::WindowTicker(_)));
    assert!(matches!(event(KLINE), BinanceStreamEvent::Kline(_)));
    assert!(matches!(event(DEPTH), BinanceStreamEvent::DepthOrderBook(_)));
    assert!(matches!(event(BOOK_TICKER), BinanceStreamEvent::BookTicker(_)));
}

#[test]
fn lists_of_tickers() {
    let days = format!("[{},{}]", DAY_TICKER, DAY_TICKER);
    match event(&days) {
        BinanceStreamEvent::DayTickerAll(list) => assert_eq!(list.len(), 2),
        other => panic!("unexpected event: {:?}", other),
    }
    let windows = format!("[{}]", WINDOW_TICKER);
    match event(&windows) {
        BinanceStreamEvent::WindowTickerAll(list) => {
            assert_eq!(list.len(), 1);
            assert_eq!(list[0].num_trades, 18151);
        }
        other => panic!("unexpected event: {:?}", other),
    }
    // a list with one element that is no day ticker is a list of window tickers
    // only where every element is one
    let mixed = format!("[{},{}]", DAY_TICKER, WINDOW_TICKER);
    assert!(matches!(event(&mixed), BinanceStreamEvent::WindowTickerAll(_)));
    let broken = format!("[{},{}]", WINDOW_TICKER, TRADE);
    assert!(BinanceStreamEvent::try_from(&broken).is_err());
    // the empty list has the first list shape
    assert!(matches!(event("[]"), BinanceStreamEvent::DayTickerAll(_)));
}

#[test]
fn the_first_shape_wins() {
    // a day ticker has every member of a window ticker, and is tried first
    assert!(matches!(event(DAY_TICKER), BinanceStreamEvent::DayTicker(_)));
    let day = Json::parse(DAY_TICKER).unwrap();
    assert!(DayTickerEvent::from_json(&day).is_some());
    assert!(binance_cex::models::WindowTickerEvent::from_json(&day).is_some());
    // a heartbeat member decides before any event shape is tried
    let trade_with_ping = TRADE.replacen("{", "{\"ping\":7,", 1);
    assert!(matches!(StreamEvent::try_from(&trade_with_ping), Ok(StreamEvent::Ping(7))));
    // a wrapper is tried before a bare event
    let both = format!("{{\"stream\":\"s\",\"data\":{},\"lastUpdateId\":1,\"bids\":[],\"asks\":[]}}", TRADE);
    assert!(matches!(StreamEvent::try_from(&both), Ok(StreamEvent::CombinedStreamPayload(_))));
}

#[test]
fn the_members_of_events() {
    match event(DEPTH) {
        BinanceStreamEvent::DepthOrderBook(depth) => {
            assert_eq!(depth.first_update_id, 157);
            assert_eq!(depth.final_update_id, 160);
            assert_eq!(depth.bids.len(), 1);
            assert_eq!(depth.bids[0].price, "0.0024");
            assert_eq!(depth.bids[0].qty, "10");
            assert_eq!(depth.asks.len(), 2);
            assert_eq!(depth.asks[1].price, "0.0027");
            assert_eq!(depth.asks[1].qty, "0");
        }
        other => panic!("unexpected event: {:?}", other),
    }
    match event(EXECUTION) {
        BinanceStreamEvent::OrderTrade(order) => {
            assert_eq!(order.symbol, "ETHBTC");
            assert_eq!(order.order_list_id, -1);
            assert_eq!(order.commission_asset, None);
            assert_eq!(order.trade_id, -1);
            assert_eq!(order.order_id, 4293153);
            assert!(order.is_order_on_the_book);
            assert!(!order.is_buyer_maker);
        }
        other => panic!("unexpected event: {:?}", other),
    }
    match event(ACCOUNT) {
        BinanceStreamEvent::AccountUpdate(account) => {
            assert_eq!(account.last_account_update_time, 1564034571073);
            assert_eq!(account.balances.len(), 1);
            assert_eq!(account.balances[0].asset, "ETH");
            assert_eq!(account.balances[0].free, "10000.000000");
        }
        other => panic!("unexpected event: {:?}", other),
    }
    match event(BOOK_TICKER) {
        BinanceStreamEvent::BookTicker(ticker) => {
            assert_eq!(ticker.update_id, 400900217);
            assert_eq!(ticker.best_ask_qty, "40.66000000");
        }
        other => panic!("unexpected event: {:?}", other),
    }
}

#[test]
fn a_candlestick_inside_its_event() {
    match event(KLINE) {
        BinanceStreamEvent::Kline(e) => {
            assert_eq!(e.kline.interval, "1m");
            assert_eq!(e.kline.number_of_trades, 100);
            assert!(!e.kline.is_final_bar);
            assert_eq!(e.kline.close_time, 1672515839999);
        }
        other => panic!("unexpected event: {:?}", other),
    }
    let inner = Json::parse(KLINE).unwrap();
    assert!(Kline::from_json(inner.get("k").unwrap()).is_some());
    assert!(Kline::from_json(&inner).is_none());
}

#[test]
fn price_levels_are_pairs_of_strings() {
    let book = OrderBook::from_json(&Json::parse(PARTIAL_BOOK).unwrap()).unwrap();
    assert_eq!(book.last_update_id, 160);
    assert_eq!(book.bids[0].price, "0.0024");
    assert!(book.asks.is_empty());
    for text in [
        "{\"lastUpdateId\":1,\"bids\":[[\"1\"]],\"asks\":[]}",
        "{\"lastUpdateId\":1,\"bids\":[[\"1\",\"2\",\"3\"]],\"asks\":[]}",
        "{\"lastUpdateId\":1,\"bids\":[[1,2]],\"asks\":[]}",
        "{\"lastUpdateId\":1,\"bids\":{},\"asks\":[]}",
        "{\"lastUpdateId\":-1,\"bids\":[],\"asks\":[]}",
        "{\"lastUpdateId\":1,\"bids\":[]}",
    ] {
        assert!(OrderBook::from_json(&Json::parse(text).unwrap()).is_none(), "{}", text);
    }
}

#[test]
fn reading_a_frame_reports_what_went_wrong() {
    assert!(matches!(StreamEvent::try_from("{"), Err(BinanceApiError::JSONValueSerDeError(_))));
    match StreamEvent::try_from("{}") {
        Err(e) => assert!(e.message().starts_with("JSON: ")),
        Ok(_) => panic!("an empty object is no frame"),
    }
    assert!(CombinedStreamPayload::try_from(TRADE).is_err());
    let payload = CombinedStreamPayload::try_from(&wrapped("a@trade", AGG_TRADE)).unwrap();
    assert_eq!(payload.stream, "a@trade");
    assert!(matches!(payload.data, BinanceStreamEvent::AggrTrades(_)));
}
