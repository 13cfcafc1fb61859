//! Where the exchange is reached.

use vstd::prelude::*;
use vstd::string::*;

verus! {

/// The base addresses of the REST and WebSocket interfaces.
#[derive(Debug)]
pub struct ApiConfig {
    pub rest_api_endpoint: String,
    pub ws_endpoint: String,
    pub futures_rest_api_endpoint: String,
    pub futures_ws_endpoint: String,
}

impl ApiConfig {
    /// The production network.
    pub fn mainnet() -> (config: Self)
        ensures
            config.rest_api_endpoint@ == "https://api.binance.com"@,
            config.ws_endpoint@ == "wss://stream.binance.com:9443"@,
            config.futures_rest_api_endpoint@ == "https://fapi.binance.com"@,
            config.futures_ws_endpoint@ == "wss://fstream.binance.com"@,
    {
        ApiConfig {
            rest_api_endpoint: String::from_str("https://api.binance.com"),
            ws_endpoint: String::from_str("wss://stream.binance.com:9443"),
            futures_rest_api_endpoint: String::from_str("https://fapi.binance.com"),
            futures_ws_endpoint: String::from_str("wss://fstream.binance.com"),
        }
    }

    /// The test network.
    pub fn testnet() -> (config: Self)
        ensures
            config.rest_api_endpoint@ == "https://testnet.binance.vision"@,
            config.ws_endpoint@ == "wss://testnet.binance.vision"@,
            config.futures_rest_api_endpoint@ == "https://testnet.binancefuture.com"@,
            config.futures_ws_endpoint@ == "wss://stream.binancefuture.com"@,
    {
        ApiConfig {
            rest_api_endpoint: String::from_str("https://testnet.binance.vision"),
            ws_endpoint: String::from_str("wss://testnet.binance.vision"),
            futures_rest_api_endpoint: String::from_str("https://testnet.binancefuture.com"),
            futures_ws_endpoint: String::from_str("wss://stream.binancefuture.com"),
        }
    }
}

impl Default for ApiConfig {
    fn default() -> (config: Self)
        ensures
            config.rest_api_endpoint@ == "https://api.binance.com"@,
            config.ws_endpoint@ == "wss://stream.binance.com:9443"@,
            config.futures_rest_api_endpoint@ == "https://fapi.binance.com"@,
            config.futures_ws_endpoint@ == "wss://fstream.binance.com"@,
    {
        Self::mainnet()
    }
}

} // verus!
