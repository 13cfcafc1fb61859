//! The errors of the library.

use vstd::prelude::*;
use vstd::string::*;
use crate::text::{push_char, push_i64, push_u64, signed_decimal_text, decimal_text};

verus! {

#[verifier::external_type_specification]
#[verifier::external_body]
pub struct ExUrlParseError(url::ParseError);

pub type Result<T> = core::result::Result<T, BinanceApiError>;

/// What can go wrong in a call of the library.
///
/// The errors of the transport (`WsHandShake`, `RequestError`) are raised
/// where the connection is driven and carry the transport's own message.
#[derive(Debug)]
pub enum BinanceApiError {
    /// The host or a path is no URL.
    URLError(url::ParseError),
    /// A text is no JSON document, or a document has no shape that is known.
    JSONValueSerDeError(serde_json::Error),
    /// The WebSocket handshake failed.
    WsHandShake(String),
    /// The HTTP request failed.
    RequestError(String),
    /// An element of a candlestick row is missing or has the wrong type.
    KlineValueMissingError(usize, &'static str),
    SymbolNotFound(String),
    AssetNotFound(String),
    WalletMaintenance,
    StreamAlreadyConnected,
    /// The API key cannot stand in an HTTP header.
    InvalidHeaderValue,
    /// The exchange answered with an error: its code and its message.
    ApiReturnError(i64, String),
    Custom(String),
}

/// The message of a URL error.
///
/// Trusted: `Display` of `url::ParseError`; nothing is claimed of the text.
#[verifier::external_body]
fn url_error_text(e: &url::ParseError) -> String {
    format!("{}", e)
}

/// The message of a JSON error.
///
/// Trusted: `Display` of `serde_json::Error`; nothing is claimed of the text.
#[verifier::external_body]
fn json_error_text(e: &serde_json::Error) -> String {
    format!("{}", e)
}

impl BinanceApiError {
    /// What the message of this error begins with, and for an error that
    /// carries no outside error, all of it.
    pub open spec fn spec_message(&self) -> Seq<char> {
        match self {
            BinanceApiError::URLError(_) => "URL: "@,
            BinanceApiError::JSONValueSerDeError(_) => "JSON: "@,
            BinanceApiError::WsHandShake(m) => "Websocket handshake: "@ + m@,
            BinanceApiError::RequestError(m) => "Request error: "@ + m@,
            BinanceApiError::KlineValueMissingError(index, name) => "invalid Vec for Kline: "@
                + name@ + " at "@ + decimal_text(*index as nat) + " is missing"@,
            BinanceApiError::SymbolNotFound(s) => "Symbol not found: "@ + s@,
            BinanceApiError::AssetNotFound(s) => "Asset not found: "@ + s@,
            BinanceApiError::WalletMaintenance => "System maintenance"@,
            BinanceApiError::StreamAlreadyConnected => "Stream has already connected"@,
            BinanceApiError::InvalidHeaderValue => "Invalid header value"@,
            BinanceApiError::ApiReturnError(code, msg) => "Api error: "@ + signed_decimal_text(
                *code as int,
            ) + ", "@ + msg@,
            BinanceApiError::Custom(m) => "Custom error: "@ + m@,
        }
    }

    /// Whether the message ends with the text of an outside error.
    pub open spec fn carries_outside_error(&self) -> bool {
        self is URLError || self is JSONValueSerDeError
    }

    /// The message of this error.
    pub fn message(&self) -> (m: String)
        ensures
            !self.carries_outside_error() ==> m@ == self.spec_message(),
            self.carries_outside_error() ==> self.spec_message().is_prefix_of(m@),
    {
        match self {
            BinanceApiError::URLError(e) => {
                let detail = url_error_text(e);
                String::from_str("URL: ").concat(detail.as_str())
            },
            BinanceApiError::JSONValueSerDeError(e) => {
                let detail = json_error_text(e);
                String::from_str("JSON: ").concat(detail.as_str())
            },
            BinanceApiError::WsHandShake(m) => String::from_str("Websocket handshake: ").concat(
                m.as_str(),
            ),
            BinanceApiError::RequestError(m) => String::from_str("Request error: ").concat(
                m.as_str(),
            ),
            BinanceApiError::KlineValueMissingError(index, name) => {
                let mut m = String::from_str("invalid Vec for Kline: ");
                m.append(name);
                m.append(" at ");
                push_u64(&mut m, *index as u64);
                m.append(" is missing");
                m
            },
            BinanceApiError::SymbolNotFound(s) => String::from_str("Symbol not found: ").concat(
                s.as_str(),
            ),
            BinanceApiError::AssetNotFound(s) => String::from_str("Asset not found: ").concat(
                s.as_str(),
            ),
            BinanceApiError::WalletMaintenance => String::from_str("System maintenance"),
            BinanceApiError::StreamAlreadyConnected => String::from_str(
                "Stream has already connected",
            ),
            BinanceApiError::InvalidHeaderValue => String::from_str("Invalid header value"),
            BinanceApiError::ApiReturnError(code, msg) => {
                let mut m = String::from_str("Api error: ");
                push_i64(&mut m, *code);
                m.append(", ");
                m.append(msg.as_str());
                m
            },
            BinanceApiError::Custom(m) => String::from_str("Custom error: ").concat(m.as_str()),
        }
    }
}

} // verus!
