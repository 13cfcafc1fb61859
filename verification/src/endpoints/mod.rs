//! Endpoint descriptors and request encoding.
//!
//! An endpoint is described by its HTTP method, its authentication tier and
//! its path. A request is a value that writes itself as a query string, its
//! parameters in the order in which its type declares them, and that may
//! refuse to be sent.


pub mod coin_m_futures;
pub mod convert;
pub mod futures_account;
pub mod futures_market;
pub mod futures_trading;
pub mod margin;
pub mod market_data;
pub mod public_enums;
pub mod spot_account;
pub mod spot_general;
pub mod spot_market;
pub mod spot_trading;
pub mod usd_m_futures;
pub mod wallet;

use vstd::prelude::*;
use vstd::string::*;
use crate::errors::BinanceApiError;
use crate::decode::{list_describes, list_from_json, list_has_shape, FromJson};
use crate::json::{Json, JsonValue};
use crate::text::{
    decimal_text, optional_decimal, push_char, push_optional_u64_pair, push_pair, push_u64_pair,
    with_optional_pair, with_pair,
};

verus! {

/// The HTTP methods.
#[allow(non_camel_case_types)]
#[allow(clippy::upper_case_acronyms)]
#[derive(Debug, Clone, Copy, PartialEq, Eq, Structural)]
pub enum Method {
    GET,
    POST,
    PUT,
    DELETE,
    HEAD,
    OPTIONS,
    CONNECT,
    PATCH,
    TRACE,
}

impl Method {
    /// The name of the method, as it stands in a request line.
    pub open spec fn spec_name(self) -> Seq<char> {
        match self {
            Method::GET => "GET"@,
            Method::POST => "POST"@,
            Method::PUT => "PUT"@,
            Method::DELETE => "DELETE"@,
            Method::HEAD => "HEAD"@,
            Method::OPTIONS => "OPTIONS"@,
            Method::CONNECT => "CONNECT"@,
            Method::PATCH => "PATCH"@,
            Method::TRACE => "TRACE"@,
        }
    }

    pub fn as_str(&self) -> (name: &'static str)
        ensures
            name@ == self.spec_name(),
    {
        match self {
            Method::GET => "GET",
            Method::POST => "POST",
            Method::PUT => "PUT",
            Method::DELETE => "DELETE",
            Method::HEAD => "HEAD",
            Method::OPTIONS => "OPTIONS",
            Method::CONNECT => "CONNECT",
            Method::PATCH => "PATCH",
            Method::TRACE => "TRACE",
        }
    }
}

/// The authentication tier of an endpoint.
#[derive(Debug, Clone, Copy, PartialEq, Eq, Structural)]
pub enum SecurityType {
    /// No key and no signature.
    Public,
    Trade,
    Margin,
    UserData,
    UserStream,
    MarketData,
}

impl SecurityType {
    /// Whether requests of this tier carry a signature.
    pub open spec fn spec_is_signed(self) -> bool {
        self is Trade || self is Margin || self is UserData
    }

    /// Whether requests of this tier carry the API key in a header.
    pub open spec fn spec_sends_key(self) -> bool {
        self is UserStream || self is MarketData
    }

    pub fn is_signed(&self) -> (r: bool)
        ensures
            r == self.spec_is_signed(),
    {
        match self {
            SecurityType::Trade | SecurityType::Margin | SecurityType::UserData => true,
            _ => false,
        }
    }

    pub fn sends_key(&self) -> (r: bool)
        ensures
            r == self.spec_sends_key(),
    {
        match self {
            SecurityType::UserStream | SecurityType::MarketData => true,
            _ => false,
        }
    }
}

/// A logical operation of the exchange: where it lives and how it is called.
pub trait Endpoint {
    /// Whether the operation has a descriptor.
    spec fn spec_is_implemented(&self) -> bool;

    /// The method, the tier and the path of the operation.
    spec fn spec_action_params(&self) -> (Method, SecurityType, Seq<char>);

    fn is_implemented(&self) -> (r: bool)
        ensures
            r == self.spec_is_implemented(),
    ;

    fn action_params(&self) -> (r: (Method, SecurityType, String))
        requires
            self.spec_is_implemented(),
        ensures
            r.0 == self.spec_action_params().0,
            r.1 == self.spec_action_params().1,
            r.2@ == self.spec_action_params().2,
    ;
}

/// The parameters of one call of an endpoint.
pub trait EndpointRequest {
    /// What the endpoint answers with.
    type Response;

    /// The query string of the request: its parameters in the order of their
    /// declaration, those without a value left out.
    spec fn spec_query(&self) -> Seq<char>;

    /// Whether the request meets what its endpoint asks of it.
    spec fn spec_is_valid(&self) -> bool;

    /// Writes the request as a query string.
    fn to_string(&self) -> (query: String)
        ensures
            query@ == self.spec_query(),
    ;

    /// Checks the request before it is sent. No network is involved.
    fn validate(&self) -> (r: Result<(), BinanceApiError>)
        ensures
            r is Ok <==> self.spec_is_valid(),
    ;
}

/// Encoding is a function of the request: two encodings of one request are
/// the same text.
pub proof fn lemma_encoding_is_deterministic<R: EndpointRequest>(
    request: R,
    first: String,
    second: String,
)
    requires
        first@ == request.spec_query(),
        second@ == request.spec_query(),
    ensures
        first@ == second@,
{
}

/// One value or a list of them.
#[derive(Debug)]
pub enum OneOrMany<T> {
    One(T),
    Many(Vec<T>),
}

pub type OneOrManySymbol = OneOrMany<String>;

/// One value is tried first, then a list: a document that has the shape of
/// `T` is one value.
impl<T: FromJson> FromJson for OneOrMany<T> {
    open spec fn has_shape(document: JsonValue) -> bool {
        T::has_shape(document) || list_has_shape::<T>(document)
    }

    open spec fn describes(&self, document: JsonValue) -> bool {
        match self {
            OneOrMany::One(value) => T::has_shape(document) && value.describes(document),
            OneOrMany::Many(values) => !T::has_shape(document) && list_describes(
                values@,
                document,
            ),
        }
    }

    fn from_json(document: &Json) -> (r: Option<Self>) {
        if let Some(value) = T::from_json(document) {
            return Some(OneOrMany::One(value));
        }
        match list_from_json::<T>(document) {
            Some(values) => Some(OneOrMany::Many(values)),
            None => None,
        }
    }
}

/// The list `["A","B"]` of the given symbols, from index `from` on, without
/// the brackets: each symbol in double quotes, commas between them.
pub open spec fn quoted_list_from(symbols: Seq<String>, from: int) -> Seq<char>
    decreases symbols.len() - from,
{
    if from < 0 || from >= symbols.len() {
        Seq::empty()
    } else if from + 1 == symbols.len() {
        seq!['"'] + symbols[from]@ + seq!['"']
    } else {
        seq!['"'] + symbols[from]@ + seq!['"', ','] + quoted_list_from(symbols, from + 1)
    }
}

/// The text `["A","B"]` of a list of symbols.
pub open spec fn symbol_list_text(symbols: Seq<String>) -> Seq<char> {
    seq!['['] + quoted_list_from(symbols, 0) + seq![']']
}

/// A query string with a symbol or a list of symbols: `symbol=A` for one,
/// `symbols=["A","B"]` for a list, the value escaped.
pub open spec fn with_symbols(query: Seq<char>, symbols: OneOrManySymbol) -> Seq<char> {
    match symbols {
        OneOrMany::One(s) => with_pair(query, "symbol"@, s@),
        OneOrMany::Many(list) => with_pair(query, "symbols"@, symbol_list_text(list@)),
    }
}

/// A query string with a symbol or a list of symbols that stand under the
/// name `symbols`: `symbols[symbol]=A` for one, `symbols[symbols]=["A","B"]`
/// for a list, and nothing where there is none.
pub open spec fn with_optional_nested_symbols(
    query: Seq<char>,
    symbols: Option<OneOrManySymbol>,
) -> Seq<char> {
    match symbols {
        Some(OneOrMany::One(s)) => with_pair(query, "symbols[symbol]"@, s@),
        Some(OneOrMany::Many(list)) => with_pair(
            query,
            "symbols[symbols]"@,
            symbol_list_text(list@),
        ),
        None => query,
    }
}

/// A query string with a symbol or a list of symbols where there is one.
pub open spec fn with_optional_symbols(
    query: Seq<char>,
    symbols: Option<OneOrManySymbol>,
) -> Seq<char> {
    match symbols {
        Some(s) => with_symbols(query, s),
        None => query,
    }
}

proof fn lemma_quoted_list_step(symbols: Seq<String>, from: int)
    requires
        0 <= from < symbols.len(),
    ensures
        quoted_list_from(symbols, from) == seq!['"'] + symbols[from]@ + seq!['"'] + (if from + 1
            == symbols.len() {
            Seq::<char>::empty()
        } else {
            seq![','] + quoted_list_from(symbols, from + 1)
        }),
{
    if from + 1 == symbols.len() {
        assert(quoted_list_from(symbols, from) =~= seq!['"'] + symbols[from]@ + seq!['"']
            + Seq::<char>::empty());
    } else {
        assert(seq!['"'] + symbols[from]@ + seq!['"', ','] + quoted_list_from(symbols, from + 1)
            =~= seq!['"'] + symbols[from]@ + seq!['"'] + (seq![','] + quoted_list_from(
            symbols,
            from + 1,
        )));
    }
}

/// Prepending the rest of a list to what follows the first `from` symbols.
proof fn lemma_quoted_list_prefix(symbols: Seq<String>, from: int, written: Seq<char>)
    requires
        0 <= from < symbols.len(),
        written + quoted_list_from(symbols, from) == quoted_list_from(symbols, 0),
    ensures
        from + 1 < symbols.len() ==> written + seq!['"'] + symbols[from]@ + seq!['"'] + seq![',']
            + quoted_list_from(symbols, from + 1) == quoted_list_from(symbols, 0),
        from + 1 == symbols.len() ==> written + seq!['"'] + symbols[from]@ + seq!['"']
            == quoted_list_from(symbols, 0),
{
    lemma_quoted_list_step(symbols, from);
    if from + 1 < symbols.len() {
        assert(written + seq!['"'] + symbols[from]@ + seq!['"'] + seq![','] + quoted_list_from(
            symbols,
            from + 1,
        ) =~= written + quoted_list_from(symbols, from));
    } else {
        assert(written + seq!['"'] + symbols[from]@ + seq!['"'] =~= written + quoted_list_from(
            symbols,
            from,
        ));
    }
}

impl OneOrMany<String> {
    /// The text `["A","B"]` of a list of symbols.
    pub fn list_text(symbols: &Vec<String>) -> (text: String)
        ensures
            text@ == symbol_list_text(symbols@),
    {
        let mut inner = String::new();
        let n: usize = symbols.len();
        let mut i: usize = 0;
        assert(inner@ + quoted_list_from(symbols@, 0) =~= quoted_list_from(symbols@, 0));
        while i < n
            invariant
                n == symbols@.len(),
                i <= n,
                i < n ==> inner@ + quoted_list_from(symbols@, i as int) == quoted_list_from(
                    symbols@,
                    0,
                ),
                i == n ==> inner@ == quoted_list_from(symbols@, 0),
            decreases n - i,
        {
            let ghost written = inner@;
            proof {
                lemma_quoted_list_prefix(symbols@, i as int, written);
            }
            push_char(&mut inner, '"');
            inner.append(symbols[i].as_str());
            push_char(&mut inner, '"');
            assert(inner@ =~= written + seq!['"'] + symbols@[i as int]@ + seq!['"']);
            if i + 1 < n {
                push_char(&mut inner, ',');
                assert(inner@ =~= written + seq!['"'] + symbols@[i as int]@ + seq!['"'] + seq![
                    ',',
                ]);
            }
            i = i + 1;
        }
        let mut text = String::from_str("[");
        text.append(inner.as_str());
        push_char(&mut text, ']');
        proof {
            reveal_strlit("[");
            assert(text@ =~= symbol_list_text(symbols@));
        }
        text
    }

    /// Appends the symbol, or the list of symbols, to a query string.
    pub fn push_to(&self, out: &mut String)
        ensures
            final(out)@ == with_symbols(old(out)@, *self),
    {
        match self {
            OneOrMany::One(s) => push_pair(out, "symbol", s.as_str()),
            OneOrMany::Many(list) => {
                let text = Self::list_text(list);
                push_pair(out, "symbols", text.as_str());
            },
        }
    }

    /// Appends the symbol, or the list of symbols, under the name `symbols`,
    /// where there is one.
    pub fn push_optional_nested_to(symbols: &Option<OneOrManySymbol>, out: &mut String)
        ensures
            final(out)@ == with_optional_nested_symbols(old(out)@, *symbols),
    {
        match symbols {
            Some(OneOrMany::One(s)) => push_pair(out, "symbols[symbol]", s.as_str()),
            Some(OneOrMany::Many(list)) => {
                let text = Self::list_text(list);
                push_pair(out, "symbols[symbols]", text.as_str());
            },
            None => {},
        }
    }

    /// Appends the symbol, or the list of symbols, where there is one.
    pub fn push_optional_to(symbols: &Option<OneOrManySymbol>, out: &mut String)
        ensures
            final(out)@ == with_optional_symbols(old(out)@, *symbols),
    {
        match symbols {
            Some(s) => s.push_to(out),
            None => {},
        }
    }
}

/// The current time in milliseconds since the Unix epoch.
///
/// Trusted: `chrono::Utc::now` and `DateTime::timestamp_millis`. The value
/// is the clock's; nothing is claimed of it.
#[verifier::external_body]
pub(crate) fn now_millis() -> u64 {
    chrono::Utc::now().timestamp_millis() as u64
}

/// The parameters that most signed requests share.
#[derive(Debug, Default)]
pub struct BaseRequest {
    pub recv_window: Option<u64>,
    pub timestamp: u64,
}

/// A query string with the shared parameters `recvWindow` and `timestamp`.
pub open spec fn with_base(query: Seq<char>, base: BaseRequest) -> Seq<char> {
    with_pair(
        with_optional_pair(query, "recvWindow"@, optional_decimal(base.recv_window)),
        "timestamp"@,
        decimal_text(base.timestamp as nat),
    )
}

impl BaseRequest {
    /// A request stamped with the given time and no window.
    pub fn at(timestamp: u64) -> (r: Self)
        ensures
            r.recv_window is None,
            r.timestamp == timestamp,
    {
        BaseRequest { recv_window: None, timestamp }
    }

    /// A request stamped with the current time and no window.
    pub fn init() -> (r: Self)
        ensures
            r.recv_window is None,
    {
        Self::at(now_millis())
    }

    /// A request stamped with the current time and no window.
    pub fn require() -> (r: Self)
        ensures
            r.recv_window is None,
    {
        Self::at(now_millis())
    }

    /// Appends `recvWindow`, where there is one, and `timestamp`.
    pub fn push_to(&self, out: &mut String)
        ensures
            final(out)@ == with_base(old(out)@, *self),
    {
        push_optional_u64_pair(out, "recvWindow", self.recv_window);
        push_u64_pair(out, "timestamp", self.timestamp);
    }
}

impl BaseRequest {
    /// The query string of the shared parameters alone.
    pub fn to_string(&self) -> (query: String)
        ensures
            query@ == with_base(Seq::empty(), *self),
    {
        let mut out = String::new();
        self.push_to(&mut out);
        out
    }
}

/// How much of an order the exchange reports back.
#[derive(Debug, Clone, Copy, PartialEq, Eq, Structural)]
pub enum ResponseType {
    Ack,
    Result,
    Full,
}

impl ResponseType {
    pub open spec fn spec_name(self) -> Seq<char> {
        match self {
            ResponseType::Ack => "ACK"@,
            ResponseType::Result => "RESULT"@,
            ResponseType::Full => "FULL"@,
        }
    }

    pub fn as_str(&self) -> (name: &'static str)
        ensures
            name@ == self.spec_name(),
    {
        match self {
            ResponseType::Ack => "ACK",
            ResponseType::Result => "RESULT",
            ResponseType::Full => "FULL",
        }
    }
}

/// The envelope of every answer of the REST interface: the error that the
/// exchange reports, or the data that was asked for.
#[derive(Debug)]
pub enum Response<T> {
    Error { code: i64, msg: String },
    Data(T),
}

/// Whether a document has the shape of an error: an object with an integer
/// `code` and a string `msg`. This shape is tried first; a document that has
/// it is an error whatever else it holds.
pub open spec fn is_error_shape(document: JsonValue) -> bool {
    document.i64_at("code"@) is Some && document.text_at("msg"@) is Some
}

impl Response<Json> {
    /// Tells an error from data.
    pub fn from_json(document: Json) -> (r: Response<Json>)
        ensures
            is_error_shape(document@) ==> (r matches Response::Error { code, msg } && Some(code)
                == document@.i64_at("code"@) && Some(msg@) == document@.text_at("msg"@)),
            !is_error_shape(document@) ==> r == Response::Data(document),
    {
        let code = document.i64_at("code");
        let msg = document.text_at("msg");
        match (code, msg) {
            (Some(code), Some(msg)) => Response::Error { code, msg },
            _ => Response::Data(document),
        }
    }
}

} // verus!
