//! Stream frames and what a connection does with them.
//!
//! A frame is classified by its shape: a heartbeat, the wrapper of a
//! combined stream, or a bare event. A connection then decides, frame by
//! frame, what its consumer gets: an event, nothing, the end of the stream,
//! or the report that the frame cannot belong to this kind of connection.
//! Reading from the socket is left to the caller.

pub mod market_streams;
pub mod stream_events;

use vstd::prelude::*;
use vstd::string::*;
use crate::api_config::ApiConfig;
use crate::decode::{member_describes, member_from_json, member_has_shape, FromJson};
use crate::errors::BinanceApiError;
use crate::json::{json_document, shape_error, Json, JsonValue};
use market_streams::{join_names, joined_names, MarketStreams};
use stream_events::BinanceStreamEvent;

verus! {

/// The number of a heartbeat: the document itself where it is an integer,
/// the member `ping` where the document is an object that has an integer
/// under that name.
pub open spec fn heartbeat_of(document: JsonValue) -> Option<i64> {
    match document.as_i64() {
        Some(n) => Some(n),
        None => document.i64_at("ping"@),
    }
}

/// A frame of a stream.
///
/// The shapes are tried in the order of the variants: a heartbeat first,
/// then the wrapper of a combined stream, then a bare event.
#[derive(Debug)]
pub enum StreamEvent {
    Ping(i64),
    CombinedStreamPayload(Box<CombinedStreamPayload>),
    RawStreamPayload(BinanceStreamEvent),
}

/// An event of a combined stream, with the name of the stream it is from.
#[derive(Debug)]
pub struct CombinedStreamPayload {
    pub stream: String,
    pub data: BinanceStreamEvent,
}

impl FromJson for CombinedStreamPayload {
    open spec fn has_shape(document: JsonValue) -> bool {
        &&& document.text_at("stream"@) is Some
        &&& member_has_shape::<BinanceStreamEvent>(document, "data"@)
    }

    open spec fn describes(&self, document: JsonValue) -> bool {
        &&& Some(self.stream@) == document.text_at("stream"@)
        &&& member_describes(self.data, document, "data"@)
    }

    fn from_json(document: &Json) -> (r: Option<Self>) {
        let stream = document.text_at("stream")?;
        let data = member_from_json::<BinanceStreamEvent>(document, "data")?;
        Some(CombinedStreamPayload { stream, data })
    }
}

impl FromJson for StreamEvent {
    open spec fn has_shape(document: JsonValue) -> bool {
        ||| heartbeat_of(document) is Some
        ||| CombinedStreamPayload::has_shape(document)
        ||| BinanceStreamEvent::has_shape(document)
    }

    open spec fn describes(&self, document: JsonValue) -> bool {
        match self {
            StreamEvent::Ping(n) => heartbeat_of(document) == Some(*n),
            StreamEvent::CombinedStreamPayload(payload) => {
                &&& heartbeat_of(document) is None
                &&& CombinedStreamPayload::has_shape(document)
                &&& payload.describes(document)
            },
            StreamEvent::RawStreamPayload(event) => {
                &&& heartbeat_of(document) is None
                &&& !CombinedStreamPayload::has_shape(document)
                &&& event.describes(document)
            },
        }
    }

    fn from_json(document: &Json) -> (r: Option<Self>) {
        if let Some(n) = document.as_i64() {
            return Some(StreamEvent::Ping(n));
        }
        if let Some(n) = document.i64_at("ping") {
            return Some(StreamEvent::Ping(n));
        }
        if let Some(payload) = CombinedStreamPayload::from_json(document) {
            return Some(StreamEvent::CombinedStreamPayload(Box::new(payload)));
        }
        match BinanceStreamEvent::from_json(document) {
            Some(event) => Some(StreamEvent::RawStreamPayload(event)),
            None => None,
        }
    }
}

/// What reading a frame of type `T` must come to.
pub open spec fn describes_reading<T: FromJson>(
    text: Seq<char>,
    r: Result<T, BinanceApiError>,
) -> bool {
    match json_document(text) {
        Some(document) => if T::has_shape(document) {
            r matches Ok(value) && value.describes(document)
        } else {
            r matches Err(BinanceApiError::JSONValueSerDeError(_))
        },
        None => r matches Err(BinanceApiError::JSONValueSerDeError(_)),
    }
}

/// Reads a text as a `T`: the text is parsed, and the document is read.
pub fn read_frame<T: FromJson>(text: &str) -> (r: Result<T, BinanceApiError>)
    ensures
        describes_reading(text@, r),
{
    match Json::parse(text) {
        Ok(document) => match T::from_json(&document) {
            Some(value) => Ok(value),
            None => Err(
                BinanceApiError::JSONValueSerDeError(
                    shape_error("data did not match any variant"),
                ),
            ),
        },
        Err(e) => Err(BinanceApiError::JSONValueSerDeError(e)),
    }
}

impl StreamEvent {
    /// Classifies the text of a frame.
    pub fn try_from(value: &str) -> (r: Result<Self, BinanceApiError>)
        ensures
            describes_reading(value@, r),
    {
        read_frame::<StreamEvent>(value)
    }
}

impl CombinedStreamPayload {
    /// Reads the text of a frame as the wrapper of a combined stream.
    pub fn try_from(value: &str) -> (r: Result<Self, BinanceApiError>)
        ensures
            describes_reading(value@, r),
    {
        read_frame::<CombinedStreamPayload>(value)
    }
}

impl BinanceStreamEvent {
    /// Reads the text of a frame as a bare event.
    pub fn try_from(value: &str) -> (r: Result<Self, BinanceApiError>)
        ensures
            describes_reading(value@, r),
    {
        read_frame::<BinanceStreamEvent>(value)
    }
}

/// What the transport hands over when it is asked for the next frame.
#[derive(Debug)]
pub enum Inbound {
    /// The connection is closed: there will be no more frames.
    Closed,
    /// The transport failed; its message.
    Failed(String),
    /// A frame that is no text.
    NotText,
    /// The text of a frame.
    Text(String),
}

/// What the consumer of a connection gets for one frame.
#[derive(Debug)]
pub enum StreamStep<T> {
    /// The stream has ended.
    Finished,
    /// The frame carries no event; the stream goes on.
    Idle,
    /// The next item of the stream.
    Item(T),
    /// The frame cannot belong to this kind of connection, or the transport
    /// failed where the connection has no way to say so: the caller's
    /// contract is broken, and it must not go on.
    Violation,
}

/// A connection to one market stream.
#[derive(Debug)]
pub struct RawStream {
    pub name: MarketStreams,
}

/// What a raw connection makes of a classified frame. `None` stands for a
/// frame that could not be classified.
pub open spec fn raw_step_of(classified: Option<StreamEvent>) -> StreamStep<BinanceStreamEvent> {
    match classified {
        None => StreamStep::Item(BinanceStreamEvent::Reconnect),
        Some(StreamEvent::Ping(_)) => StreamStep::Idle,
        Some(StreamEvent::CombinedStreamPayload(_)) => StreamStep::Violation,
        Some(StreamEvent::RawStreamPayload(event)) => StreamStep::Item(event),
    }
}

/// What a raw connection must make of what the transport handed over.
pub open spec fn describes_raw_step(inbound: Inbound, step: StreamStep<BinanceStreamEvent>) -> bool {
    match inbound {
        Inbound::Closed => step is Finished,
        Inbound::Failed(_) => step is Violation,
        Inbound::NotText => step == StreamStep::Item(BinanceStreamEvent::Reconnect),
        Inbound::Text(text) => match json_document(text@) {
            None => step == StreamStep::Item(BinanceStreamEvent::Reconnect),
            Some(document) => if heartbeat_of(document) is Some {
                step is Idle
            } else if CombinedStreamPayload::has_shape(document) {
                step is Violation
            } else if BinanceStreamEvent::has_shape(document) {
                step matches StreamStep::Item(event) && event.describes(document)
            } else {
                step == StreamStep::Item(BinanceStreamEvent::Reconnect)
            },
        },
    }
}

impl RawStream {
    pub fn new(market_stream: MarketStreams) -> (stream: Self)
        ensures
            stream.name == market_stream,
    {
        RawStream { name: market_stream }
    }

    /// The address of the stream: the base, `/ws/` and the name.
    pub open spec fn spec_url(&self, ws_endpoint: Seq<char>) -> Seq<char> {
        ws_endpoint + "/ws/"@ + self.name.spec_name()
    }

    /// The address of the stream.
    pub fn url(&self, config: &ApiConfig) -> (url: String)
        ensures
            url@ == self.spec_url(config.ws_endpoint@),
    {
        let name = self.name.name();
        let mut url = String::from_str(config.ws_endpoint.as_str());
        url.append("/ws/");
        url.append(name.as_str());
        url
    }

    /// What the consumer gets for a classified frame: a heartbeat is no
    /// event, a bare event is the next item, the wrapper of a combined
    /// stream breaks the contract, and a frame that could not be classified
    /// is the signal to reconnect.
    pub fn on_event(classified: Option<StreamEvent>) -> (step: StreamStep<BinanceStreamEvent>)
        ensures
            step == raw_step_of(classified),
    {
        match classified {
            None => StreamStep::Item(BinanceStreamEvent::Reconnect),
            Some(StreamEvent::Ping(_)) => StreamStep::Idle,
            Some(StreamEvent::CombinedStreamPayload(_)) => StreamStep::Violation,
            Some(StreamEvent::RawStreamPayload(event)) => StreamStep::Item(event),
        }
    }

    /// What the consumer gets for what the transport handed over.
    pub fn on_frame(&self, inbound: Inbound) -> (step: StreamStep<BinanceStreamEvent>)
        ensures
            describes_raw_step(inbound, step),
    {
        match inbound {
            Inbound::Closed => StreamStep::Finished,
            Inbound::Failed(_) => StreamStep::Violation,
            Inbound::NotText => StreamStep::Item(BinanceStreamEvent::Reconnect),
            Inbound::Text(text) => {
                let classified = match StreamEvent::try_from(text.as_str()) {
                    Ok(event) => Some(event),
                    Err(_) => None,
                };
                Self::on_event(classified)
            },
        }
    }
}

/// A connection that carries several market streams.
#[derive(Debug)]
pub struct CombinedStream {
    pub name: Vec<MarketStreams>,
}

/// What a combined connection must make of what the transport handed over.
/// The signal to reconnect is wrapped with the names of the streams.
pub open spec fn describes_combined_step(
    names: Seq<char>,
    inbound: Inbound,
    step: StreamStep<CombinedStreamPayload>,
) -> bool {
    let reconnects = step matches StreamStep::Item(payload) && payload.stream@ == names
        && payload.data is Reconnect;
    match inbound {
        Inbound::Closed => step is Finished,
        Inbound::Failed(_) => reconnects,
        Inbound::NotText => reconnects,
        Inbound::Text(text) => match json_document(text@) {
            None => reconnects,
            Some(document) => if heartbeat_of(document) is Some {
                step is Idle
            } else if CombinedStreamPayload::has_shape(document) {
                step matches StreamStep::Item(payload) && payload.describes(document)
            } else if BinanceStreamEvent::has_shape(document) {
                step is Violation
            } else {
                reconnects
            },
        },
    }
}

impl CombinedStream {
    pub fn new(streams: Vec<MarketStreams>) -> (stream: Self)
        ensures
            stream.name == streams,
    {
        CombinedStream { name: streams }
    }

    /// The names of the streams with `/` between them.
    pub open spec fn spec_stream_names(&self) -> Seq<char> {
        joined_names(self.name@, 0)
    }

    /// The names of the streams with `/` between them.
    pub fn stream_names(&self) -> (names: String)
        ensures
            names@ == self.spec_stream_names(),
    {
        join_names(&self.name)
    }

    /// The address of the streams: the base, `/stream?streams=` and the
    /// names.
    pub open spec fn spec_url(&self, ws_endpoint: Seq<char>) -> Seq<char> {
        ws_endpoint + "/stream?streams="@ + self.spec_stream_names()
    }

    /// The address of the streams.
    pub fn url(&self, ws_endpoint: &str) -> (url: String)
        ensures
            url@ == self.spec_url(ws_endpoint@),
    {
        let names = self.stream_names();
        let mut url = String::from_str(ws_endpoint);
        url.append("/stream?streams=");
        url.append(names.as_str());
        url
    }

    /// The signal to reconnect, wrapped with the names of the streams.
    pub fn reconnect(&self) -> (payload: CombinedStreamPayload)
        ensures
            payload.stream@ == self.spec_stream_names(),
            payload.data is Reconnect,
    {
        CombinedStreamPayload { stream: self.stream_names(), data: BinanceStreamEvent::Reconnect }
    }

    /// What the consumer gets for a classified frame: a heartbeat is no
    /// event, the wrapper of a combined stream is the next item, a bare
    /// event breaks the contract, and a frame that could not be classified
    /// is the signal to reconnect.
    pub fn on_event(&self, classified: Option<StreamEvent>) -> (step: StreamStep<
        CombinedStreamPayload,
    >)
        ensures
            match classified {
                None => step matches StreamStep::Item(payload) && payload.stream@
                    == self.spec_stream_names() && payload.data is Reconnect,
                Some(StreamEvent::Ping(_)) => step is Idle,
                Some(StreamEvent::CombinedStreamPayload(inner)) => step == StreamStep::Item(
                    *inner,
                ),
                Some(StreamEvent::RawStreamPayload(_)) => step is Violation,
            },
    {
        match classified {
            None => StreamStep::Item(self.reconnect()),
            Some(StreamEvent::Ping(_)) => StreamStep::Idle,
            Some(StreamEvent::CombinedStreamPayload(inner)) => StreamStep::Item(*inner),
            Some(StreamEvent::RawStreamPayload(_)) => StreamStep::Violation,
        }
    }

    /// What the consumer gets for what the transport handed over.
    pub fn on_frame(&self, inbound: Inbound) -> (step: StreamStep<CombinedStreamPayload>)
        ensures
            describes_combined_step(self.spec_stream_names(), inbound, step),
    {
        match inbound {
            Inbound::Closed => StreamStep::Finished,
            Inbound::Failed(_) => StreamStep::Item(self.reconnect()),
            Inbound::NotText => StreamStep::Item(self.reconnect()),
            Inbound::Text(text) => {
                let classified = match StreamEvent::try_from(text.as_str()) {
                    Ok(event) => Some(event),
                    Err(_) => None,
                };
                self.on_event(classified)
            },
        }
    }
}

} // verus!
