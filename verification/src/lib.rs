//! Typed client library for a cryptocurrency exchange's REST and WebSocket
//! interfaces: request encoding and signing, dispatch by authentication tier,
//! response envelopes, and the classification of stream frames into events.
//!
//! The library computes and decides; it does not touch the network. A call
//! of the REST interface is prepared by [`client::Client::access`], which
//! returns the request to send, and finished by
//! [`client::Client::handle_api_return`], which reads the body that came
//! back. A stream connection hands each frame to `on_frame` of
//! [`ws_streams::RawStream`] or [`ws_streams::CombinedStream`] and is told
//! what its consumer gets.

pub mod api_config;
pub mod client;
pub mod decode;
pub mod endpoints;
pub mod errors;
pub mod json;
pub mod models;
pub mod primitives;
pub mod signer;
pub mod text;
pub mod utils;
pub mod ws_streams;

pub use endpoints::SecurityType;
